//! Widget descriptors: what a widget is, how it looks and where it sits.

use crate::scalar::Real32;
use crate::text::same_text;
use vstd::prelude::*;
use vstd::string::StringExecFns;

verus! {

/// Direction in which a widget lays out its content.
#[derive(Debug, Clone, Copy, PartialEq, Eq, Structural)]
pub enum DefaultOrientation {
    Horizontal,
    Vertical,
}

/// Colour scheme of a widget.
#[derive(Debug, Clone, Copy, PartialEq, Eq, Structural)]
pub enum WidgetTheme {
    Normal,
    Dynamic,
}

/// What a widget shows.
#[derive(Debug, Clone, Copy, PartialEq, Eq, Structural)]
pub enum WidgetType {
    DefaultDateTime,
    DefaultWeather,
    DefaultMediaPlayerControls,
    DefaultAppLauncher,
    Custom,
}

impl DefaultOrientation {
    /// The name under which orientation is written in a descriptor.
    pub open spec fn name_of(self) -> Seq<char> {
        match self {
            DefaultOrientation::Horizontal => "Horizontal"@,
            DefaultOrientation::Vertical => "Vertical"@,
        }
    }

    /// The orientation that a name stands for, if any.
    pub open spec fn named(name: Seq<char>) -> Option<DefaultOrientation> {
        if name == "Horizontal"@ {
            Some(DefaultOrientation::Horizontal)
        } else if name == "Vertical"@ {
            Some(DefaultOrientation::Vertical)
        } else {
            None
        }
    }

    /// Returns the name of this orientation.
    pub fn name(&self) -> (out: String)
        ensures
            out@ == self.name_of(),
    {
        match self {
            DefaultOrientation::Horizontal => String::from_str("Horizontal"),
            DefaultOrientation::Vertical => String::from_str("Vertical"),
        }
    }

    /// Reads a orientation from its name; any other text gives `None`.
    pub fn from_name(name: &str) -> (out: Option<DefaultOrientation>)
        ensures
            out == Self::named(name@),
    {
        if same_text(name, "Horizontal") {
            Some(DefaultOrientation::Horizontal)
        } else if same_text(name, "Vertical") {
            Some(DefaultOrientation::Vertical)
        } else {
            None
        }
    }
}

impl WidgetTheme {
    /// The name under which theme is written in a descriptor.
    pub open spec fn name_of(self) -> Seq<char> {
        match self {
            WidgetTheme::Normal => "Normal"@,
            WidgetTheme::Dynamic => "Dynamic"@,
        }
    }

    /// The theme that a name stands for, if any.
    pub open spec fn named(name: Seq<char>) -> Option<WidgetTheme> {
        if name == "Normal"@ {
            Some(WidgetTheme::Normal)
        } else if name == "Dynamic"@ {
            Some(WidgetTheme::Dynamic)
        } else {
            None
        }
    }

    /// Returns the name of this theme.
    pub fn name(&self) -> (out: String)
        ensures
            out@ == self.name_of(),
    {
        match self {
            WidgetTheme::Normal => String::from_str("Normal"),
            WidgetTheme::Dynamic => String::from_str("Dynamic"),
        }
    }

    /// Reads a theme from its name; any other text gives `None`.
    pub fn from_name(name: &str) -> (out: Option<WidgetTheme>)
        ensures
            out == Self::named(name@),
    {
        if same_text(name, "Normal") {
            Some(WidgetTheme::Normal)
        } else if same_text(name, "Dynamic") {
            Some(WidgetTheme::Dynamic)
        } else {
            None
        }
    }
}

impl WidgetType {
    /// The name under which widget type is written in a descriptor.
    pub open spec fn name_of(self) -> Seq<char> {
        match self {
            WidgetType::DefaultDateTime => "DefaultDateTime"@,
            WidgetType::DefaultWeather => "DefaultWeather"@,
            WidgetType::DefaultMediaPlayerControls => "DefaultMediaPlayerControls"@,
            WidgetType::DefaultAppLauncher => "DefaultAppLauncher"@,
            WidgetType::Custom => "Custom"@,
        }
    }

    /// The widget type that a name stands for, if any.
    pub open spec fn named(name: Seq<char>) -> Option<WidgetType> {
        if name == "DefaultDateTime"@ {
            Some(WidgetType::DefaultDateTime)
        } else if name == "DefaultWeather"@ {
            Some(WidgetType::DefaultWeather)
        } else if name == "DefaultMediaPlayerControls"@ {
            Some(WidgetType::DefaultMediaPlayerControls)
        } else if name == "DefaultAppLauncher"@ {
            Some(WidgetType::DefaultAppLauncher)
        } else if name == "Custom"@ {
            Some(WidgetType::Custom)
        } else {
            None
        }
    }

    /// Returns the name of this widget type.
    pub fn name(&self) -> (out: String)
        ensures
            out@ == self.name_of(),
    {
        match self {
            WidgetType::DefaultDateTime => String::from_str("DefaultDateTime"),
            WidgetType::DefaultWeather => String::from_str("DefaultWeather"),
            WidgetType::DefaultMediaPlayerControls => String::from_str("DefaultMediaPlayerControls"),
            WidgetType::DefaultAppLauncher => String::from_str("DefaultAppLauncher"),
            WidgetType::Custom => String::from_str("Custom"),
        }
    }

    /// Reads a widget type from its name; any other text gives `None`.
    pub fn from_name(name: &str) -> (out: Option<WidgetType>)
        ensures
            out == Self::named(name@),
    {
        if same_text(name, "DefaultDateTime") {
            Some(WidgetType::DefaultDateTime)
        } else if same_text(name, "DefaultWeather") {
            Some(WidgetType::DefaultWeather)
        } else if same_text(name, "DefaultMediaPlayerControls") {
            Some(WidgetType::DefaultMediaPlayerControls)
        } else if same_text(name, "DefaultAppLauncher") {
            Some(WidgetType::DefaultAppLauncher)
        } else if same_text(name, "Custom") {
            Some(WidgetType::Custom)
        } else {
            None
        }
    }
}

/// Reading back the name of an orientation gives that orientation.
pub proof fn lemma_orientation_name_round_trip(orientation: DefaultOrientation)
    ensures
        DefaultOrientation::named(orientation.name_of()) == Some(orientation),
{
    reveal_strlit("Horizontal");
    assert("Horizontal"@.len() == 10);
    reveal_strlit("Vertical");
    assert("Vertical"@.len() == 8);
}

/// Reading back the name of a theme gives that theme.
pub proof fn lemma_theme_name_round_trip(theme: WidgetTheme)
    ensures
        WidgetTheme::named(theme.name_of()) == Some(theme),
{
    reveal_strlit("Normal");
    assert("Normal"@.len() == 6);
    reveal_strlit("Dynamic");
    assert("Dynamic"@.len() == 7);
}

/// Reading back the name of a widget type gives that widget type.
pub proof fn lemma_widget_type_name_round_trip(widget_type: WidgetType)
    ensures
        WidgetType::named(widget_type.name_of()) == Some(widget_type),
{
    reveal_strlit("DefaultDateTime");
    assert("DefaultDateTime"@.len() == 15);
    reveal_strlit("DefaultWeather");
    assert("DefaultWeather"@.len() == 14);
    reveal_strlit("DefaultMediaPlayerControls");
    assert("DefaultMediaPlayerControls"@.len() == 26);
    reveal_strlit("DefaultAppLauncher");
    assert("DefaultAppLauncher"@.len() == 18);
    reveal_strlit("Custom");
    assert("Custom"@.len() == 6);
}

/// How a widget looks. Every field is optional.
#[derive(Debug)]
pub struct WidgetAppearance {
    pub theme: Option<WidgetTheme>,
    pub background_color: Option<String>,
    pub opacity: Option<Real32>,
    pub border_size: Option<u32>,
    pub border_color: Option<String>,
    pub border_radius: Option<u32>,
    pub padding: Option<u32>,
    pub fontscale: Option<Real32>,
}

/// Window properties of a widget. Every field is optional.
#[derive(Debug)]
pub struct WidgetProperty {
    pub title: Option<String>,
    pub icon: Option<String>,
    pub hidden: Option<bool>,
    pub resizable: Option<bool>,
    pub draggable: Option<bool>,
    pub position: Option<(u32, u32)>,
    pub size: Option<(u32, u32)>,
    pub orientation: Option<DefaultOrientation>,
}

/// A widget descriptor. Its `id` names the widget and its window; a widget
/// may hold further widgets as children.
#[derive(Debug)]
pub struct Widget {
    pub id: String,
    pub description: String,
    pub widget_type: WidgetType,
    pub property: WidgetProperty,
    pub appearance: WidgetAppearance,
    pub children: Option<Vec<Widget>>,
}

/// Mathematical value of a [`WidgetAppearance`].
pub struct WidgetAppearanceView {
    pub theme: Option<WidgetTheme>,
    pub background_color: Option<Seq<char>>,
    pub opacity: Option<Real32>,
    pub border_size: Option<u32>,
    pub border_color: Option<Seq<char>>,
    pub border_radius: Option<u32>,
    pub padding: Option<u32>,
    pub fontscale: Option<Real32>,
}

/// Mathematical value of a [`WidgetProperty`].
pub struct WidgetPropertyView {
    pub title: Option<Seq<char>>,
    pub icon: Option<Seq<char>>,
    pub hidden: Option<bool>,
    pub resizable: Option<bool>,
    pub draggable: Option<bool>,
    pub position: Option<(u32, u32)>,
    pub size: Option<(u32, u32)>,
    pub orientation: Option<DefaultOrientation>,
}

/// Mathematical value of a [`Widget`]: a finite tree.
pub struct WidgetView {
    pub id: Seq<char>,
    pub description: Seq<char>,
    pub widget_type: WidgetType,
    pub property: WidgetPropertyView,
    pub appearance: WidgetAppearanceView,
    pub children: Option<Seq<WidgetView>>,
}

/// The characters of an optional string.
pub open spec fn text_view(text: Option<String>) -> Option<Seq<char>> {
    match text {
        Some(s) => Some(s@),
        None => None,
    }
}

/// Copies an optional string.
pub fn clone_text(text: &Option<String>) -> (out: Option<String>)
    ensures
        text_view(out) == text_view(*text),
{
    match text {
        Some(s) => Some(s.clone()),
        None => None,
    }
}

impl View for WidgetAppearance {
    type V = WidgetAppearanceView;

    open spec fn view(&self) -> WidgetAppearanceView {
        WidgetAppearanceView {
            theme: self.theme,
            background_color: text_view(self.background_color),
            opacity: self.opacity,
            border_size: self.border_size,
            border_color: text_view(self.border_color),
            border_radius: self.border_radius,
            padding: self.padding,
            fontscale: self.fontscale,
        }
    }
}

impl Clone for WidgetAppearance {
    fn clone(&self) -> (out: Self)
        ensures
            out@ == self@,
    {
        WidgetAppearance {
            theme: self.theme,
            background_color: clone_text(&self.background_color),
            opacity: self.opacity,
            border_size: self.border_size,
            border_color: clone_text(&self.border_color),
            border_radius: self.border_radius,
            padding: self.padding,
            fontscale: self.fontscale,
        }
    }
}

impl View for WidgetProperty {
    type V = WidgetPropertyView;

    open spec fn view(&self) -> WidgetPropertyView {
        WidgetPropertyView {
            title: text_view(self.title),
            icon: text_view(self.icon),
            hidden: self.hidden,
            resizable: self.resizable,
            draggable: self.draggable,
            position: self.position,
            size: self.size,
            orientation: self.orientation,
        }
    }
}

impl Clone for WidgetProperty {
    fn clone(&self) -> (out: Self)
        ensures
            out@ == self@,
    {
        WidgetProperty {
            title: clone_text(&self.title),
            icon: clone_text(&self.icon),
            hidden: self.hidden,
            resizable: self.resizable,
            draggable: self.draggable,
            position: self.position,
            size: self.size,
            orientation: self.orientation,
        }
    }
}

/// The values of a sequence of widgets.
pub open spec fn widget_views(widgets: Seq<Widget>) -> Seq<WidgetView>
    decreases widgets,
{
    Seq::new(widgets.len(), |i: int| if 0 <= i < widgets.len() { widgets[i].view() } else { arbitrary() })
}

impl View for Widget {
    type V = WidgetView;

    open spec fn view(&self) -> WidgetView
        decreases self,
    {
        WidgetView {
            id: self.id@,
            description: self.description@,
            widget_type: self.widget_type,
            property: self.property@,
            appearance: self.appearance@,
            children: match self.children {
                Some(list) => Some(widget_views(list@)),
                None => None,
            },
        }
    }
}

/// Copies a list of widgets, children and all.
pub fn clone_widgets(widgets: &Vec<Widget>) -> (out: Vec<Widget>)
    ensures
        widget_views(out@) == widget_views(widgets@),
    decreases widgets,
{
    let mut out: Vec<Widget> = Vec::with_capacity(widgets.len());
    let mut i: usize = 0;
    while i < widgets.len()
        invariant
            i <= widgets.len(),
            out.len() == i,
            forall|k: int| 0 <= k < i ==> (#[trigger] out[k])@ == widgets[k]@,
        decreases widgets.len() - i,
    {
        out.push(widgets[i].clone());
        i = i + 1;
    }
    assert(widget_views(out@) =~= widget_views(widgets@));
    out
}

impl Clone for Widget {
    fn clone(&self) -> (out: Self)
        ensures
            out@ == self@,
        decreases self,
    {
        Widget {
            id: self.id.clone(),
            description: self.description.clone(),
            widget_type: self.widget_type,
            property: self.property.clone(),
            appearance: self.appearance.clone(),
            children: match &self.children {
                Some(list) => Some(clone_widgets(list)),
                None => None,
            },
        }
    }
}

} // verus!
