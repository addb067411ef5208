//! The widget definition store: which files hold descriptors, lookup by id,
//! and the window that each widget asks for.

use crate::text::{ends_with, has_suffix, same_text};
use crate::widget::{DefaultOrientation, Widget, WidgetType, WidgetView};
use vstd::prelude::*;
use vstd::string::StringExecFns;

verus! {

/// What the loader knows of one entry of the widgets directory.
#[derive(Debug)]
pub struct DirectoryEntry {
    /// Name of the entry, extension included.
    pub file_name: String,
    /// Whether the entry is a regular file.
    pub is_file: bool,
}

/// Whether an entry is taken as a descriptor: a regular file whose name ends
/// with the extension. Directories are never entered.
pub open spec fn is_descriptor_entry(entry: DirectoryEntry, extension: Seq<char>) -> bool {
    entry.is_file && ends_with(entry.file_name@, extension)
}

/// Picks the entries of a directory that hold descriptors: the positions, in
/// directory order, of the regular files whose names end with `extension`.
pub fn descriptor_entries(entries: &Vec<DirectoryEntry>, extension: &str) -> (chosen: Vec<usize>)
    ensures
        forall|k: int|
            0 <= k < chosen@.len() ==> (#[trigger] chosen@[k]) < entries@.len()
                && is_descriptor_entry(entries@[chosen@[k] as int], extension@),
        forall|j: int, k: int|
            0 <= j < k < chosen@.len() ==> (#[trigger] chosen@[j]) < (#[trigger] chosen@[k]),
        forall|i: int|
            0 <= i < entries@.len() && is_descriptor_entry(#[trigger] entries@[i], extension@)
                ==> chosen@.contains(i as usize),
{
    let mut chosen: Vec<usize> = Vec::new();
    let mut i: usize = 0;
    while i < entries.len()
        invariant
            i <= entries@.len(),
            forall|k: int|
                0 <= k < chosen@.len() ==> (#[trigger] chosen@[k]) < i && is_descriptor_entry(
                    entries@[chosen@[k] as int],
                    extension@,
                ),
            forall|j: int, k: int|
                0 <= j < k < chosen@.len() ==> (#[trigger] chosen@[j]) < (#[trigger] chosen@[k]),
            forall|m: int|
                0 <= m < i && is_descriptor_entry(#[trigger] entries@[m], extension@)
                    ==> chosen@.contains(m as usize),
        decreases entries@.len() - i,
    {
        if entries[i].is_file && has_suffix(entries[i].file_name.as_str(), extension) {
            let ghost before = chosen@;
            chosen.push(i);
            proof {
                assert(chosen@ =~= before.push(i));
                assert(chosen@[before.len() as int] == i);
                assert forall|m: int|
                    0 <= m < i + 1 && is_descriptor_entry(
                        #[trigger] entries@[m],
                        extension@,
                    ) implies chosen@.contains(m as usize) by {
                    if m < i {
                        assert(before.contains(m as usize));
                        let k = choose|k: int| 0 <= k < before.len() && before[k] == m as usize;
                        assert(chosen@[k] == m as usize);
                    }
                }
            }
        }
        i = i + 1;
    }
    chosen
}

/// The text of the diagnostic for a file that cannot be read as a
/// descriptor: a header, the file, and the reader's complaint.
pub open spec fn parse_failure_text(file: Seq<char>, complaint: Seq<char>) -> Seq<char> {
    "failed to parse config file: "@ + file + " | Error: "@ + complaint
}

/// Writes the diagnostic for a file that cannot be read as a descriptor. It
/// names the file and carries the reader's complaint.
pub fn parse_failure_message(file: &str, complaint: &str) -> (out: String)
    ensures
        out@ == parse_failure_text(file@, complaint@),
{
    let mut out = String::from_str("failed to parse config file: ");
    out.append(file);
    out.append(" | Error: ");
    out.append(complaint);
    out
}

/// The diagnostic tells files apart: for one complaint, two files have the
/// same diagnostic only if they are the same file.
pub proof fn lemma_diagnostic_names_the_file(a: Seq<char>, b: Seq<char>, complaint: Seq<char>)
    requires
        parse_failure_text(a, complaint) == parse_failure_text(b, complaint),
    ensures
        a == b,
{
    let head = "failed to parse config file: "@;
    let tail = " | Error: "@ + complaint;
    let with_a = head + a + tail;
    let with_b = head + b + tail;
    assert(with_a =~= parse_failure_text(a, complaint));
    assert(with_b =~= parse_failure_text(b, complaint));
    assert(with_a.len() == head.len() + a.len() + tail.len());
    assert(with_b.len() == head.len() + b.len() + tail.len());
    assert(a.len() == b.len());
    assert forall|i: int| 0 <= i < a.len() implies a[i] == b[i] by {
        assert(with_a[head.len() + i] == a[i]);
        assert(with_b[head.len() + i] == b[i]);
    }
    assert(a =~= b);
}

/// One file of the widgets directory after the attempt to read it as a
/// descriptor: the widget it holds, or the reader's complaint.
#[derive(Debug)]
pub struct DescriptorFile {
    /// The file, as the diagnostic is to name it.
    pub file: String,
    pub parsed: Result<Widget, String>,
}

/// The first file, from `from` on, that could not be read as a descriptor.
pub open spec fn first_unparsed(files: Seq<DescriptorFile>, from: int) -> Option<int>
    decreases files.len() - from,
{
    if from < 0 || from >= files.len() {
        None
    } else if files[from].parsed is Err {
        Some(from)
    } else {
        first_unparsed(files, from + 1)
    }
}

/// The window that the host is asked to create for a widget.
#[derive(Debug)]
pub struct WindowRequest {
    /// Handle of the window: the widget's id.
    pub label: String,
    /// Path of the page to load; it carries the widget's id.
    pub url: String,
    pub decorations: bool,
    pub transparent: bool,
    pub skip_taskbar: bool,
    pub always_on_bottom: bool,
    pub resizable: bool,
    /// Where to put the window; `None` centres it.
    pub position: Option<(u32, u32)>,
    /// Width and height of the window's content.
    pub inner_size: (u32, u32),
}

/// What start-up asks of the host: one window for each widget, and the one
/// media poll loop where any of the windows shows a media player.
#[derive(Debug)]
pub struct StartupPlan {
    /// The windows, in the order of the store.
    pub windows: Vec<WindowRequest>,
    /// Whether the media poll loop is started. It is started once, however
    /// many media players there are.
    pub starts_media_poll: bool,
}

/// Mathematical value of a [`WindowRequest`].
pub struct WindowRequestView {
    pub label: Seq<char>,
    pub url: Seq<char>,
    pub decorations: bool,
    pub transparent: bool,
    pub skip_taskbar: bool,
    pub always_on_bottom: bool,
    pub resizable: bool,
    pub position: Option<(u32, u32)>,
    pub inner_size: (u32, u32),
}

impl View for WindowRequest {
    type V = WindowRequestView;

    open spec fn view(&self) -> WindowRequestView {
        WindowRequestView {
            label: self.label@,
            url: self.url@,
            decorations: self.decorations,
            transparent: self.transparent,
            skip_taskbar: self.skip_taskbar,
            always_on_bottom: self.always_on_bottom,
            resizable: self.resizable,
            position: self.position,
            inner_size: self.inner_size,
        }
    }
}

/// Why no window can be planned for a widget.
#[derive(Debug, Clone, Copy, PartialEq, Eq, Structural)]
pub enum WidgetError {
    /// The widget at this position of the store has a type that has no
    /// window yet.
    NotImplemented { index: usize, widget_type: WidgetType },
}

/// Content size of a media player window: wide and flat when horizontal,
/// tall otherwise.
pub open spec fn media_player_size(orientation: Option<DefaultOrientation>) -> (u32, u32) {
    match orientation {
        Some(DefaultOrientation::Horizontal) => (640u32, 160u32),
        _ => (320u32, 480u32),
    }
}

/// The window of a media player widget: borderless, transparent, off the
/// task bar, below all other windows.
pub open spec fn media_player_window(widget: WidgetView) -> WindowRequestView {
    WindowRequestView {
        label: widget.id,
        url: "/media?id="@ + widget.id,
        decorations: false,
        transparent: true,
        skip_taskbar: true,
        always_on_bottom: true,
        resizable: match widget.property.resizable {
            Some(resizable) => resizable,
            None => false,
        },
        position: widget.property.position,
        inner_size: media_player_size(widget.property.orientation),
    }
}

/// Plans the window of one widget. Only media player widgets have one.
pub fn window_request(widget: &Widget) -> (out: Option<WindowRequest>)
    ensures
        match out {
            Some(request) => widget.widget_type == WidgetType::DefaultMediaPlayerControls
                && request@ == media_player_window(widget@),
            None => widget.widget_type != WidgetType::DefaultMediaPlayerControls,
        },
{
    match widget.widget_type {
        WidgetType::DefaultMediaPlayerControls => {
            let mut url = String::from_str("/media?id=");
            url.append(widget.id.as_str());
            let inner_size: (u32, u32) = match widget.property.orientation {
                Some(DefaultOrientation::Horizontal) => (640, 160),
                _ => (320, 480),
            };
            let resizable = match widget.property.resizable {
                Some(resizable) => resizable,
                None => false,
            };
            Some(
                WindowRequest {
                    label: widget.id.clone(),
                    url,
                    decorations: false,
                    transparent: true,
                    skip_taskbar: true,
                    always_on_bottom: true,
                    resizable,
                    position: widget.property.position,
                    inner_size,
                },
            )
        },
        _ => None,
    }
}

/// Position of the first widget with the given id, looking from `from` on.
pub open spec fn first_with_id(widgets: Seq<Widget>, id: Seq<char>, from: int) -> Option<int>
    decreases widgets.len() - from,
{
    if from < 0 || from >= widgets.len() {
        None
    } else if widgets[from].id@ == id {
        Some(from)
    } else {
        first_with_id(widgets, id, from + 1)
    }
}

/// The widget that a lookup by id gives.
pub open spec fn widget_with_id(widgets: Seq<Widget>, id: Seq<char>) -> Option<WidgetView> {
    match first_with_id(widgets, id, 0) {
        Some(i) => Some(widgets[i]@),
        None => None,
    }
}

/// Position of the first widget that has no window yet, looking from `from`
/// on.
pub open spec fn first_unimplemented(widgets: Seq<Widget>, from: int) -> Option<int>
    decreases widgets.len() - from,
{
    if from < 0 || from >= widgets.len() {
        None
    } else if widgets[from].widget_type != WidgetType::DefaultMediaPlayerControls {
        Some(from)
    } else {
        first_unimplemented(widgets, from + 1)
    }
}

/// No two widgets share an id.
pub open spec fn distinct_ids(widgets: Seq<Widget>) -> bool {
    forall|i: int, j: int|
        0 <= i < j < widgets.len() ==> (#[trigger] widgets[i]).id@ != (#[trigger] widgets[j]).id@
}

/// The widget definition store. It is filled once and only read afterwards.
#[derive(Debug)]
pub struct WidgetHandler {
    pub widgets: Vec<Widget>,
}

impl WidgetHandler {
    /// Makes the store of the descriptors that were loaded, in their order.
    pub fn new(widgets: Vec<Widget>) -> (out: Self)
        ensures
            out.widgets == widgets,
    {
        WidgetHandler { widgets }
    }

    /// Makes the store of the files that were read, in their order. One file
    /// that does not hold a descriptor is fatal: there is no store then, only
    /// the diagnostic, which names the first such file and carries the
    /// complaint about it.
    pub fn load(files: Vec<DescriptorFile>) -> (out: Result<Self, String>)
        ensures
            match first_unparsed(files@, 0) {
                None => {
                    &&& out is Ok
                    &&& out->Ok_0.widgets@.len() == files@.len()
                    &&& forall|i: int|
                        0 <= i < files@.len() ==> files@[i].parsed == Ok::<Widget, String>(
                            #[trigger] out->Ok_0.widgets@[i],
                        )
                },
                Some(bad) => {
                    &&& out is Err
                    &&& files@[bad].parsed is Err
                    &&& out->Err_0@ == parse_failure_text(
                        files@[bad].file@,
                        files@[bad].parsed->Err_0@,
                    )
                },
            },
    {
        let mut widgets: Vec<Widget> = Vec::new();
        let ghost all = files@;
        for entry in it: files
            invariant
                it.seq() == all,
                widgets@.len() == it.index(),
                first_unparsed(all, 0) == first_unparsed(all, it.index() as int),
                forall|k: int|
                    0 <= k < it.index() ==> all[k].parsed == Ok::<Widget, String>(
                        #[trigger] widgets@[k],
                    ),
        {
            match entry.parsed {
                Ok(widget) => {
                    widgets.push(widget);
                },
                Err(complaint) => {
                    return Err(parse_failure_message(entry.file.as_str(), complaint.as_str()));
                },
            }
        }
        Ok(WidgetHandler { widgets })
    }

    /// Looks a widget up by its id: a copy of the first widget that has the
    /// id, or `None` where no widget has it.
    pub fn get_widget(&self, widget_id: &str) -> (out: Option<Widget>)
        ensures
            match out {
                Some(widget) => widget_with_id(self.widgets@, widget_id@) == Some(widget@),
                None => widget_with_id(self.widgets@, widget_id@) is None,
            },
    {
        let mut i: usize = 0;
        while i < self.widgets.len()
            invariant
                i <= self.widgets@.len(),
                first_with_id(self.widgets@, widget_id@, 0) == first_with_id(
                    self.widgets@,
                    widget_id@,
                    i as int,
                ),
            decreases self.widgets@.len() - i,
        {
            if same_text(self.widgets[i].id.as_str(), widget_id) {
                return Some(self.widgets[i].clone());
            }
            i = i + 1;
        }
        None
    }

    /// Plans start-up: the windows of all widgets, one for each in the order
    /// of the store, and the media poll loop, which is asked for once where
    /// there is any media player and not at all in an empty store. A widget
    /// of a type that has no window yet makes the whole plan fail: the error
    /// names the first such widget.
    pub fn initialize_all_widgets(&self) -> (out: Result<StartupPlan, WidgetError>)
        ensures
            match out {
                Ok(plan) => {
                    &&& first_unimplemented(self.widgets@, 0) is None
                    &&& plan.windows@.len() == self.widgets@.len()
                    &&& forall|i: int|
                        0 <= i < plan.windows@.len() ==> (#[trigger] plan.windows@[i])@
                            == media_player_window(self.widgets@[i]@)
                    &&& plan.starts_media_poll == (self.widgets@.len() > 0)
                },
                Err(WidgetError::NotImplemented { index, widget_type }) => {
                    &&& first_unimplemented(self.widgets@, 0) == Some(index as int)
                    &&& widget_type == self.widgets@[index as int].widget_type
                },
            },
    {
        let mut windows: Vec<WindowRequest> = Vec::new();
        let mut i: usize = 0;
        while i < self.widgets.len()
            invariant
                i <= self.widgets@.len(),
                windows@.len() == i,
                first_unimplemented(self.widgets@, 0) == first_unimplemented(
                    self.widgets@,
                    i as int,
                ),
                forall|k: int|
                    0 <= k < i ==> (#[trigger] windows@[k])@ == media_player_window(
                        self.widgets@[k]@,
                    ),
            decreases self.widgets@.len() - i,
        {
            match window_request(&self.widgets[i]) {
                Some(request) => {
                    windows.push(request);
                },
                None => {
                    return Err(
                        WidgetError::NotImplemented {
                            index: i,
                            widget_type: self.widgets[i].widget_type,
                        },
                    );
                },
            }
            i = i + 1;
        }
        let starts_media_poll = windows.len() > 0;
        Ok(StartupPlan { windows, starts_media_poll })
    }
}

/// From position `from` on, the first widget with the id of widget `i` is
/// widget `i` itself, as long as no two widgets share an id.
proof fn lemma_first_with_id_finds(widgets: Seq<Widget>, i: int, from: int)
    requires
        0 <= from <= i < widgets.len(),
        distinct_ids(widgets),
    ensures
        first_with_id(widgets, widgets[i].id@, from) == Some(i),
    decreases i - from,
{
    if from < i {
        lemma_first_with_id_finds(widgets, i, from + 1);
    }
}

/// Once descriptors with distinct ids are loaded, looking up the id of any
/// of them gives that very widget.
pub proof fn lemma_lookup_finds_loaded(widgets: Seq<Widget>, i: int)
    requires
        0 <= i < widgets.len(),
        distinct_ids(widgets),
    ensures
        widget_with_id(widgets, widgets[i].id@) == Some(widgets[i]@),
{
    lemma_first_with_id_finds(widgets, i, 0);
}

/// Whatever a lookup gives has the id that was asked for.
pub proof fn lemma_lookup_matches_id(widgets: Seq<Widget>, id: Seq<char>, from: int)
    ensures
        match first_with_id(widgets, id, from) {
            Some(i) => from <= i < widgets.len() && widgets[i].id@ == id,
            None => forall|k: int| 0 <= from <= k < widgets.len() ==> (#[trigger] widgets[k]).id@ != id,
        },
    decreases widgets.len() - from,
{
    if 0 <= from < widgets.len() && widgets[from].id@ != id {
        lemma_lookup_matches_id(widgets, id, from + 1);
    }
}

/// Looking up an id that no loaded widget has gives nothing.
pub proof fn lemma_lookup_unknown_is_absent(widgets: Seq<Widget>, id: Seq<char>)
    requires
        forall|k: int| 0 <= k < widgets.len() ==> (#[trigger] widgets[k]).id@ != id,
    ensures
        widget_with_id(widgets, id) is None,
{
    lemma_lookup_matches_id(widgets, id, 0);
}

} // verus!
