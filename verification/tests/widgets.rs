use widget_bridge::command::{get_widget_config, greet};
use widget_bridge::config::{Appearance, Config, WidgetManager};
use widget_bridge::scalar::Real32;
use widget_bridge::widget::{
    DefaultOrientation, Widget, WidgetAppearance, WidgetProperty, WidgetTheme, WidgetType,
};
use widget_bridge::widget_handler::{
    descriptor_entries, parse_failure_message, window_request, DescriptorFile, DirectoryEntry,
    WidgetError, WidgetHandler,
};

fn appearance() -> WidgetAppearance {
    WidgetAppearance {
        theme: None,
        background_color: None,
        opacity: None,
        border_size: None,
        border_color: None,
        border_radius: None,
        padding: None,
        fontscale: None,
    }
}

fn property() -> WidgetProperty {
    WidgetProperty {
        title: None,
        icon: None,
        hidden: None,
        resizable: None,
        draggable: None,
        position: None,
        size: None,
        orientation: None,
    }
}

fn widget(id: &str, widget_type: WidgetType) -> Widget {
    Widget {
        id: id.to_string(),
        description: format!("the {} widget", id),
        widget_type,
        property: property(),
        appearance: appearance(),
        children: None,
    }
}

fn media(id: &str) -> Widget {
    widget(id, WidgetType::DefaultMediaPlayerControls)
}

fn entry(name: &str, is_file: bool) -> DirectoryEntry {
    DirectoryEntry { file_name: name.to_string(), is_file }
}

fn same(a: &Widget, b: &Widget) -> bool {
    format!("{:?}", a) == format!("{:?}", b)
}

#[test]
fn json_files_are_descriptors() {
    let entries = vec![
        entry("media.json", true),
        entry("notes.txt", true),
        entry("nested.json", false),
        entry("clock.json", true),
        entry("json", true),
        entry(".json", true),
        entry("upper.JSON", true),
        entry("backup.json.bak", true),
    ];
    assert_eq!(descriptor_entries(&entries, ".json"), vec![0, 3, 5]);
    assert_eq!(descriptor_entries(&entries, ".txt"), vec![1]);
}

#[test]
fn empty_directory_has_no_descriptors() {
    assert_eq!(descriptor_entries(&Vec::new(), ".json"), Vec::<usize>::new());
}

#[test]
fn empty_store_plans_no_window() {
    let store = WidgetHandler::new(Vec::new());
    assert!(store.widgets.is_empty());
    let plan = store.initialize_all_widgets().unwrap();
    assert_eq!(plan.windows.len(), 0);
    assert!(!plan.starts_media_poll);
    assert!(store.get_widget("media").is_none());
}

#[test]
fn horizontal_media_widget_gets_a_wide_window() {
    let mut w = media("player");
    w.property.orientation = Some(DefaultOrientation::Horizontal);
    w.property.position = Some((100, 200));
    let store = WidgetHandler::new(vec![w]);
    let plan = store.initialize_all_widgets().unwrap();
    assert!(plan.starts_media_poll);
    assert_eq!(plan.windows.len(), 1);
    let r = &plan.windows[0];
    assert_eq!(r.label, "player");
    assert_eq!(r.url, "/media?id=player");
    assert_eq!(r.inner_size, (640, 160));
    assert_eq!(r.position, Some((100, 200)));
    assert!(!r.decorations);
    assert!(r.transparent);
    assert!(r.skip_taskbar);
    assert!(r.always_on_bottom);
    assert!(!r.resizable);
}

#[test]
fn several_media_players_share_one_poll_loop() {
    let store = WidgetHandler::new(vec![media("a"), media("b"), media("c")]);
    let plan = store.initialize_all_widgets().unwrap();
    assert_eq!(plan.windows.len(), 3);
    assert!(plan.starts_media_poll);
}

#[test]
fn vertical_or_unset_orientation_gets_a_tall_window() {
    let mut w = media("a");
    w.property.orientation = Some(DefaultOrientation::Vertical);
    w.property.resizable = Some(true);
    let r = window_request(&w).unwrap();
    assert_eq!(r.inner_size, (320, 480));
    assert_eq!(r.position, None);
    assert!(r.resizable);
    let r = window_request(&media("b")).unwrap();
    assert_eq!(r.inner_size, (320, 480));
    assert_eq!(r.position, None);
    assert!(!r.resizable);
    let mut w = media("c");
    w.property.resizable = Some(false);
    assert!(!window_request(&w).unwrap().resizable);
}

#[test]
fn other_widget_types_have_no_window() {
    for t in [
        WidgetType::DefaultDateTime,
        WidgetType::DefaultWeather,
        WidgetType::DefaultAppLauncher,
        WidgetType::Custom,
    ] {
        assert!(window_request(&widget("w", t)).is_none());
    }
}

#[test]
fn plan_fails_at_the_first_widget_without_window() {
    let store = WidgetHandler::new(vec![
        media("a"),
        widget("b", WidgetType::DefaultWeather),
        media("c"),
        widget("d", WidgetType::Custom),
    ]);
    assert_eq!(
        store.initialize_all_widgets().unwrap_err(),
        WidgetError::NotImplemented { index: 1, widget_type: WidgetType::DefaultWeather }
    );
}

#[test]
fn plan_keeps_the_order_of_the_store() {
    let store = WidgetHandler::new(vec![media("x"), media("y"), media("z")]);
    let plan = store.initialize_all_widgets().unwrap();
    let labels: Vec<&str> = plan.windows.iter().map(|r| r.label.as_str()).collect();
    assert_eq!(labels, vec!["x", "y", "z"]);
    assert_eq!(plan.windows[2].url, "/media?id=z");
}

#[test]
fn lookup_finds_every_loaded_widget() {
    let loaded = vec![media("a"), widget("b", WidgetType::Custom), media("c")];
    let store = WidgetHandler::new(vec![media("a"), widget("b", WidgetType::Custom), media("c")]);
    for w in &loaded {
        let found = store.get_widget(&w.id).unwrap();
        assert!(same(&found, w));
    }
}

#[test]
fn lookup_of_unknown_id_is_absent() {
    let store = WidgetHandler::new(vec![media("a"), media("b")]);
    assert!(store.get_widget("c").is_none());
    assert!(store.get_widget("").is_none());
    assert!(store.get_widget("A").is_none());
    assert!(store.get_widget("a ").is_none());
}

#[test]
fn lookup_takes_the_first_of_equal_ids() {
    let mut second = media("a");
    second.description = "second".to_string();
    let store = WidgetHandler::new(vec![media("a"), second]);
    assert_eq!(store.get_widget("a").unwrap().description, "the a widget");
}

#[test]
fn lookup_copies_children_and_all() {
    let mut child = widget("child", WidgetType::Custom);
    child.children = Some(vec![widget("grandchild", WidgetType::DefaultDateTime)]);
    child.appearance.opacity = Some(Real32 { bits: 0x3f00_0000 });
    child.appearance.theme = Some(WidgetTheme::Dynamic);
    child.property.title = Some("Title".to_string());
    child.property.size = Some((3, 4));
    let mut parent = media("parent");
    parent.children = Some(vec![child, media("sibling")]);
    parent.appearance.background_color = Some("#fff".to_string());
    let copy = parent.clone();
    assert!(same(&copy, &parent));
    let store = WidgetHandler::new(vec![parent]);
    let found = store.get_widget("parent").unwrap();
    assert!(same(&found, &copy));
    assert_eq!(found.children.as_ref().unwrap()[0].children.as_ref().unwrap()[0].id, "grandchild");
    assert!(store.get_widget("child").is_none());
}

#[test]
fn widget_config_of_unknown_id_fails() {
    let store = WidgetHandler::new(vec![media("a")]);
    assert_eq!(get_widget_config(&store, "zzz").unwrap_err(), "widget not found");
    assert_eq!(get_widget_config(&store, "a").unwrap().id, "a");
}

#[test]
fn greeting() {
    assert_eq!(greet("Ada"), "Hello, Ada! You've been greeted from Rust!");
    assert_eq!(greet(""), "Hello, ! You've been greeted from Rust!");
}

#[test]
fn diagnostic_names_the_file() {
    assert_eq!(
        parse_failure_message("clock", "unknown variant `Sundial`"),
        "failed to parse config file: clock | Error: unknown variant `Sundial`"
    );
}

fn read(file: &str, widget: Widget) -> DescriptorFile {
    DescriptorFile { file: file.to_string(), parsed: Ok(widget) }
}

fn unread(file: &str, complaint: &str) -> DescriptorFile {
    DescriptorFile { file: file.to_string(), parsed: Err(complaint.to_string()) }
}

#[test]
fn loading_keeps_the_descriptors_in_order() {
    let store = WidgetHandler::load(vec![
        read("widgets/b.json", media("b")),
        read("widgets/a.json", widget("a", WidgetType::Custom)),
    ])
    .unwrap();
    assert_eq!(store.widgets.len(), 2);
    assert!(same(&store.widgets[0], &media("b")));
    assert!(same(&store.widgets[1], &widget("a", WidgetType::Custom)));
    assert_eq!(store.get_widget("a").unwrap().id, "a");
}

#[test]
fn loading_nothing_gives_an_empty_store() {
    let store = WidgetHandler::load(Vec::new()).unwrap();
    assert!(store.widgets.is_empty());
}

#[test]
fn one_bad_file_is_fatal_and_named() {
    let out = WidgetHandler::load(vec![
        read("widgets/good.json", media("good")),
        unread("widgets/bad.json", "unknown widget type `Sundial`"),
        read("widgets/other.json", media("other")),
        unread("widgets/worse.json", "expected value at line 1 column 1"),
    ]);
    assert_eq!(
        out.unwrap_err(),
        "failed to parse config file: widgets/bad.json | Error: unknown widget type `Sundial`"
    );
}

#[test]
fn diagnostics_of_two_files_differ() {
    let complaint = "expected value at line 1 column 1";
    let a = WidgetHandler::load(vec![unread("widgets/a.json", complaint)]).unwrap_err();
    let b = WidgetHandler::load(vec![unread("widgets/b.json", complaint)]).unwrap_err();
    assert_ne!(a, b);
    assert!(a.contains("widgets/a.json"));
    assert!(b.contains("widgets/b.json"));
}

#[test]
fn widget_type_names() {
    let all = [
        (WidgetType::DefaultDateTime, "DefaultDateTime"),
        (WidgetType::DefaultWeather, "DefaultWeather"),
        (WidgetType::DefaultMediaPlayerControls, "DefaultMediaPlayerControls"),
        (WidgetType::DefaultAppLauncher, "DefaultAppLauncher"),
        (WidgetType::Custom, "Custom"),
    ];
    for (t, name) in all {
        assert_eq!(t.name(), name);
        assert_eq!(WidgetType::from_name(name), Some(t));
        assert_eq!(WidgetType::from_name(&t.name()), Some(t));
    }
}

#[test]
fn unknown_widget_type_is_rejected() {
    assert_eq!(WidgetType::from_name("Sundial"), None);
    assert_eq!(WidgetType::from_name(""), None);
    assert_eq!(WidgetType::from_name("custom"), None);
    assert_eq!(WidgetType::from_name("DefaultDateTime "), None);
}

#[test]
fn orientation_and_theme_names() {
    assert_eq!(DefaultOrientation::Horizontal.name(), "Horizontal");
    assert_eq!(DefaultOrientation::Vertical.name(), "Vertical");
    assert_eq!(DefaultOrientation::from_name("Horizontal"), Some(DefaultOrientation::Horizontal));
    assert_eq!(DefaultOrientation::from_name("Vertical"), Some(DefaultOrientation::Vertical));
    assert_eq!(DefaultOrientation::from_name("Diagonal"), None);
    assert_eq!(WidgetTheme::Normal.name(), "Normal");
    assert_eq!(WidgetTheme::Dynamic.name(), "Dynamic");
    assert_eq!(WidgetTheme::from_name("Normal"), Some(WidgetTheme::Normal));
    assert_eq!(WidgetTheme::from_name("Dynamic"), Some(WidgetTheme::Dynamic));
    assert_eq!(WidgetTheme::from_name("Dark"), None);
}

fn config(title: &str) -> Config {
    Config {
        title: title.to_string(),
        widgettype: "clock".to_string(),
        hidden: false,
        appearance: Appearance {
            bgcolor: "#000".to_string(),
            border: 1,
            borderrad: 2,
            alignment: "left".to_string(),
            fontscale: Real32 { bits: 0x3f80_0000 },
        },
    }
}

#[test]
fn settings_are_kept_by_file_stem() {
    let manager = WidgetManager::new(vec![
        ("clock".to_string(), config("Clock")),
        ("weather".to_string(), config("Weather")),
    ]);
    assert_eq!(manager.widgets.get("clock").unwrap().title, "Clock");
    assert_eq!(manager.widgets.get("weather").unwrap().title, "Weather");
    assert!(manager.widgets.get("media").is_none());
    assert_eq!(manager.widgets.entries.len(), 2);
}

#[test]
fn no_settings_files_give_an_empty_map() {
    let manager = WidgetManager::new(Vec::new());
    assert!(manager.widgets.entries.is_empty());
    assert!(manager.widgets.get("clock").is_none());
}
