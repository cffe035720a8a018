use serde_json::Value;
use swarmfs_tui::config::data_dir_setting;
use swarmfs_tui::file_picker::{FilePicker, Focus, PickerItem};
use swarmfs_tui::ipc::{subscribe_call, subscribe_line};

fn json(text: &str) -> Value {
    serde_json::from_str(text).unwrap()
}

fn item(label: &str, is_dir: bool) -> PickerItem {
    PickerItem {
        path: format!("/home/u/{}", label.trim_end_matches('/')),
        label: label.to_string(),
        is_dir,
        size: if is_dir { None } else { Some(3) },
    }
}

fn listing() -> Vec<PickerItem> {
    vec![
        item("notes.txt", false),
        item("Docs/", true),
        item("download.txt", false),
        item("archive.zip", false),
    ]
}

fn shown(picker: &FilePicker) -> Vec<String> {
    picker.visible().iter().map(|v| picker.items()[v.item_idx].label.clone()).collect()
}

#[test]
fn picker_opens_on_a_listing() {
    let mut picker = FilePicker::new(".".to_string());
    assert!(!picker.is_open());
    assert_eq!(picker.highlighted(), Some(0));
    assert_eq!(picker.current_path(), None);
    picker.open("/home/u".to_string(), listing());
    assert!(picker.is_open());
    assert_eq!(picker.focus(), Focus::Search);
    assert_eq!(picker.cwd(), "/home/u");
    assert_eq!(picker.query(), "");
    assert_eq!(shown(&picker), vec!["archive.zip", "Docs/", "download.txt", "notes.txt"]);
    assert_eq!(picker.highlighted(), Some(0));
    assert_eq!(picker.current_path().as_deref(), Some("/home/u/archive.zip"));
    assert_eq!(picker.selected_count(), 0);
    picker.close();
    assert!(!picker.is_open());
    picker.open("/empty".to_string(), Vec::new());
    assert_eq!(picker.highlighted(), None);
    assert!(picker.current_item().is_none());
}

#[test]
fn picker_query_filters_and_keeps_the_highlight_in_range() {
    let mut picker = FilePicker::new(".".to_string());
    picker.open("/home/u".to_string(), listing());
    picker.set_highlight(Some(3));
    picker.set_query(" do ".to_string());
    assert_eq!(picker.query(), " do ");
    // "Docs/" and "download.txt" both start with the query; "Docs/" comes first.
    assert_eq!(shown(&picker), vec!["Docs/", "download.txt"]);
    assert_eq!(picker.visible()[1].match_indices, vec![0, 1]);
    assert_eq!(picker.highlighted(), Some(1));
    picker.set_query("zzz".to_string());
    assert!(picker.visible().is_empty());
    assert_eq!(picker.highlighted(), None);
    picker.set_query(String::new());
    assert_eq!(picker.visible().len(), 4);
    assert_eq!(picker.highlighted(), None);
}

#[test]
fn picker_moves_and_selects() {
    let mut picker = FilePicker::new(".".to_string());
    picker.open("/home/u".to_string(), listing());
    picker.move_selection(1);
    assert_eq!(picker.highlighted(), Some(1));
    picker.move_selection(10);
    assert_eq!(picker.highlighted(), Some(3));
    picker.move_selection(-1);
    assert_eq!(picker.highlighted(), Some(2));
    picker.move_selection(i32::MIN);
    assert_eq!(picker.highlighted(), Some(0));
    picker.move_selection(i32::MAX);
    assert_eq!(picker.highlighted(), Some(3));

    picker.set_focus(Focus::Table);
    assert_eq!(picker.focus(), Focus::Table);
    picker.set_highlight(Some(1));
    picker.toggle_selected_current();
    assert_eq!(picker.selected_paths(), vec!["/home/u/Docs"]);
    // From the anchor at row 1 to row 3, over the rows as they are shown.
    picker.select_range_to(3);
    assert_eq!(picker.highlighted(), Some(3));
    assert_eq!(
        picker.selected_paths(),
        vec!["/home/u/Docs", "/home/u/download.txt", "/home/u/notes.txt"]
    );
    assert_eq!(picker.selected_count(), 3);
    assert!(picker.selection().is_selected("/home/u/notes.txt"));
    picker.set_highlight(Some(1));
    picker.toggle_selected_current();
    assert_eq!(picker.selected_count(), 2);
    picker.set_highlight(Some(9));
    picker.toggle_selected_current();
    assert_eq!(picker.selected_count(), 2);
}

#[test]
fn picker_reload_keeps_query_and_selection() {
    let mut picker = FilePicker::new(".".to_string());
    picker.open("/home/u".to_string(), listing());
    picker.set_query("t".to_string());
    picker.set_highlight(Some(1));
    picker.toggle_selected_current();
    let before = picker.selected_paths();
    picker.reload_items("/home/u/Docs".to_string(), vec![item("b.txt", false), item("a.md", false)]);
    assert_eq!(picker.cwd(), "/home/u/Docs");
    assert_eq!(picker.query(), "t");
    assert_eq!(shown(&picker), vec!["b.txt"]);
    assert_eq!(picker.highlighted(), Some(0));
    assert_eq!(picker.selected_paths(), before);
    picker.reload_items("/nothing".to_string(), Vec::new());
    assert_eq!(picker.highlighted(), None);
    picker.move_selection(1);
    assert_eq!(picker.highlighted(), None);
}

#[test]
fn subscription_is_request_one() {
    let channels = vec!["log".to_string(), "network".to_string(), "state".to_string()];
    let call = subscribe_call(&channels);
    assert_eq!(call.method, "events.subscribe");
    assert_eq!(call.params, json(r#"{"channels":["log","network","state"]}"#));
    let line = subscribe_line(&channels).unwrap();
    assert!(line.ends_with('\n'));
    assert_eq!(
        json(line.trim_end()),
        json(
            r#"{"id":"1","type":"req","method":"events.subscribe",
                "params":{"channels":["log","network","state"]}}"#
        )
    );
}

#[test]
fn data_dir_comes_from_the_configuration_or_the_default() {
    assert_eq!(data_dir_setting(&json(r#"{"dataDir":"/srv/swarm"}"#)), "/srv/swarm");
    assert_eq!(data_dir_setting(&json(r#"{"dataDir":5}"#)), "./swarmfs-data");
    assert_eq!(data_dir_setting(&json("{}")), "./swarmfs-data");
    assert_eq!(data_dir_setting(&Value::Null), "./swarmfs-data");
}
