use swarmfs_tui::app::TabHitbox;
use swarmfs_tui::config::{hex_head16, ipc_endpoint, stable_hash16, windows_hash_path_string};
use swarmfs_tui::file_picker::PickerAction;
use swarmfs_tui::tabs::{
    global_keybind, top_row_char_to_number, BrowseTab, DownloadsTab, LogsTab, TabId, UiCommand,
};
use swarmfs_tui::ui::{tab_at_cell, tab_hitboxes, tab_label};
use swarmfs_tui::widgets::{
    compute_scrollbar_metrics, contains, handle_scrollbar_down, handle_scrollbar_drag,
    hit_test_table_index, hit_test_table_row, nav_next_index, nav_page_delta, Button, Rect,
    ScrollbarDownResult,
};

fn rect(x: u16, y: u16, width: u16, height: u16) -> Rect {
    Rect { x, y, width, height }
}

#[test]
fn contains_is_half_open() {
    let r = rect(2, 3, 4, 2);
    assert!(contains(r, 2, 3));
    assert!(contains(r, 5, 4));
    assert!(!contains(r, 6, 3));
    assert!(!contains(r, 2, 5));
    assert!(!contains(r, 1, 3));
    assert!(!contains(rect(2, 3, 0, 2), 2, 3));
    let edge = rect(u16::MAX - 1, 0, 10, 1);
    assert!(contains(edge, u16::MAX - 1, 0));
    assert!(!contains(edge, u16::MAX, 0));
}

#[test]
fn table_hit_test_skips_border_and_header() {
    let table = rect(10, 5, 20, 8);
    // The content begins at (11, 6); its first row is the header.
    assert_eq!(hit_test_table_row(table, 1, 11, 6), None);
    assert_eq!(hit_test_table_row(table, 1, 11, 7), Some(0));
    assert_eq!(hit_test_table_row(table, 1, 28, 11), Some(4));
    assert_eq!(hit_test_table_row(table, 0, 11, 6), Some(0));
    assert_eq!(hit_test_table_row(table, 1, 10, 7), None);
    assert_eq!(hit_test_table_row(table, 1, 29, 7), None);
    assert_eq!(hit_test_table_row(table, 1, 11, 12), None);
    assert_eq!(hit_test_table_row(rect(0, 0, 2, 8), 1, 1, 2), None);
    assert_eq!(hit_test_table_row(rect(0, 0, 1, 1), 0, 0, 0), None);

    assert_eq!(hit_test_table_index(table, 1, 11, 7, 3, 10), Some(3));
    assert_eq!(hit_test_table_index(table, 1, 11, 9, 3, 10), Some(5));
    assert_eq!(hit_test_table_index(table, 1, 11, 9, 3, 5), None);
    assert_eq!(hit_test_table_index(table, 1, 11, 9, usize::MAX, usize::MAX), None);
    assert_eq!(hit_test_table_index(table, 1, 11, 6, 0, 10), None);
}

#[test]
fn navigation_stops_at_the_ends() {
    assert_eq!(nav_next_index(None, 0, 1), None);
    assert_eq!(nav_next_index(Some(3), 0, -1), None);
    assert_eq!(nav_next_index(None, 5, 1), Some(1));
    assert_eq!(nav_next_index(None, 5, -1), Some(0));
    assert_eq!(nav_next_index(Some(2), 5, 1), Some(3));
    assert_eq!(nav_next_index(Some(2), 5, -2), Some(0));
    assert_eq!(nav_next_index(Some(2), 5, 10), Some(4));
    assert_eq!(nav_next_index(Some(2), 5, -10), Some(0));
    assert_eq!(nav_next_index(Some(9), 5, 0), Some(4));
    assert_eq!(nav_next_index(Some(9), 5, -1), Some(3));
    assert_eq!(nav_next_index(Some(1), 5, isize::MAX), Some(4));
    assert_eq!(nav_next_index(Some(1), 5, isize::MIN), Some(0));
    assert_eq!(nav_page_delta(10, true), 10);
    assert_eq!(nav_page_delta(10, false), -10);
    assert_eq!(nav_page_delta(0, true), 1);
    assert_eq!(nav_page_delta(0, false), -1);
    assert_eq!(nav_page_delta(usize::MAX, false), -isize::MAX);
}

#[test]
fn scrollbar_metrics_of_a_long_table() {
    // Outer 12 rows: 10 inside the border, 1 of them header, 9 for items.
    let table = rect(0, 0, 30, 12);
    assert!(compute_scrollbar_metrics(table, 1, 9, 0).is_none());
    assert!(compute_scrollbar_metrics(rect(0, 0, 30, 2), 1, 100, 0).is_none());
    let m = compute_scrollbar_metrics(table, 1, 27, 0).unwrap();
    assert_eq!(m.scrollbar_area, rect(1, 2, 28, 9));
    assert_eq!(m.scrollbar_col, rect(28, 2, 1, 9));
    assert_eq!((m.track_rows, m.viewport_rows, m.max_off), (9, 9, 18));
    assert_eq!((m.thumb_height, m.denom, m.thumb_top), (3, 6, 0));
    assert_eq!(compute_scrollbar_metrics(table, 1, 27, 9).unwrap().thumb_top, 3);
    assert_eq!(compute_scrollbar_metrics(table, 1, 27, 18).unwrap().thumb_top, 6);
    assert_eq!(compute_scrollbar_metrics(table, 1, 27, 500).unwrap().thumb_top, 6);
    // A very long list still has a thumb of one cell.
    let m = compute_scrollbar_metrics(table, 1, 100_000, 50_000).unwrap();
    assert_eq!((m.thumb_height, m.denom), (1, 8));
    assert_eq!(m.thumb_top, 4);
    // A header as high as the table leaves one row to scroll in.
    let m = compute_scrollbar_metrics(table, 10, 5, 0).unwrap();
    assert_eq!((m.viewport_rows, m.track_rows, m.scrollbar_area.height), (1, 1, 0));
}

#[test]
fn scrollbar_press_grabs_or_jumps() {
    let table = rect(0, 0, 30, 12);
    let m = compute_scrollbar_metrics(table, 1, 27, 9).unwrap();
    // The thumb covers the cells 3, 4, 5 of the track, which begins at row 2.
    assert_eq!(handle_scrollbar_down(m, 5), ScrollbarDownResult::StartDrag { grab: 0 });
    assert_eq!(handle_scrollbar_down(m, 7), ScrollbarDownResult::StartDrag { grab: 2 });
    assert_eq!(handle_scrollbar_down(m, 2), ScrollbarDownResult::JumpTo { offset: 0 });
    assert_eq!(handle_scrollbar_down(m, 8), ScrollbarDownResult::JumpTo { offset: 15 });
    assert_eq!(handle_scrollbar_down(m, 10), ScrollbarDownResult::JumpTo { offset: 18 });
    assert_eq!(handle_scrollbar_down(m, 0), ScrollbarDownResult::JumpTo { offset: 0 });
    assert_eq!(handle_scrollbar_drag(m, 0, 2), 0);
    assert_eq!(handle_scrollbar_drag(m, 0, 4), 6);
    assert_eq!(handle_scrollbar_drag(m, 1, 4), 3);
    assert_eq!(handle_scrollbar_drag(m, 1, 200), 18);
    assert_eq!(handle_scrollbar_drag(m, 5, 0), 0);
}

#[test]
fn tab_ids_numbers_and_titles() {
    let tabs = TabId::all();
    let titles: Vec<&str> = tabs.iter().map(|t| t.title()).collect();
    assert_eq!(titles, vec!["Network", "Browse", "Downloads", "Files", "Logs"]);
    for (i, tab) in tabs.iter().enumerate() {
        assert_eq!(tab.number(), i + 1);
        assert_eq!(TabId::from_number(i + 1), Some(*tab));
    }
    assert_eq!(TabId::from_number(0), None);
    assert_eq!(TabId::from_number(6), None);
    assert_eq!(tab_label(TabId::Downloads), "3 Downloads");
}

#[test]
fn top_row_characters_by_layout() {
    for (chars, n) in [
        ("1&!", 1),
        ("2\u{e9}@", 2),
        ("3\"#", 3),
        ("4'$", 4),
        ("5(%", 5),
        ("6-^", 6),
        ("7\u{e8}", 7),
        ("8_*", 8),
        ("9\u{e7}", 9),
        ("0\u{e0})", 10),
    ] {
        for c in chars.chars() {
            assert_eq!(top_row_char_to_number(c), Some(n));
        }
    }
    assert_eq!(top_row_char_to_number('a'), None);
    assert_eq!(top_row_char_to_number(' '), None);
}

#[test]
fn global_keys_quit_and_switch_tabs() {
    assert_eq!(global_keybind(Some('q')), UiCommand::Quit);
    assert_eq!(global_keybind(Some('1')), UiCommand::SwitchTab(TabId::Network));
    assert_eq!(global_keybind(Some('&')), UiCommand::SwitchTab(TabId::Network));
    assert_eq!(global_keybind(Some('%')), UiCommand::SwitchTab(TabId::Logs));
    assert_eq!(global_keybind(Some('6')), UiCommand::Nothing);
    assert_eq!(global_keybind(Some('0')), UiCommand::Nothing);
    assert_eq!(global_keybind(Some('x')), UiCommand::Nothing);
    assert_eq!(global_keybind(None), UiCommand::Nothing);
}

#[test]
fn tab_bar_boxes_follow_the_labels() {
    let boxes = tab_hitboxes(2, 0);
    let seen: Vec<(TabId, u16, u16)> = boxes.iter().map(|b| (b.tab, b.x0, b.x1)).collect();
    assert_eq!(
        seen,
        vec![
            (TabId::Network, 2, 11),
            (TabId::Browse, 14, 22),
            (TabId::Downloads, 25, 36),
            (TabId::Files, 39, 46),
            (TabId::Logs, 49, 55),
        ]
    );
    assert!(boxes.iter().all(|b| b.y0 == 0 && b.y1 == 1));
    for b in &boxes {
        assert_eq!((b.x1 - b.x0) as usize, tab_label(b.tab).chars().count());
    }
    assert_eq!(tab_at_cell(&boxes, 2, 0), Some(TabId::Network));
    assert_eq!(tab_at_cell(&boxes, 11, 0), None);
    assert_eq!(tab_at_cell(&boxes, 54, 0), Some(TabId::Logs));
    assert_eq!(tab_at_cell(&boxes, 55, 0), None);
    assert_eq!(tab_at_cell(&boxes, 14, 1), None);
    let overlapping = vec![
        TabHitbox { tab: TabId::Files, x0: 0, x1: 5, y0: 0, y1: 1 },
        TabHitbox { tab: TabId::Logs, x0: 0, x1: 9, y0: 0, y1: 1 },
    ];
    assert_eq!(tab_at_cell(&overlapping, 3, 0), Some(TabId::Files));
    assert_eq!(tab_at_cell(&overlapping, 7, 0), Some(TabId::Logs));
}

#[test]
fn logs_tab_scrolls_within_the_log() {
    let mut tab = LogsTab::new();
    assert_eq!(tab.scroll, 0);
    assert_eq!(LogsTab::max_scroll(0), 0);
    assert_eq!(LogsTab::max_scroll(1), 0);
    assert_eq!(LogsTab::max_scroll(10), 9);
    assert_eq!(LogsTab::max_scroll(1_000_000), u16::MAX);
    tab.scroll_down(3, 10);
    assert_eq!(tab.scroll, 3);
    tab.scroll_down(10, 10);
    assert_eq!(tab.scroll, 9);
    tab.scroll_up(4);
    assert_eq!(tab.scroll, 5);
    tab.scroll_up(10);
    assert_eq!(tab.scroll, 0);
    tab.to_bottom(4);
    assert_eq!(tab.scroll, 3);
    tab.to_top();
    assert_eq!(tab.scroll, 0);
    tab.scroll = u16::MAX;
    tab.scroll_down(1, 1_000_000);
    assert_eq!(tab.scroll, u16::MAX);
}

#[test]
fn small_items() {
    let button = Button::new("Refresh");
    assert_eq!(button.label, "Refresh");
    assert!(button.enabled);
    let _ = BrowseTab::new();
    let _ = DownloadsTab::new();
    assert_ne!(PickerAction::Confirm, PickerAction::Cancel);
    assert_ne!(PickerAction::Nothing, PickerAction::Confirm);
}

#[test]
fn hash_is_the_head_of_the_sha256_hex_digest() {
    assert_eq!(stable_hash16("abc"), "ba7816bf8f01cfea");
    assert_eq!(stable_hash16(""), "e3b0c44298fc1c14");
    assert_ne!(stable_hash16("C:\\data"), stable_hash16("c:\\data"));
    let bytes = vec![0x00, 0x0f, 0xa0, 0xff, 0x10, 0x7b, 0x9c, 0x01, 0xee];
    assert_eq!(hex_head16(&bytes), "000fa0ff107b9c01");
}

#[test]
fn endpoint_by_platform() {
    assert_eq!(ipc_endpoint("/var/lib/swarmfs", false), "/var/lib/swarmfs/swarmfs.sock");
    assert_eq!(ipc_endpoint("/var/lib/swarmfs/", false), "/var/lib/swarmfs/swarmfs.sock");
    assert_eq!(ipc_endpoint("", false), "swarmfs.sock");
    assert_eq!(ipc_endpoint("abc", true), "\\\\.\\pipe\\swarmfs-ba7816bf8f01cfea");
    assert_eq!(windows_hash_path_string("\\\\?\\C:\\data"), "C:\\data");
    assert_eq!(windows_hash_path_string("C:\\data"), "C:\\data");
    assert_eq!(windows_hash_path_string("\\\\?\\"), "");
}
