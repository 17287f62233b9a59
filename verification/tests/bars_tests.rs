use cokacdir::bars::{status_bar_fill, status_bar_texts};
use cokacdir::listing::FileItem;
use cokacdir::workspace::PanelState;

fn item(name: &str, is_directory: bool, size: u64) -> FileItem {
    FileItem { name: name.to_string(), is_directory, size, modified: 0, permissions: String::new() }
}

fn panel() -> PanelState {
    let mut p = PanelState::new("/w".to_string());
    p.load_files(true, vec![item("docs", true, 4096), item("a.bin", false, 1536), item("b.txt", false, 512)], 0);
    p
}

#[test]
fn the_status_line_names_the_entry_under_the_cursor() {
    let mut p = panel();
    assert_eq!(status_bar_texts(&p), (String::new(), "Total: 2.0 KB".to_string()));
    p.selected_index = 2;
    assert_eq!(status_bar_texts(&p), ("a.bin (1.5 KB)".to_string(), "Total: 2.0 KB".to_string()));
    p.selected_index = 1;
    assert_eq!(status_bar_texts(&p).0, "docs (4.0 KB)");
    p.selected_index = 99;
    assert_eq!(status_bar_texts(&p).0, "");
}

#[test]
fn the_status_line_counts_the_marks() {
    let mut p = panel();
    p.selected_index = 2;
    p.toggle_selection();
    p.toggle_selection();
    assert_eq!(status_bar_texts(&p).1, "2 selected, Total: 2.0 KB");
}

#[test]
fn the_size_of_all_files_stops_at_the_largest_number() {
    let mut p = PanelState::new("/w".to_string());
    p.load_files(false, vec![item("x", false, u64::MAX), item("y", false, 5)], 0);
    assert_eq!(status_bar_texts(&p).1, "Total: 17179869184.0 GB");
    let empty = PanelState::new("/".to_string());
    assert_eq!(status_bar_texts(&empty), (String::new(), "Total: 0 B".to_string()));
}

#[test]
fn the_blanks_fill_what_the_texts_leave() {
    assert_eq!(status_bar_fill(80, "a.bin (1.5 KB)", "Total: 2.0 KB"), 80 - 14 - 13 - 4);
    assert_eq!(status_bar_fill(31, "a.bin (1.5 KB)", "Total: 2.0 KB"), 0);
    assert_eq!(status_bar_fill(32, "a.bin (1.5 KB)", "Total: 2.0 KB"), 1);
    assert_eq!(status_bar_fill(10, "한글", ""), 0);
    assert_eq!(status_bar_fill(11, "한글", ""), 1);
    assert_eq!(status_bar_fill(0, "", ""), 0);
}
