use cokacdir::listing::FileItem;
use cokacdir::settings::{PanelSettings, ReloadOutcome, Settings, SettingsApplied};
use cokacdir::state::{DialogType, PanelSide, SettingsState, SortBy, SortOrder};
use cokacdir::workspace::App;

fn s(t: &str) -> String {
    t.to_string()
}

fn names(list: &[&str]) -> Vec<String> {
    list.iter().map(|n| n.to_string()).collect()
}

fn with_theme(theme: &str) -> Settings {
    let mut settings = Settings::default();
    settings.theme_name = s(theme);
    settings
}

#[test]
fn themes_on_offer_are_sorted_and_listed_once() {
    let files = names(&["solar.json", "dark.json", "notes.txt", ".json", "a.b.json", "UP.JSON", "zen.json", "solar.json"]);
    let state = SettingsState::new(&with_theme("solar"), &files);
    assert_eq!(state.themes, names(&["a.b", "dark", "light", "solar", "zen"]));
    assert_eq!(state.theme_index, 3);
    assert_eq!(state.current_theme(), "solar");
}

#[test]
fn without_files_the_two_themes_built_in_are_on_offer() {
    let state = SettingsState::new(&Settings::default(), &vec![]);
    assert_eq!(state.themes, names(&["dark", "light"]));
    assert_eq!(state.theme_index, 1);
    let state = SettingsState::new(&with_theme("gone"), &vec![]);
    assert_eq!(state.theme_index, 0);
    assert_eq!(state.current_theme(), "dark");
}

#[test]
fn the_workspace_is_set_up_as_the_settings_say() {
    let mut settings = Settings::default();
    settings.left_panel = PanelSettings { start_path: Some(s("/l")), sort_by: s("SIZE"), sort_order: s("desc") };
    settings.right_panel = PanelSettings { start_path: None, sort_by: s("unknown"), sort_order: s("up") };
    settings.active_panel = s("Right");
    let app = App::with_settings(settings.clone(), s("/l"), s("/home"));
    assert_eq!(app.left_panel.path, "/l");
    assert_eq!((app.left_panel.sort_by, app.left_panel.sort_order), (SortBy::Size, SortOrder::Desc));
    assert_eq!(app.right_panel.path, "/home");
    assert_eq!((app.right_panel.sort_by, app.right_panel.sort_order), (SortBy::Name, SortOrder::Asc));
    assert_eq!(app.active_panel, PanelSide::Right);
    assert_eq!(app.settings, settings);
    let mut other = Settings::default();
    other.active_panel = s("middle");
    assert_eq!(App::with_settings(other, s("/"), s("/")).active_panel, PanelSide::Left);
}

#[test]
fn saving_notes_where_the_workspace_stands() {
    let mut app = App::new(s("/a"), s("/b"));
    app.settings.tar_path = Some(s("/usr/bin/gtar"));
    app.settings.bookmarked_path = names(&["/x"]);
    app.toggle_sort_by_size();
    app.toggle_sort_by_size();
    app.switch_panel();
    app.save_settings();
    assert_eq!(
        app.settings.left_panel,
        PanelSettings { start_path: Some(s("/a")), sort_by: s("size"), sort_order: s("desc") }
    );
    assert_eq!(
        app.settings.right_panel,
        PanelSettings { start_path: Some(s("/b")), sort_by: s("name"), sort_order: s("asc") }
    );
    assert_eq!(app.settings.active_panel, "right");
    assert_eq!(app.settings.tar_path.as_deref(), Some("/usr/bin/gtar"));
    assert_eq!(app.settings.bookmarked_path, names(&["/x"]));
}

#[test]
fn settings_that_cannot_be_read_are_told() {
    let mut app = App::new(s("/a"), s("/b"));
    let outcome = app.reload_settings(Err(s("line 3: expected a comma")));
    assert_eq!(outcome, ReloadOutcome { ok: false, theme: None, reload_left: false, reload_right: false });
    assert_eq!(app.message.as_deref(), Some("Settings error: line 3: expected a comma"));
    assert_eq!(app.settings, Settings::default());
}

#[test]
fn settings_read_again_are_taken_over() {
    let mut app = App::new(s("/a"), s("/b"));
    app.settings.bookmarked_path = names(&["/keep"]);
    app.left_panel.load_files(false, vec![FileItem { name: s("f"), is_directory: false, size: 1, modified: 1, permissions: s("") }], 0);
    let mut new = with_theme("dark");
    new.left_panel.sort_by = s("modified");
    new.active_panel = s("right");
    new.tar_path = Some(s("/opt/tar"));
    new.bookmarked_path = names(&["/dropped"]);
    let outcome = app.reload_settings(Ok(new.clone()));
    assert_eq!(outcome, ReloadOutcome { ok: true, theme: Some(s("dark")), reload_left: true, reload_right: false });
    assert_eq!(app.left_panel.sort_by, SortBy::Modified);
    assert_eq!(app.left_panel.files.len(), 1);
    assert_eq!(app.active_panel, PanelSide::Left);
    assert_eq!(app.settings.active_panel, "right");
    assert_eq!(app.settings.theme_name, "dark");
    assert_eq!(app.settings.tar_path.as_deref(), Some("/opt/tar"));
    assert_eq!(app.settings.bookmarked_path, names(&["/keep"]));
    assert_eq!(app.message.as_deref(), Some("Settings reloaded"));
    let again = app.reload_settings(Ok(new));
    assert_eq!(again, ReloadOutcome { ok: true, theme: None, reload_left: false, reload_right: false });
}

#[test]
fn the_settings_file_is_known_by_its_path() {
    assert!(App::is_settings_file("/h/.cokacdir/settings.json", Some("/h/.cokacdir/settings.json")));
    assert!(!App::is_settings_file("/h/.cokacdir/other.json", Some("/h/.cokacdir/settings.json")));
    assert!(!App::is_settings_file("/h/.cokacdir/settings.json", None));
}

#[test]
fn a_theme_is_chosen_in_the_dialog() {
    let mut app = App::new(s("/a"), s("/b"));
    app.show_settings_dialog(&names(&["solar.json"]));
    assert_eq!(app.dialog.as_ref().unwrap().dialog_type, DialogType::Settings);
    let state = app.settings_state.as_mut().unwrap();
    assert_eq!(state.themes, names(&["dark", "light", "solar"]));
    assert_eq!(state.theme_index, 1);
    state.next_theme();
    let applied = app.apply_settings_from_dialog();
    assert_eq!(applied, SettingsApplied { save: true, theme: Some(s("solar")) });
    assert_eq!(app.settings.theme_name, "solar");
    assert_eq!(app.message.as_deref(), Some("Settings saved!"));
    assert!(app.dialog.is_none());
    assert!(app.settings_state.is_none());
}

#[test]
fn the_same_theme_is_saved_but_not_loaded() {
    let mut app = App::new(s("/a"), s("/b"));
    app.show_settings_dialog(&vec![]);
    assert_eq!(app.apply_settings_from_dialog(), SettingsApplied { save: true, theme: None });
    assert_eq!(app.apply_settings_from_dialog(), SettingsApplied { save: false, theme: None });
}

#[test]
fn the_dialog_can_be_left_without_a_choice() {
    let mut app = App::new(s("/a"), s("/b"));
    app.show_settings_dialog(&names(&["solar.json"]));
    app.settings_state.as_mut().unwrap().next_theme();
    app.cancel_settings_dialog();
    assert_eq!(app.settings.theme_name, "light");
    assert!(app.dialog.is_none());
    assert!(app.settings_state.is_none());
    assert!(app.message.is_none());
}

#[test]
fn a_bookmark_is_set_and_taken_away() {
    let mut app = App::new(s("/a"), s("/b"));
    app.toggle_bookmark();
    assert_eq!(app.settings.bookmarked_path, names(&["/a"]));
    assert_eq!(app.message.as_deref(), Some("Bookmark added: /a"));
    app.switch_panel();
    app.toggle_bookmark();
    assert_eq!(app.settings.bookmarked_path, names(&["/a", "/b"]));
    app.switch_panel();
    app.toggle_bookmark();
    assert_eq!(app.settings.bookmarked_path, names(&["/b"]));
    assert_eq!(app.message.as_deref(), Some("Bookmark removed: /a"));
}
