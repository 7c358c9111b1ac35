use file_browser::entries::make_entry;
use file_browser::Action;
use file_browser::ActiveFocus;
use file_browser::AppState;
use file_browser::Effect;
use file_browser::FsEntry;
use file_browser::FsPath;
use file_browser::PopupState;
use file_browser::PreviewState;
use file_browser::RawEntry;
use file_browser::Reducer;

fn path(parts: &[&str]) -> FsPath {
    FsPath { parts: parts.iter().map(|s| s.to_string()).collect() }
}

fn entry(dir: &FsPath, name: &str, is_dir: bool) -> FsEntry {
    make_entry(dir, RawEntry { name: name.to_string(), is_dir, size: 0, mode: 0o644 })
}

fn three_files() -> AppState {
    let dir = path(&["d"]);
    let entries = vec![
        entry(&dir, "sub", true),
        entry(&dir, "a.txt", false),
        entry(&dir, "b.txt", false),
    ];
    AppState::new(dir, entries)
}

#[test]
fn cursor_down_clamps_at_list_end() {
    let mut s = three_files();
    for _ in 0..5 {
        assert!(s.reduce(Action::CursorMoveDown).is_none());
    }
    assert_eq!(s.cursor, 2);
}

#[test]
fn cursor_up_clamps_at_zero() {
    let mut s = three_files();
    s.reduce(Action::CursorMoveDown);
    for _ in 0..4 {
        s.reduce(Action::CursorMoveUp);
    }
    assert_eq!(s.cursor, 0);
}

#[test]
fn cursor_moves_only_with_file_list_focus() {
    let mut s = three_files();
    s.reduce(Action::SwitchFocus);
    assert!(s.active_focus == ActiveFocus::Preview);
    s.reduce(Action::CursorMoveDown);
    assert_eq!(s.cursor, 0);
}

#[test]
fn enter_dir_on_a_file_changes_nothing() {
    let mut s = three_files();
    s.reduce(Action::CursorMoveDown);
    let r = s.reduce(Action::EnterDir);
    assert!(r.is_none());
    assert_eq!(s.cwd.parts, vec!["d".to_string()]);
    assert_eq!(s.entries.len(), 3);
    assert_eq!(s.cursor, 1);
}

#[test]
fn enter_dir_on_a_directory_requests_its_listing() {
    let mut s = three_files();
    match s.reduce(Action::EnterDir) {
        Some(Effect::LoadDir { path }) => {
            assert_eq!(path.parts, vec!["d".to_string(), "sub".to_string()]);
        }
        _ => panic!("expected a directory load"),
    }
    assert_eq!(s.cwd.parts, vec!["d".to_string()]);
}

#[test]
fn dir_loaded_replaces_navigation_and_resets_view() {
    let mut s = three_files();
    s.reduce(Action::CursorMoveDown);
    s.reduce(Action::RequestPreview(path(&["d", "a.txt"])));
    let new_dir = path(&["d", "sub"]);
    let new_entries = vec![entry(&new_dir, "inner", false)];
    s.reduce(Action::DirLoaded { path: new_dir, entries: new_entries });
    assert_eq!(s.cwd.parts, vec!["d".to_string(), "sub".to_string()]);
    assert_eq!(s.entries.len(), 1);
    assert_eq!(s.cursor, 0);
    assert!(matches!(s.preview, PreviewState::Empty));
    assert_eq!(s.preview_scroll, 0);
}

#[test]
fn go_back_asks_for_the_parent() {
    let mut s = three_files();
    match s.reduce(Action::GoBack) {
        Some(Effect::LoadDir { path }) => assert!(path.parts.is_empty()),
        _ => panic!("expected a directory load"),
    }
}

#[test]
fn go_back_at_root_is_a_noop() {
    let dir = path(&[]);
    let mut s = AppState::new(dir, Vec::new());
    assert!(s.reduce(Action::GoBack).is_none());
}

#[test]
fn toggle_select_twice_restores_the_selection() {
    let mut s = three_files();
    assert_eq!(s.selected.len(), 0);
    s.reduce(Action::ToggleSelect);
    assert_eq!(s.selected.len(), 1);
    assert_eq!(s.selected[0].parts, vec!["d".to_string(), "sub".to_string()]);
    s.reduce(Action::ToggleSelect);
    assert_eq!(s.selected.len(), 0);
}

#[test]
fn yank_captures_selection_then_falls_back_to_cursor() {
    let mut s = three_files();
    s.reduce(Action::ToggleSelect);
    s.reduce(Action::CursorMoveDown);
    s.reduce(Action::ToggleSelect);
    assert_eq!(s.selected.len(), 2);
    s.reduce(Action::Yank);
    let first = s.clipboard.clone().expect("clipboard set").1;
    assert_eq!(first.len(), 2);
    assert_eq!(s.selected.len(), 0);
    s.reduce(Action::Yank);
    let second = s.clipboard.clone().expect("clipboard set").1;
    assert_eq!(second.len(), 1);
    assert_eq!(second[0].parts, vec!["d".to_string(), "a.txt".to_string()]);
}

#[test]
fn yank_with_nothing_under_cursor_keeps_clipboard() {
    let mut s = AppState::new(path(&["d"]), Vec::new());
    s.reduce(Action::Yank);
    assert!(s.clipboard.is_none());
}

#[test]
fn paste_copies_each_source_under_the_current_directory() {
    let mut s = three_files();
    s.reduce(Action::CursorMoveDown);
    s.reduce(Action::Yank);
    match s.reduce(Action::Paste) {
        Some(Effect::CopyEntries { pairs }) => {
            assert_eq!(pairs.len(), 1);
            assert_eq!(pairs[0].0.parts, vec!["d".to_string(), "a.txt".to_string()]);
            assert_eq!(pairs[0].1.parts, vec!["d".to_string(), "a.txt".to_string()]);
        }
        _ => panic!("expected a copy request"),
    }
}

#[test]
fn paste_without_clipboard_is_a_noop() {
    let mut s = three_files();
    assert!(s.reduce(Action::Paste).is_none());
}

#[test]
fn delete_targets_cursor_and_clears_selection() {
    let mut s = three_files();
    s.reduce(Action::CursorMoveDown);
    match s.reduce(Action::Delete) {
        Some(Effect::DeleteEntries { paths }) => {
            assert_eq!(paths.len(), 1);
            assert_eq!(paths[0].parts, vec!["d".to_string(), "a.txt".to_string()]);
        }
        _ => panic!("expected a delete request"),
    }
    assert_eq!(s.selected.len(), 0);
}

#[test]
fn listing_reloaded_clamps_the_cursor() {
    let mut s = three_files();
    s.reduce(Action::CursorMoveDown);
    s.reduce(Action::CursorMoveDown);
    assert_eq!(s.cursor, 2);
    let dir = path(&["d"]);
    s.reduce(Action::ListingReloaded { entries: vec![entry(&dir, "only", false)] });
    assert_eq!(s.cursor, 0);
    s.reduce(Action::ListingReloaded { entries: Vec::new() });
    assert_eq!(s.cursor, 0);
}

#[test]
fn request_preview_enters_loading_and_resets_scroll() {
    let mut s = three_files();
    s.reduce(Action::SwitchFocus);
    s.reduce(Action::ScrollPreviewDown);
    assert_eq!(s.preview_scroll, 1);
    s.reduce(Action::RequestPreview(path(&["d", "a.txt"])));
    assert!(matches!(s.preview, PreviewState::Loading { .. }));
    assert_eq!(s.preview_scroll, 0);
}

#[test]
fn preview_error_is_reported_in_state() {
    let mut s = three_files();
    s.reduce(Action::PreviewError {
        path: path(&["d", "a.txt"]),
        error: "permission denied".to_string(),
    });
    match &s.preview {
        PreviewState::Error { message, .. } => assert_eq!(message, "permission denied"),
        _ => panic!("expected an error preview"),
    }
}

#[test]
fn scroll_saturates_at_zero_and_pages_by_ten() {
    let mut s = three_files();
    s.reduce(Action::SwitchFocus);
    s.reduce(Action::ScrollPreviewUp);
    assert_eq!(s.preview_scroll, 0);
    s.reduce(Action::ScrollPreviewPageDown);
    assert_eq!(s.preview_scroll, 10);
    s.reduce(Action::ScrollPreviewDown);
    assert_eq!(s.preview_scroll, 11);
    s.reduce(Action::ScrollPreviewPageUp);
    assert_eq!(s.preview_scroll, 1);
    s.reduce(Action::ScrollPreviewPageUp);
    assert_eq!(s.preview_scroll, 0);
}

#[test]
fn scroll_needs_preview_focus() {
    let mut s = three_files();
    s.reduce(Action::ScrollPreviewDown);
    assert_eq!(s.preview_scroll, 0);
}

#[test]
fn chmod_asks_for_the_mode_then_opens_the_editor() {
    let mut s = three_files();
    match s.reduce(Action::Chmod) {
        Some(Effect::QueryMode { path }) => {
            assert_eq!(path.parts, vec!["d".to_string(), "sub".to_string()]);
        }
        _ => panic!("expected a mode query"),
    }
    s.reduce(Action::ModeLoaded { path: path(&["d", "sub"]), mode: 0o644 });
    match &s.popup {
        PopupState::Chmod { mode, cursor_idx, .. } => {
            assert_eq!(*mode, 0o644);
            assert_eq!(*cursor_idx, 0);
        }
        _ => panic!("expected an open editor"),
    }
}

#[test]
fn permission_toggle_on_owner_write_is_involutive() {
    let mut s = three_files();
    s.reduce(Action::ModeLoaded { path: path(&["d", "sub"]), mode: 0o644 });
    s.reduce(Action::PopupRight);
    s.reduce(Action::PopupToggle);
    match &s.popup {
        PopupState::Chmod { mode, .. } => assert_eq!(*mode, 0o444),
        _ => panic!("expected an open editor"),
    }
    s.reduce(Action::PopupToggle);
    match &s.popup {
        PopupState::Chmod { mode, .. } => assert_eq!(*mode, 0o644),
        _ => panic!("expected an open editor"),
    }
}

#[test]
fn popup_cursor_stays_on_the_grid() {
    let mut s = three_files();
    s.reduce(Action::ModeLoaded { path: path(&["d", "sub"]), mode: 0o640 });
    s.reduce(Action::PopupUp);
    s.reduce(Action::PopupLeft);
    assert!(matches!(&s.popup, PopupState::Chmod { cursor_idx: 0, .. }));
    s.reduce(Action::PopupDown);
    s.reduce(Action::PopupDown);
    assert!(matches!(&s.popup, PopupState::Chmod { cursor_idx: 6, .. }));
    s.reduce(Action::PopupDown);
    assert!(matches!(&s.popup, PopupState::Chmod { cursor_idx: 6, .. }));
    s.reduce(Action::PopupRight);
    s.reduce(Action::PopupRight);
    s.reduce(Action::PopupRight);
    assert!(matches!(&s.popup, PopupState::Chmod { cursor_idx: 8, .. }));
}

#[test]
fn submit_applies_the_pending_mode_and_closes() {
    let mut s = three_files();
    s.reduce(Action::ModeLoaded { path: path(&["d", "sub"]), mode: 0o600 });
    s.reduce(Action::PopupToggle);
    match s.reduce(Action::PopupSubmit) {
        Some(Effect::ApplyMode { path, mode }) => {
            assert_eq!(path.parts, vec!["d".to_string(), "sub".to_string()]);
            assert_eq!(mode, 0o200);
        }
        _ => panic!("expected a mode application"),
    }
    assert!(matches!(s.popup, PopupState::Closed));
}

#[test]
fn cancel_discards_the_pending_mode() {
    let mut s = three_files();
    s.reduce(Action::ModeLoaded { path: path(&["d", "sub"]), mode: 0o600 });
    s.reduce(Action::PopupToggle);
    assert!(s.reduce(Action::PopupCancel).is_none());
    assert!(matches!(s.popup, PopupState::Closed));
}

#[test]
fn chmod_is_ignored_while_the_editor_is_open() {
    let mut s = three_files();
    s.reduce(Action::ModeLoaded { path: path(&["d", "sub"]), mode: 0o600 });
    assert!(s.reduce(Action::Chmod).is_none());
}

#[test]
fn open_hands_out_the_cursor_path() {
    let mut s = three_files();
    match s.reduce(Action::Open) {
        Some(Effect::OpenExternal { path }) => {
            assert_eq!(path.parts, vec!["d".to_string(), "sub".to_string()]);
        }
        _ => panic!("expected an external open"),
    }
}
