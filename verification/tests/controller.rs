use vecile::controller::{App, Effect};
use vecile::listing::ChildEntry;

fn child(name: &str, is_dir: bool, size: u64) -> ChildEntry {
    ChildEntry { name: name.to_string(), is_dir, size }
}

/// A browser at root "./" over a subdirectory "docs" and a file
/// "a.txt" of 50 bytes, as the host would build it at startup.
fn demo_app() -> App {
    App::new(
        "vecile",
        "./".to_string(),
        vec![child("docs", true, 50), child("a.txt", false, 50)],
    )
}

#[test]
fn starts_browsing_at_root() {
    let app = demo_app();
    assert!(!app.should_quit);
    assert!(!app.popup.visible);
    assert_eq!(app.path, "./");
    assert_eq!(app.files.state.selected, 0);
    assert_eq!(app.files.files.len(), 2);
}

#[test]
fn enter_on_file_is_noop() {
    let mut app = demo_app();
    app.on_down();
    assert_eq!(app.files.files[app.files.state.selected].name, "a.txt");
    let effect = app.on_enter();
    assert!(matches!(effect, Effect::Idle));
    assert_eq!(app.path, "./");
    assert_eq!(app.files.state.selected, 1);
    assert!(!app.popup.visible);
    assert!(!app.should_quit);
}

#[test]
fn esc_at_root_is_noop() {
    let mut app = demo_app();
    let effect = app.on_esc();
    assert!(matches!(effect, Effect::Idle));
    assert_eq!(app.path, "./");
    assert_eq!(app.files.files.len(), 2);
}

#[test]
fn navigate_into_and_back_up() {
    let mut app = demo_app();
    assert_eq!(app.files.files[app.files.state.selected].name, "docs/");

    let effect = app.on_enter();
    let target = match effect {
        Effect::ReadDir { path } => path,
        _ => panic!("expected a directory read"),
    };
    assert_eq!(target, "./docs/");
    // the path only changes once the host commits the new listing
    assert_eq!(app.path, "./");

    app.apply_listing(target, vec![child("b.txt", false, 7)]);
    assert_eq!(app.path, "./docs/");
    assert_eq!(app.files.files.len(), 1);
    assert_eq!(app.files.files[0].name, "b.txt");
    assert_eq!(app.files.files[0].path, "./docs/b.txt");

    let effect = app.on_esc();
    let target = match effect {
        Effect::ReadDir { path } => path,
        _ => panic!("expected a directory read"),
    };
    assert_eq!(target, "./");

    app.apply_listing(target, vec![child("docs", true, 50), child("a.txt", false, 50)]);
    assert_eq!(app.path, "./");
    assert_eq!(app.files.state.selected, 0);
    let names: Vec<&str> = app.files.files.iter().map(|f| f.name.as_str()).collect();
    assert_eq!(names, vec!["docs/", "a.txt"]);
}

#[test]
fn failed_navigation_leaves_state_alone() {
    let mut app = demo_app();
    let effect = app.on_enter();
    assert!(matches!(effect, Effect::ReadDir { .. }));
    // the host could not enumerate the target and commits nothing
    assert_eq!(app.path, "./");
    assert_eq!(app.files.files.len(), 2);
}

#[test]
fn delete_flow_confirmed() {
    let mut app = demo_app();
    app.on_down();
    assert_eq!(app.files.files[app.files.state.selected].name, "a.txt");

    app.on_key('d');
    assert!(app.popup.visible);
    assert_eq!(app.popup.state.selected, 0, "choice starts on cancel");

    app.on_down();
    assert_eq!(app.popup.state.selected, 1, "choice moved to delete");

    let effect = app.on_enter();
    assert!(!app.popup.visible, "overlay closes regardless of outcome");
    let (path, is_dir) = match effect {
        Effect::DeleteEntry { path, is_dir } => (path, is_dir),
        _ => panic!("expected a delete request"),
    };
    assert_eq!(path, "./a.txt");
    assert!(!is_dir);

    // the host deletes the file and re-enumerates the current directory
    app.apply_listing("./".to_string(), vec![child("docs", true, 50)]);
    assert_eq!(app.files.files.len(), 1);
    assert!(app.files.files.iter().all(|f| f.name != "a.txt"));
}

#[test]
fn delete_flow_cancelled() {
    let mut app = demo_app();
    app.on_key('d');
    assert!(app.popup.visible);
    let effect = app.on_enter();
    assert!(matches!(effect, Effect::Idle));
    assert!(!app.popup.visible);
    assert_eq!(app.files.files.len(), 2);
}

#[test]
fn delete_choice_toggles_both_ways() {
    let mut app = demo_app();
    app.on_key('d');
    assert_eq!(app.popup.state.selected, 0);
    app.on_up();
    assert_eq!(app.popup.state.selected, 1);
    app.on_up();
    assert_eq!(app.popup.state.selected, 0);
    app.on_down();
    assert_eq!(app.popup.state.selected, 1);
    app.on_down();
    assert_eq!(app.popup.state.selected, 0);
}

#[test]
fn rename_flow() {
    let mut app = demo_app();
    app.on_down();
    assert_eq!(app.files.files[app.files.state.selected].name, "a.txt");

    app.on_key('r');
    assert!(app.popup.visible);
    assert_eq!(app.popup.input, "", "buffer starts empty");

    for c in ['b', '.', 't', 'x', 't'] {
        app.on_key(c);
    }
    assert_eq!(app.popup.input, "b.txt");

    let effect = app.on_enter();
    let (from, to) = match effect {
        Effect::RenameEntry { from, to } => (from, to),
        _ => panic!("expected a rename request"),
    };
    assert_eq!(from, "./a.txt");
    assert_eq!(to, "./b.txt");
    assert!(app.popup.visible, "dialog stays until the host reports success");

    // the host renamed the entry on the filesystem
    app.apply_rename();
    assert!(!app.popup.visible);
    let names: Vec<&str> = app.files.files.iter().map(|f| f.name.as_str()).collect();
    assert_eq!(names, vec!["docs/", "b.txt"]);
    assert_eq!(app.files.files[1].path, "./b.txt");
    assert!(!app.files.files[1].is_dir);
    assert_eq!(app.files.files[1].size, 50);
}

#[test]
fn rename_directory_keeps_separator() {
    let mut app = demo_app();
    assert_eq!(app.files.files[app.files.state.selected].name, "docs/");
    app.on_key('r');
    for c in ['n', 'o', 't', 'e', 's'] {
        app.on_key(c);
    }
    let effect = app.on_enter();
    let (from, to) = match effect {
        Effect::RenameEntry { from, to } => (from, to),
        _ => panic!("expected a rename request"),
    };
    assert_eq!(from, "./docs");
    assert_eq!(to, "./notes");
    app.apply_rename();
    assert_eq!(app.files.files[0].name, "notes/");
    assert_eq!(app.files.files[0].path, "./notes");
    assert!(app.files.files[0].is_dir);
}

#[test]
fn failed_rename_keeps_dialog_and_buffer() {
    let mut app = demo_app();
    app.on_down();
    app.on_key('r');
    for c in ['x', 'y'] {
        app.on_key(c);
    }
    let effect = app.on_enter();
    assert!(matches!(effect, Effect::RenameEntry { .. }));
    // the host's rename failed and it commits nothing
    assert!(app.popup.visible);
    assert_eq!(app.popup.input, "xy");
    assert_eq!(app.files.files[1].name, "a.txt");
}

#[test]
fn backspace_edits_rename_buffer() {
    let mut app = demo_app();
    app.on_key('r');
    app.on_backspace();
    assert_eq!(app.popup.input, "", "backspace on an empty buffer is a no-op");
    app.on_key('a');
    app.on_key('b');
    app.on_backspace();
    assert_eq!(app.popup.input, "a");
}

#[test]
fn backspace_outside_rename_is_noop() {
    let mut app = demo_app();
    app.on_backspace();
    assert!(!app.popup.visible);
    app.on_key('d');
    app.on_backspace();
    assert!(app.popup.visible);
    assert_eq!(app.popup.input, "");
}

#[test]
fn esc_cancels_overlay_and_discards_buffer() {
    let mut app = demo_app();
    app.on_key('r');
    app.on_key('z');
    let effect = app.on_esc();
    assert!(matches!(effect, Effect::Idle));
    assert!(!app.popup.visible);
    assert_eq!(app.path, "./");
}

#[test]
fn quit_only_while_browsing() {
    let mut app = demo_app();

    app.on_key('d');
    app.on_key('q');
    assert!(!app.should_quit, "quit is suppressed under the delete dialog");
    app.on_esc();

    app.on_key('r');
    app.on_key('q');
    assert!(!app.should_quit, "quit is suppressed under the rename dialog");
    assert_eq!(app.popup.input, "q", "the character goes into the buffer instead");
    app.on_esc();

    app.on_key('q');
    assert!(app.should_quit);
}

#[test]
fn overlays_need_a_selection() {
    let mut app = App::new("vecile", "./".to_string(), vec![]);
    app.on_key('d');
    assert!(!app.popup.visible);
    app.on_key('r');
    assert!(!app.popup.visible);
    let effect = app.on_enter();
    assert!(matches!(effect, Effect::Idle));
}

#[test]
fn other_keys_are_ignored_while_browsing() {
    let mut app = demo_app();
    app.on_key('x');
    app.on_left();
    app.on_right();
    assert!(!app.should_quit);
    assert!(!app.popup.visible);
    assert_eq!(app.path, "./");
    assert_eq!(app.files.state.selected, 0);
}

#[test]
fn nested_navigation_goes_up_one_level() {
    let mut app = App::new("vecile", "/home/user/".to_string(), vec![child("a", true, 0)]);
    let effect = app.on_enter();
    let target = match effect {
        Effect::ReadDir { path } => path,
        _ => panic!("expected a directory read"),
    };
    assert_eq!(target, "/home/user/a/");
    app.apply_listing(target, vec![child("b", true, 0)]);
    let effect = app.on_enter();
    let target = match effect {
        Effect::ReadDir { path } => path,
        _ => panic!("expected a directory read"),
    };
    assert_eq!(target, "/home/user/a/b/");
    app.apply_listing(target, vec![]);
    assert_eq!(app.path, "/home/user/a/b/");

    let effect = app.on_esc();
    let target = match effect {
        Effect::ReadDir { path } => path,
        _ => panic!("expected a directory read"),
    };
    assert_eq!(target, "/home/user/a/");
}
