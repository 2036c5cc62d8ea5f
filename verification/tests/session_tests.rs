use redit::session::{EditorError, MenuEvent, Session, UiAction};

fn open_event(path: &str, contents: &str) -> MenuEvent {
    MenuEvent::OpenChosen { path: path.to_string(), contents: contents.to_string() }
}

#[test]
fn startup_state() {
    let s = Session::startup();
    assert!(s.path.is_none());
    assert_eq!(s.font_size, 15);
    assert!(!s.save_enabled);
}

#[test]
fn new_clears_surface_and_disables_save() {
    let mut s = Session::startup();
    s.handle(open_event("/tmp/a.txt", "some text"));
    assert!(s.save_enabled);
    let action = s.handle(MenuEvent::FileNew);
    match action {
        UiAction::ReplaceText { text } => assert_eq!(text.as_str(), ""),
        _ => panic!("expected the surface to be cleared"),
    }
    assert!(s.path.is_none());
    assert!(!s.save_enabled);
}

#[test]
fn open_replaces_text_and_enables_save() {
    let mut s = Session::startup();
    let action = s.handle(open_event("/tmp/notes.txt", "line one\nline two"));
    match action {
        UiAction::ReplaceText { text } => assert_eq!(text.as_str(), "line one\nline two"),
        _ => panic!("expected the surface text to be replaced"),
    }
    assert_eq!(s.path.as_deref(), Some("/tmp/notes.txt"));
    assert!(s.save_enabled);
}

#[test]
fn open_then_save_round_trip() {
    let contents = "alpha\nbeta\ngamma\n";
    let mut s = Session::startup();
    s.handle(open_event("/tmp/f.txt", contents));
    let action = s.handle(MenuEvent::SaveActivated { buffer: contents.to_string() });
    match action {
        UiAction::WriteFile { path, contents: written } => {
            assert_eq!(path.as_str(), "/tmp/f.txt");
            assert_eq!(written.as_str(), contents);
        }
        _ => panic!("expected a write of the opened contents"),
    }
}

#[test]
fn save_without_path_reports_error() {
    let mut s = Session::startup();
    let action = s.handle(MenuEvent::SaveActivated { buffer: "text".to_string() });
    match action {
        UiAction::ReportError { error } => {
            assert_eq!(error, EditorError::NoActiveDocumentPathError)
        }
        _ => panic!("expected the missing-path error"),
    }
    assert!(!s.save_enabled);
}

#[test]
fn save_stays_disabled_until_open_or_save_as() {
    let mut s = Session::startup();
    assert!(!s.save_enabled);
    s.handle(MenuEvent::FileNew);
    assert!(!s.save_enabled);
    s.handle(MenuEvent::DialogCancelled);
    assert!(!s.save_enabled);
    s.handle(MenuEvent::ZoomIn);
    assert!(!s.save_enabled);
    s.handle(MenuEvent::ReadFailed);
    assert!(!s.save_enabled);
    s.handle(open_event("/tmp/a.txt", "x"));
    assert!(s.save_enabled);

    let mut t = Session::startup();
    t.handle(MenuEvent::SaveAsChosen { path: "/tmp/b.txt".to_string(), buffer: "y".to_string() });
    assert!(!t.save_enabled);
    t.handle(MenuEvent::WriteSucceeded { path: "/tmp/b.txt".to_string() });
    assert!(t.save_enabled);
}

#[test]
fn save_as_writes_and_adopts_path() {
    let mut s = Session::startup();
    let action = s.handle(MenuEvent::SaveAsChosen {
        path: "/tmp/out.txt".to_string(),
        buffer: "hello".to_string(),
    });
    match action {
        UiAction::WriteFile { path, contents } => {
            assert_eq!(path.as_str(), "/tmp/out.txt");
            assert_eq!(contents.as_str(), "hello");
        }
        _ => panic!("expected a write to the chosen path"),
    }
    // The write has only been ordered: nothing is adopted yet.
    assert!(s.path.is_none());
    assert!(!s.save_enabled);

    // Once the shell reports the write as successful, the chosen path
    // is adopted and Save is enabled.
    let done = s.handle(MenuEvent::WriteSucceeded { path: "/tmp/out.txt".to_string() });
    assert!(matches!(done, UiAction::Nothing));
    assert_eq!(s.path.as_deref(), Some("/tmp/out.txt"));
    assert!(s.save_enabled);

    // A Save with no edits afterwards rewrites the same content unchanged.
    let again = s.handle(MenuEvent::SaveActivated { buffer: "hello".to_string() });
    match again {
        UiAction::WriteFile { path, contents } => {
            assert_eq!(path.as_str(), "/tmp/out.txt");
            assert_eq!(contents.as_str(), "hello");
        }
        _ => panic!("expected a second write to the adopted path"),
    }
}

#[test]
fn save_as_write_failure_leaves_state_unchanged() {
    let mut s = Session::startup();
    s.handle(MenuEvent::SaveAsChosen {
        path: "/unwritable/out.txt".to_string(),
        buffer: "hello".to_string(),
    });
    let action = s.handle(MenuEvent::WriteFailed);
    match action {
        UiAction::ReportError { error } => assert_eq!(error, EditorError::IoError),
        _ => panic!("expected the write failure to be reported"),
    }
    // The failed Save As established nothing.
    assert!(s.path.is_none());
    assert!(!s.save_enabled);

    // The same holds from a state with an established path: the old
    // path stays, the chosen one is not adopted.
    let mut t = Session::startup();
    t.handle(open_event("/tmp/old.txt", "x"));
    t.handle(MenuEvent::SaveAsChosen {
        path: "/unwritable/new.txt".to_string(),
        buffer: "x".to_string(),
    });
    t.handle(MenuEvent::WriteFailed);
    assert_eq!(t.path.as_deref(), Some("/tmp/old.txt"));
    assert!(t.save_enabled);
}

#[test]
fn cancel_and_failures_change_nothing() {
    let mut s = Session::startup();
    s.handle(open_event("/tmp/a.txt", "x"));
    let before_path = s.path.clone();
    let action = s.handle(MenuEvent::DialogCancelled);
    assert!(matches!(action, UiAction::Nothing));
    let action = s.handle(MenuEvent::ReadFailed);
    match action {
        UiAction::ReportError { error } => assert_eq!(error, EditorError::IoError),
        _ => panic!("expected the read failure to be reported"),
    }
    let action = s.handle(MenuEvent::WriteFailed);
    match action {
        UiAction::ReportError { error } => assert_eq!(error, EditorError::IoError),
        _ => panic!("expected the write failure to be reported"),
    }
    assert_eq!(s.path, before_path);
    assert!(s.save_enabled);
    assert_eq!(s.font_size, 15);
}

#[test]
fn exit_closes_window() {
    let mut s = Session::startup();
    let action = s.handle(MenuEvent::ExitActivated);
    assert!(matches!(action, UiAction::CloseWindow));
}

#[test]
fn zoom_in_out_round_trip() {
    for start in [-9, -2, 0, 1, 15, 99] {
        let mut s = Session::startup();
        s.font_size = start;
        s.handle(MenuEvent::ZoomIn);
        assert_eq!(s.font_size, start + 2);
        s.handle(MenuEvent::ZoomOut);
        assert_eq!(s.font_size, start);
    }
}

#[test]
fn zoom_has_no_lower_bound() {
    let mut s = Session::startup();
    for _ in 0..8 {
        s.handle(MenuEvent::ZoomOut);
    }
    assert_eq!(s.font_size, -1);
    let action = s.handle(MenuEvent::ZoomOut);
    match action {
        UiAction::ApplyStyle { rule } => {
            assert_eq!(rule.as_str(), "textview { font-size: -3px; }")
        }
        _ => panic!("expected a style rule"),
    }
}

#[test]
fn restore_default_always_yields_fifteen() {
    let mut s = Session::startup();
    for _ in 0..5 {
        s.handle(MenuEvent::ZoomIn);
    }
    assert_eq!(s.font_size, 25);
    let action = s.handle(MenuEvent::RestoreDefaultZoom);
    assert_eq!(s.font_size, 15);
    match action {
        UiAction::ApplyStyle { rule } => {
            assert_eq!(rule.as_str(), "textview { font-size: 15px; }")
        }
        _ => panic!("expected a style rule"),
    }

    let mut t = Session::startup();
    for _ in 0..20 {
        t.handle(MenuEvent::ZoomOut);
    }
    t.handle(MenuEvent::RestoreDefaultZoom);
    assert_eq!(t.font_size, 15);
}

#[test]
fn zoom_applies_style_rule_of_new_size() {
    let mut s = Session::startup();
    let action = s.handle(MenuEvent::ZoomIn);
    match action {
        UiAction::ApplyStyle { rule } => {
            assert_eq!(rule.as_str(), "textview { font-size: 17px; }")
        }
        _ => panic!("expected a style rule"),
    }
}

#[test]
fn error_messages() {
    assert_eq!(
        EditorError::IoError.message().as_str(),
        "The file could not be read or written."
    );
    assert_eq!(
        EditorError::MissingAssetError.message().as_str(),
        "The logo image is missing."
    );
    assert_eq!(
        EditorError::NoActiveDocumentPathError.message().as_str(),
        "No file path has been established."
    );
}
