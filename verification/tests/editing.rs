use zk_notes::editor::{EditAction, EditEvent, EditorSession};
use zk_notes::errors::ZkError;

fn session_with_seed(seed: &str) -> EditorSession {
    EditorSession::new(
        None,
        "/tmp",
        42,
        1700000000,
        Some(String::from(seed)),
    )
}

#[test]
fn editor_falls_back_to_vi() {
    let s = EditorSession::new(None, "/tmp", 1, 2, None);
    assert_eq!(s.editor, "vi");
}

#[test]
fn editor_preference_is_kept() {
    let s = EditorSession::new(Some(String::from("nano")), "/tmp", 1, 2, None);
    assert_eq!(s.editor, "nano");
}

#[test]
fn temp_path_derives_from_pid_and_time() {
    let s = session_with_seed("x");
    assert_eq!(s.temp_path, "/tmp/42_1700000000");
}

/// A fake filesystem holding at most the one temporary file, and a fake
/// editor that appends a fixed suffix to whatever the file holds.
#[test]
fn editor_round_trip_returns_seed_plus_suffix() {
    let seed = "hello";
    let suffix = " world";
    let mut file: Option<String> = None;

    let mut s = session_with_seed(seed);
    let act = s.step(EditEvent::Begin);
    match &act {
        EditAction::WriteSeed { path, content } => {
            assert_eq!(path, "/tmp/42_1700000000");
            file = Some(content.clone());
        }
        other => panic!("expected the seed write, got {:?}", other),
    }

    let act = s.step(EditEvent::SeedWritten { written: Ok(()) });
    match &act {
        EditAction::LaunchEditor { program, path } => {
            assert_eq!(program, "vi");
            assert_eq!(path, "/tmp/42_1700000000");
            // The fake editor appends its suffix to the file.
            let held = file.take().unwrap();
            file = Some(held + suffix);
        }
        other => panic!("expected the editor launch, got {:?}", other),
    }

    let act = s.step(EditEvent::EditorExited { exited: Ok(()) });
    assert!(matches!(&act, EditAction::ReadFile { path } if path == "/tmp/42_1700000000"));
    let read = file.clone().unwrap();

    let act = s.step(EditEvent::ReadBack { content: Ok(read) });
    match &act {
        EditAction::RemoveTemp { path } => {
            assert_eq!(path, "/tmp/42_1700000000");
            file = None;
        }
        other => panic!("expected the cleanup, got {:?}", other),
    }

    let act = s.step(EditEvent::Removed { removal: Ok(()) });
    match act {
        EditAction::Finish { result: Ok(text) } => assert_eq!(text, "hello world"),
        other => panic!("expected the session to finish, got {:?}", other),
    }
    // The temporary file does not outlive the session.
    assert!(file.is_none());
}

#[test]
fn editor_cleans_up_on_read_failure() {
    let mut s = session_with_seed("hello");
    s.step(EditEvent::Begin);
    s.step(EditEvent::SeedWritten { written: Ok(()) });
    s.step(EditEvent::EditorExited { exited: Ok(()) });
    let act = s.step(EditEvent::ReadBack { content: Err(String::from("gone")) });
    assert!(matches!(&act, EditAction::RemoveTemp { path } if path == "/tmp/42_1700000000"));
    let act = s.step(EditEvent::Removed { removal: Ok(()) });
    match act {
        EditAction::Finish { result: Err(ZkError::Io { detail }) } => assert_eq!(detail, "gone"),
        other => panic!("expected an I/O failure, got {:?}", other),
    }
}

#[test]
fn editor_without_seed_launches_at_once() {
    let mut s = EditorSession::new(None, "/tmp", 7, 9, None);
    let act = s.step(EditEvent::Begin);
    assert!(matches!(&act, EditAction::LaunchEditor { program, path }
        if program == "vi" && path == "/tmp/7_9"));
}

#[test]
fn editor_cleans_up_on_spawn_failure() {
    let mut s = session_with_seed("hello");
    s.step(EditEvent::Begin);
    s.step(EditEvent::SeedWritten { written: Ok(()) });
    let act = s.step(EditEvent::EditorExited { exited: Err(String::from("spawn failed")) });
    assert!(matches!(&act, EditAction::RemoveTemp { path } if path == "/tmp/42_1700000000"));
    let act = s.step(EditEvent::Removed { removal: Ok(()) });
    match act {
        EditAction::Finish { result: Err(ZkError::Io { detail }) } => {
            assert_eq!(detail, "spawn failed");
        }
        other => panic!("expected an I/O failure, got {:?}", other),
    }
}

#[test]
fn editor_cleans_up_on_seed_write_failure() {
    let mut s = session_with_seed("hello");
    s.step(EditEvent::Begin);
    let act = s.step(EditEvent::SeedWritten { written: Err(String::from("no space")) });
    assert!(matches!(&act, EditAction::RemoveTemp { path } if path == "/tmp/42_1700000000"));
}

#[test]
fn editor_remove_failure_after_success_is_io() {
    let mut s = session_with_seed("hello");
    s.step(EditEvent::Begin);
    s.step(EditEvent::SeedWritten { written: Ok(()) });
    s.step(EditEvent::EditorExited { exited: Ok(()) });
    s.step(EditEvent::ReadBack { content: Ok(String::from("text")) });
    let act = s.step(EditEvent::Removed { removal: Err(String::from("file busy")) });
    match act {
        EditAction::Finish { result: Err(ZkError::Io { detail }) } => {
            assert_eq!(detail, "file busy");
        }
        other => panic!("expected an I/O failure, got {:?}", other),
    }
}

#[test]
fn editor_remove_failure_keeps_the_earlier_error() {
    let mut s = session_with_seed("hello");
    s.step(EditEvent::Begin);
    s.step(EditEvent::SeedWritten { written: Ok(()) });
    s.step(EditEvent::EditorExited { exited: Err(String::from("spawn failed")) });
    let act = s.step(EditEvent::Removed { removal: Err(String::from("file busy")) });
    match act {
        EditAction::Finish { result: Err(ZkError::Io { detail }) } => {
            assert_eq!(detail, "spawn failed");
        }
        other => panic!("expected the earlier failure, got {:?}", other),
    }
}
