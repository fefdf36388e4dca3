use zk_notes::errors::ZkError;
use zk_notes::notes::{note_path, note_seed, plan_note};

#[test]
fn note_seed_is_a_heading() {
    assert_eq!(note_seed("Foo"), "# Foo");
}

#[test]
fn note_path_root_is_the_base_directory() {
    assert_eq!(note_path("/ws", "Foo"), "/ws/Foo.md");
}

#[test]
fn non_interactive_note_uses_the_default_body() {
    let r = plan_note("Foo", false, "/ws", None);
    match r {
        Ok(f) => {
            assert_eq!(f.path, "/ws/Foo.md");
            assert_eq!(f.content, "# Foo");
        }
        Err(e) => panic!("{}", e.message()),
    }
}

#[test]
fn interactive_note_uses_the_edited_body() {
    let r = plan_note("Foo", true, "/ws", Some(Ok(String::from("edited"))));
    match r {
        Ok(f) => {
            assert_eq!(f.path, "/ws/Foo.md");
            assert_eq!(f.content, "edited");
        }
        Err(e) => panic!("{}", e.message()),
    }
}

#[test]
fn editing_failure_propagates_unchanged() {
    let r = plan_note(
        "Foo",
        true,
        "/ws",
        Some(Err(ZkError::Io { detail: String::from("spawn failed") })),
    );
    match r {
        Err(ZkError::Io { detail }) => assert_eq!(detail, "spawn failed"),
        _ => panic!("expected the editing failure back"),
    }
}
