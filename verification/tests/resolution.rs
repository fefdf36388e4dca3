use zk_notes::errors::ZkError;
use zk_notes::workspace::{resolve_existing, CwdProbe};

#[test]
fn resolve_explicit_override_is_trusted() {
    let r = resolve_existing(
        Some(String::from("/explicit/root")),
        Err(String::from("cwd unavailable")),
    );
    assert!(matches!(r, Ok(root) if root == "/explicit/root"));
}

#[test]
fn resolve_cwd_with_marker_returns_cwd() {
    let probe = CwdProbe { path: String::from("/home/me/zettel"), has_marker: true };
    let r = resolve_existing(None, Ok(probe));
    assert!(matches!(r, Ok(root) if root == "/home/me/zettel"));
}

#[test]
fn resolve_cwd_without_marker_is_not_found() {
    let probe = CwdProbe { path: String::from("/home/me/elsewhere"), has_marker: false };
    let r = resolve_existing(None, Ok(probe));
    match r {
        Err(e) => {
            assert!(matches!(e, ZkError::NotFound));
            assert_eq!(e.message(), "Cannot find current zk working directory.");
        }
        Ok(root) => panic!("resolved unexpectedly to {}", root),
    }
}

#[test]
fn resolve_cwd_probe_failure_is_io() {
    let r = resolve_existing(None, Err(String::from("permission denied")));
    match r {
        Err(ZkError::Io { detail }) => assert_eq!(detail, "permission denied"),
        _ => panic!("expected an I/O error"),
    }
}
