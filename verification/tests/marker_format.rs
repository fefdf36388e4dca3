use zk_notes::marker::{default_marker_content, join_path, marker_name, marker_path};

#[test]
fn marker_name_is_fixed() {
    assert_eq!(marker_name(), ".zk.json");
}

#[test]
fn join_path_puts_base_first() {
    assert_eq!(join_path("/ws", "a.md"), "/ws/a.md");
}

#[test]
fn marker_path_sits_directly_under_root() {
    assert_eq!(marker_path("/home/me/zettel"), "/home/me/zettel/.zk.json");
}

#[test]
fn default_marker_content_is_pretty_json() {
    assert_eq!(default_marker_content(), "{\n  \"test\": 5\n}");
}
