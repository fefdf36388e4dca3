use zk_notes::errors::ZkError;

#[test]
fn not_found_message_is_fixed() {
    assert_eq!(
        ZkError::NotFound.message(),
        "Cannot find current zk working directory."
    );
}

#[test]
fn cannot_locate_message_names_the_detail() {
    let e = ZkError::CannotLocate { detail: String::from("dangling link") };
    assert_eq!(e.message(), "Cannot locate workspace: dangling link");
}

#[test]
fn io_message_is_the_detail() {
    let e = ZkError::Io { detail: String::from("disk full") };
    assert_eq!(e.message(), "disk full");
}

#[test]
fn serialization_message_names_the_detail() {
    let e = ZkError::Serialization { detail: String::from("stream closed") };
    assert_eq!(e.message(), "Serialization error: stream closed");
}
