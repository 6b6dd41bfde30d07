use flyio_provider::{command_output, lookup_secret, CommandEvent, FlyIoError};

#[test]
fn lookup_finds_one_of_several_entries() {
    let output = "{\"A\":\"1\",\"B\":\"2\",\"C\":\"3\"}";
    assert_eq!(lookup_secret(output, "B").unwrap(), "2");
}

#[test]
fn lookup_on_empty_object_is_not_found() {
    match lookup_secret("{}", "A") {
        Err(FlyIoError::SecretNotFound(name)) => assert_eq!(name, "A"),
        other => panic!("expected SecretNotFound, got {:?}", other),
    }
}

#[test]
fn command_output_decodes_successful_run() {
    let event = CommandEvent::Finished { success: true, stdout: b"hello".to_vec() };
    assert_eq!(command_output(event).unwrap(), "hello");
}

#[test]
fn command_output_rejects_failed_run() {
    let event = CommandEvent::Finished { success: false, stdout: b"hello".to_vec() };
    assert!(matches!(command_output(event), Err(FlyIoError::CommandError)));
}

#[test]
fn error_messages_name_the_secret() {
    assert_eq!(FlyIoError::CommandError.message(), "Failed to execute fly command");
    assert_eq!(
        FlyIoError::SecretNotFound("K".to_string()).message(),
        "Secret K not found or command failed"
    );
    assert_eq!(FlyIoError::SecretNotSet("K".to_string()).message(), "Secret K could not be set");
    assert_eq!(
        FlyIoError::SecretNotDeleted("K".to_string()).message(),
        "Secret K could not be deleted"
    );
    assert_eq!(FlyIoError::Utf8Error.message(), "Invalid UTF-8 sequence");
}
