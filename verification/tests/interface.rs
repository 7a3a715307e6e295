use cardwire_daemon::interface::{nvidia_block_reply, save_reply, InterfaceError, SaveError};

#[test]
fn test_save_reply() {
    assert!(save_reply(Ok(())).is_ok());
    assert!(save_reply(Err(SaveError::ReadOnlyFilesystem)).is_ok());
    match save_reply(Err(SaveError::Other("permission denied".to_string()))) {
        Err(InterfaceError::Failed(msg)) => assert_eq!(msg, "permission denied"),
        other => panic!("unexpected reply {:?}", other),
    }
}

#[test]
fn test_nvidia_block_reply() {
    assert!(nvidia_block_reply(Ok(())).is_ok());
    match nvidia_block_reply(Err("map update failed".to_string())) {
        Err(InterfaceError::Failed(msg)) => {
            assert_eq!(msg, "failed to set nvidia block: map update failed")
        }
        other => panic!("unexpected reply {:?}", other),
    }
}
