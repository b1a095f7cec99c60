use oneshot::{DroppedSenderError, RecvTimeoutError, SendError, TryRecvError};

#[test]
fn send_error_gives_the_value_back() {
    let err = SendError::new(Box::new(String::from("five")));
    assert_eq!(err.as_inner(), "five");
    assert_eq!(err.into_inner(), String::from("five"));
}

#[test]
fn error_messages() {
    assert_eq!(
        DroppedSenderError.message(),
        "Oneshot sender dropped without sending anything, or message already received"
    );
    assert_eq!(SendError::new(Box::new(1u8)).message(), "oneshot receiver has already been dropped");
    assert_eq!(TryRecvError::Empty.message(), "receiving on an empty channel");
    assert_eq!(TryRecvError::Disconnected.message(), "receiving on a closed channel");
    assert_ne!(RecvTimeoutError::Timeout, RecvTimeoutError::Disconnected);
}
