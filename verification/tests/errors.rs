use yaoi::YaoiError;

#[test]
fn error_messages_of_own_errors() {
    assert_eq!(YaoiError::HugeTlbAlreadySet.message(), "HugeTLB already set once.");
    assert_eq!(YaoiError::BpNeedBuffers.message(), "Need buffers to run blueprints.");
    assert_eq!(YaoiError::Bug("Type error").message(), "Yaoi Bug: Type error");
    assert_eq!(
        YaoiError::HugeTlbReqFixedId.message(),
        "Streaming incremental HugeTLB buffers can be only created on fixed id TcpStreams."
    );
    assert_eq!(
        YaoiError::LimitHugeTlbU16.message(),
        "Streaming incremental HugeTLB buffers can be created only on u16 TcpSteam Ids."
    );
}

#[test]
fn error_messages_of_wrapped_errors() {
    let e = std::io::Error::new(std::io::ErrorKind::Other, "boom");
    assert_eq!(YaoiError::IoUring(e).message(), "Yaoi IoUring: boom");
    let e = std::io::Error::new(std::io::ErrorKind::Other, "gone");
    assert_eq!(YaoiError::StdIo(e).message(), "StdIo: gone");
}
