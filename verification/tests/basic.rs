use qemu_display::error::Error;

#[test]
fn it_works() {
    assert_eq!(2 + 2, 4);
}

#[test]
fn lib_it_works() {
    assert_eq!(2 + 2, 4);
}

#[test]
fn error_messages_are_nonempty() {
    let errors = [
        Error::Transport,
        Error::Rpc,
        Error::ProtocolViolation,
        Error::ChannelClosed,
        Error::Backpressure,
        Error::AlreadyAttached,
        Error::NoFreeChannel,
    ];
    for e in errors {
        assert!(!e.message().is_empty());
    }
}
