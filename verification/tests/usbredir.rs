use qemu_display::error::Error;
use qemu_display::usbredir::{
    poll_decision, stream_read_decision, BridgeState, DeviceKey, UsbRedir,
};

const DEV_A: DeviceKey = DeviceKey { bus: 1, address: 4 };
const DEV_B: DeviceKey = DeviceKey { bus: 1, address: 5 };

#[test]
fn attaching_twice_is_idempotent() {
    let mut r = UsbRedir::new(2);
    assert_eq!(r.n_free_channels(), 2);

    assert_eq!(r.set_device_state(DEV_A, true), Ok(true));
    assert!(r.is_device_connected(DEV_A));
    assert_eq!(r.n_free_channels(), 1);

    // A second attach for the same key is a no-op that still succeeds:
    // exactly one entry, exactly one claimed channel.
    assert_eq!(r.set_device_state(DEV_A, true), Ok(true));
    assert!(r.is_device_connected(DEV_A));
    assert_eq!(r.n_free_channels(), 1);
}

#[test]
fn attach_fails_without_a_free_channel() {
    let mut r = UsbRedir::new(1);
    assert_eq!(r.set_device_state(DEV_A, true), Ok(true));
    assert_eq!(r.set_device_state(DEV_B, true), Err(Error::NoFreeChannel));
    assert!(!r.is_device_connected(DEV_B));
}

#[test]
fn detach_shuts_down_then_reaps() {
    let mut r = UsbRedir::new(2);
    r.set_device_state(DEV_A, true).unwrap();

    // Detach only winds the session down; the entry stays until both
    // bridging loops have been joined.
    assert_eq!(r.set_device_state(DEV_A, false), Ok(false));
    assert!(r.is_device_connected(DEV_A));
    assert_eq!(r.n_free_channels(), 1);

    r.reap(DEV_A);
    assert!(!r.is_device_connected(DEV_A));
    assert_eq!(r.n_free_channels(), 2);

    // Detaching a device that is not attached is a quiet no-op.
    assert_eq!(r.set_device_state(DEV_A, false), Ok(false));
}

#[test]
fn free_channel_changes_are_announced() {
    let mut r = UsbRedir::new(2);
    assert_eq!(r.latest_announcement(), None);
    r.set_device_state(DEV_A, true).unwrap();
    assert_eq!(r.latest_announcement(), Some(1));
    r.set_device_state(DEV_B, true).unwrap();
    assert_eq!(r.latest_announcement(), Some(0));
    r.set_device_state(DEV_B, false).unwrap();
    r.reap(DEV_B);
    assert_eq!(r.latest_announcement(), Some(1));
}

#[test]
fn io_error_shuts_both_directions_down() {
    let mut r = UsbRedir::new(1);
    r.set_device_state(DEV_A, true).unwrap();
    r.on_io_error(DEV_A);
    // The whole session is winding down; only the reap removes it.
    assert!(r.is_device_connected(DEV_A));
    r.reap(DEV_A);
    assert!(!r.is_device_connected(DEV_A));
}

#[test]
fn poll_decisions_cover_every_outcome() {
    // Poll itself failed.
    assert_eq!(poll_decision(-1, false, false, true, false), Err(Error::ChannelClosed));
    // Timed out with nothing ready.
    assert_eq!(poll_decision(0, false, false, false, false), Ok(false));
    // Hang-up on the stream ends the session.
    assert_eq!(poll_decision(1, true, true, false, false), Err(Error::ChannelClosed));
    // The wake side-channel fired: shutdown was requested.
    assert_eq!(poll_decision(1, false, false, true, true), Err(Error::ChannelClosed));
    // Bytes are ready on the stream.
    assert_eq!(poll_decision(1, true, false, true, false), Ok(true));
    // Something else woke poll; the stream has nothing.
    assert_eq!(poll_decision(1, false, false, false, false), Ok(false));
}

#[test]
fn stream_reads_of_zero_bytes_mean_disconnect() {
    assert_eq!(stream_read_decision(None), Err(Error::ChannelClosed));
    assert_eq!(stream_read_decision(Some(0)), Err(Error::ChannelClosed));
    assert_eq!(stream_read_decision(Some(17)), Ok(17));
}

#[test]
fn bridge_states_are_distinct() {
    assert_ne!(BridgeState::Bridging, BridgeState::ShuttingDown);
}
