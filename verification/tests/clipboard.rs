use qemu_display::clipboard::{ClipboardEvent, ClipboardSelection, ClipboardTracker, ReplySlot};
use qemu_display::error::Error;

#[test]
fn stale_and_equal_grab_serials_are_dropped() {
    let mut t = ClipboardTracker::new();
    t.register();

    assert!(t.grab(ClipboardSelection::Clipboard, 1));
    assert_eq!(t.last_applied_serial(ClipboardSelection::Clipboard), Some(1));

    // Older than the last applied serial: dropped.
    assert!(!t.grab(ClipboardSelection::Clipboard, 0));
    // Equal to the last applied serial: dropped too; a strict increase is
    // required.
    assert!(!t.grab(ClipboardSelection::Clipboard, 1));
    assert_eq!(t.last_applied_serial(ClipboardSelection::Clipboard), Some(1));

    assert!(t.grab(ClipboardSelection::Clipboard, 7));
    assert_eq!(t.last_applied_serial(ClipboardSelection::Clipboard), Some(7));
}

#[test]
fn register_and_unregister_reset_the_serials() {
    let mut t = ClipboardTracker::new();
    t.register();
    assert!(t.grab(ClipboardSelection::Clipboard, 5));
    assert!(t.grab(ClipboardSelection::Primary, 9));

    t.register();
    assert_eq!(t.last_applied_serial(ClipboardSelection::Clipboard), Some(0));
    assert_eq!(t.last_applied_serial(ClipboardSelection::Primary), Some(0));
    // After the reset a small serial is fresh again...
    assert!(t.grab(ClipboardSelection::Clipboard, 1));

    t.unregister();
    assert_eq!(t.last_applied_serial(ClipboardSelection::Clipboard), Some(0));
    // ...but zero itself is not: it does not strictly exceed the reset
    // counter.
    assert!(!t.grab(ClipboardSelection::Clipboard, 0));
}

#[test]
fn selections_keep_independent_serial_clocks() {
    let mut t = ClipboardTracker::new();
    t.register();
    assert!(t.grab(ClipboardSelection::Clipboard, 10));
    // The primary selection's clock is untouched by the clipboard grab.
    assert!(t.grab(ClipboardSelection::Primary, 2));
    assert_eq!(t.last_applied_serial(ClipboardSelection::Clipboard), Some(10));
    assert_eq!(t.last_applied_serial(ClipboardSelection::Primary), Some(2));
}

#[test]
fn secondary_selection_is_unsupported() {
    let mut t = ClipboardTracker::new();
    t.register();
    assert!(!t.selection_supported(ClipboardSelection::Secondary));
    assert!(!t.grab(ClipboardSelection::Secondary, 100));
    assert_eq!(t.last_applied_serial(ClipboardSelection::Secondary), None);
}

#[test]
fn event_stream_drives_the_tracker() {
    let mut t = ClipboardTracker::new();
    assert!(t.apply_event(&ClipboardEvent::Register));
    assert!(t.apply_event(&ClipboardEvent::Grab {
        selection: ClipboardSelection::Clipboard,
        serial: 2,
        mimes: vec!["text/plain".to_string()],
    }));
    // A release carries no serial and leaves the clock alone.
    assert!(t.apply_event(&ClipboardEvent::Release { selection: ClipboardSelection::Clipboard }));
    assert_eq!(t.last_applied_serial(ClipboardSelection::Clipboard), Some(2));
    // The replayed grab is stale now.
    assert!(!t.apply_event(&ClipboardEvent::Grab {
        selection: ClipboardSelection::Clipboard,
        serial: 2,
        mimes: vec![],
    }));
    // Unregistering starts the clocks over.
    assert!(t.apply_event(&ClipboardEvent::Unregister));
    assert_eq!(t.last_applied_serial(ClipboardSelection::Clipboard), Some(0));
}

#[test]
fn local_grabs_advance_the_clock_past_their_serial() {
    let mut t = ClipboardTracker::new();
    t.register();
    assert_eq!(t.next_local_grab(ClipboardSelection::Clipboard), Some(0));
    // The bus may reflect our own grab back; it is not strictly newer than
    // the advanced clock, so it is dropped rather than applied twice.
    assert!(!t.grab(ClipboardSelection::Clipboard, 0));
    assert_eq!(t.next_local_grab(ClipboardSelection::Clipboard), Some(1));
    // The unsupported selection has no clock to advance.
    assert_eq!(t.next_local_grab(ClipboardSelection::Secondary), None);
}

#[test]
fn reply_slot_holds_exactly_one_reply() {
    let mut slot = ReplySlot::new();
    assert!(!slot.is_fulfilled());
    slot.fulfill(Ok(("text/plain".to_string(), b"hello".to_vec())));
    assert!(slot.is_fulfilled());
    let (mime, data) = slot.take().unwrap();
    assert_eq!(mime, "text/plain");
    assert_eq!(data, b"hello");
    assert!(!slot.is_fulfilled());
}

#[test]
fn reply_slot_can_carry_an_error() {
    let mut slot = ReplySlot::new();
    slot.fulfill(Err(Error::Rpc));
    assert_eq!(slot.take(), Err(Error::Rpc));
}
