use qemu_display::channel::{HandleSource, TransferMode};
use qemu_display::console::{ConsoleEvent, ScanoutDMABUF, UpdateDMABUF};
use qemu_display::session::Session;

fn attached_session(src: &mut HandleSource) -> Session {
    let mut s = Session::new();
    s.begin_attach(src, TransferMode::Descriptor).unwrap();
    s.complete_attach(Ok(())).unwrap();
    s
}

#[test]
fn external_buffer_update_waits_for_acknowledgment() {
    let mut src = HandleSource::new();
    let mut s = attached_session(&mut src);

    s.on_scanout_dmabuf(ScanoutDMABUF {
        fd: 5,
        width: 64,
        height: 64,
        stride: 256,
        fourcc: 0x34325258,
        modifier: 0,
        y0_top: false,
    })
    .unwrap();
    assert!(!s.rendezvous_pending());

    s.on_update_dmabuf(UpdateDMABUF { x: 0, y: 0, w: 8, h: 8 }).unwrap();
    // The call to the peer must not return — and the serve loop must not
    // dispatch anything further — while this holds:
    assert!(s.rendezvous_pending());

    // The consumer drains and acknowledges; only that releases the peer.
    assert!(matches!(s.poll_event(), Some(ConsoleEvent::ScanoutDMABUF(_))));
    assert!(matches!(s.poll_event(), Some(ConsoleEvent::UpdateDMABUF(_))));
    assert!(s.rendezvous_pending());
    s.acknowledge();
    assert!(!s.rendezvous_pending());

    // A second external-buffer update is possible only now.
    s.on_update_dmabuf(UpdateDMABUF { x: 8, y: 8, w: 8, h: 8 }).unwrap();
    assert!(s.rendezvous_pending());
}

#[test]
fn detach_releases_a_pending_rendezvous() {
    let mut src = HandleSource::new();
    let mut s = attached_session(&mut src);

    s.on_update_dmabuf(UpdateDMABUF { x: 0, y: 0, w: 4, h: 4 }).unwrap();
    assert!(s.rendezvous_pending());

    // The consumer never acknowledges; detach must still be safe and must
    // release the blocked serve loop on the consumer's behalf.
    s.begin_detach();
    let listener = s.finish_detach();
    assert!(!listener.rendezvous_pending());
}

#[test]
fn update_without_consumer_does_not_open_the_rendezvous() {
    let mut src = HandleSource::new();
    let mut s = attached_session(&mut src);

    s.consumer_gone();
    // Nobody is left to acknowledge, so the rendezvous must not trap the
    // serve loop; the failed delivery ends it instead.
    assert!(s.on_update_dmabuf(UpdateDMABUF { x: 0, y: 0, w: 4, h: 4 }).is_err());
    assert!(!s.rendezvous_pending());
    assert!(s.serve_should_stop());
}
