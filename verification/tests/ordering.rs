use qemu_display::bridge::EventQueue;
use qemu_display::channel::{HandleSource, TransferMode};
use qemu_display::console::{
    ConsoleEvent, ConsoleListener, Cursor, MouseSet, Scanout, ScanoutMap, Update,
};
use qemu_display::error::Error;
use qemu_display::session::Session;

#[test]
fn queue_is_fifo() {
    let mut q: EventQueue<u32> = EventQueue::new();
    q.push(1).unwrap();
    q.push(2).unwrap();
    q.push(3).unwrap();
    assert_eq!(q.len(), 3);
    assert_eq!(q.poll(), Some(1));
    assert_eq!(q.poll(), Some(2));
    assert_eq!(q.poll(), Some(3));
    assert_eq!(q.poll(), None);
    assert!(q.is_empty());
}

#[test]
fn queue_reports_backpressure_once_consumer_is_gone() {
    let mut q: EventQueue<u32> = EventQueue::new();
    q.push(1).unwrap();
    q.drop_consumer();
    assert_eq!(q.push(2), Err(Error::Backpressure));
    // What was already queued stays queued.
    assert_eq!(q.len(), 1);
}

#[test]
fn scanout_then_update_arrive_in_order() {
    // The peer registers a console listener, sends a full scanout and then
    // a partial update; the consumer must see them in exactly that order.
    let mut src = HandleSource::new();
    let mut s = Session::new();
    s.begin_attach(&mut src, TransferMode::Descriptor).unwrap();
    s.complete_attach(Ok(())).unwrap();

    s.on_scanout(Scanout {
        width: 64,
        height: 64,
        stride: 256,
        format: 0x20020888,
        data: vec![0u8; 64 * 64 * 4],
    })
    .unwrap();
    s.on_update(Update {
        x: 0,
        y: 0,
        w: 8,
        h: 8,
        stride: 256,
        format: 0x20020888,
        data: vec![0u8; 8 * 256],
    })
    .unwrap();

    match s.poll_event() {
        Some(ConsoleEvent::Scanout(sc)) => {
            assert_eq!(sc.width, 64);
            assert_eq!(sc.height, 64);
            assert_eq!(sc.stride, 256);
            assert_eq!(sc.format, 0x20020888);
            assert_eq!(sc.data.len(), 64 * 64 * 4);
        }
        other => panic!("expected the scanout first, got {:?}", other),
    }
    match s.poll_event() {
        Some(ConsoleEvent::Update(u)) => {
            assert_eq!((u.x, u.y, u.w, u.h), (0, 0, 8, 8));
        }
        other => panic!("expected the update second, got {:?}", other),
    }
    assert!(s.poll_event().is_none());
}

#[test]
fn synthetic_sequence_is_not_reordered() {
    let mut src = HandleSource::new();
    let mut s = Session::new();
    s.begin_attach(&mut src, TransferMode::Descriptor).unwrap();
    s.complete_attach(Ok(())).unwrap();

    s.on_scanout(Scanout { width: 2, height: 2, stride: 8, format: 7, data: vec![1; 16] })
        .unwrap();
    s.on_update(Update { x: 1, y: 1, w: 1, h: 1, stride: 4, format: 7, data: vec![2; 4] })
        .unwrap();
    s.on_cursor_define(Cursor { width: 4, height: 4, hot_x: 0, hot_y: 0, data: vec![3; 64] })
        .unwrap();
    s.on_update(Update { x: 0, y: 1, w: 2, h: 1, stride: 8, format: 7, data: vec![4; 8] })
        .unwrap();

    assert!(matches!(s.poll_event(), Some(ConsoleEvent::Scanout(_))));
    match s.poll_event() {
        Some(ConsoleEvent::Update(u)) => assert_eq!(u.x, 1),
        other => panic!("expected the first update, got {:?}", other),
    }
    assert!(matches!(s.poll_event(), Some(ConsoleEvent::CursorDefine(_))));
    match s.poll_event() {
        Some(ConsoleEvent::Update(u)) => assert_eq!(u.x, 0),
        other => panic!("expected the second update, got {:?}", other),
    }
    assert!(s.poll_event().is_none());
}

#[test]
fn mapped_scanout_is_an_ordinary_event() {
    let mut src = HandleSource::new();
    let mut s = Session::new();
    s.begin_attach(&mut src, TransferMode::Descriptor).unwrap();
    s.complete_attach(Ok(())).unwrap();

    s.on_scanout_map(ScanoutMap {
        handle: 7,
        offset: 4096,
        width: 16,
        height: 16,
        stride: 64,
        format: 0x20020888,
    })
    .unwrap();
    // Establishing the mapped scanout needs no acknowledgment; only the
    // partial update against it does.
    assert!(!s.rendezvous_pending());
    match s.poll_event() {
        Some(ConsoleEvent::ScanoutMap(m)) => {
            assert_eq!(m.handle, 7);
            assert_eq!(m.offset, 4096);
            assert_eq!((m.width, m.height, m.stride), (16, 16, 64));
        }
        other => panic!("expected the mapped scanout, got {:?}", other),
    }
}

#[test]
fn drain_hands_out_everything_in_order() {
    let mut l = ConsoleListener::new();
    l.scanout(Scanout { width: 1, height: 1, stride: 4, format: 9, data: vec![0; 4] })
        .unwrap();
    l.mouse_set(MouseSet { x: 3, y: 4, on: 1 }).unwrap();
    l.disconnect();

    let drained = l.drain();
    assert_eq!(drained.len(), 3);
    assert!(matches!(drained[0], ConsoleEvent::Scanout(_)));
    assert!(matches!(drained[1], ConsoleEvent::MouseSet(_)));
    assert!(matches!(drained[2], ConsoleEvent::Disconnected));
    assert!(l.poll_event().is_none());
}
