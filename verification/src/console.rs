//! Console session listener.
//!
//! The console service's private protocol arrives on the retained end of
//! the channel pair.  Every incoming protocol call becomes exactly one
//! event in the dispatch bridge; the consumer drains the bridge in FIFO
//! order.
//!
//! One call is special: an update against an externally shared frame
//! buffer must not return to the peer until the consumer has rendered or
//! copied the referenced memory, because the producer may reuse that
//! memory as soon as the call returns.  The listener models this
//! rendezvous with an explicit flag: the update sets it, only the
//! consumer's acknowledgment clears it, and no further protocol call is
//! accepted while it is set.  The serve loop that hosts the listener must
//! block on [`ConsoleListener::rendezvous_pending`] before dispatching the
//! next call.
//!
//! If an event cannot be handed to the bridge because the consumer side is
//! gone, the listener records the failure once; the serve loop observes it
//! through [`ConsoleListener::should_stop`] and terminates, leaving the
//! teardown to the session lifecycle.

use vstd::prelude::*;

verus! {

use crate::bridge::EventQueue;
use crate::error::Error;

/// A full replacement of the displayed frame buffer, with inline pixels.
#[derive(Clone, Debug)]
pub struct Scanout {
    pub width: u32,
    pub height: u32,
    pub stride: u32,
    pub format: u32,
    pub data: Vec<u8>,
}

/// A partial-region replacement against the current frame buffer, with
/// inline pixels.
#[derive(Clone, Debug)]
pub struct Update {
    pub x: i32,
    pub y: i32,
    pub w: i32,
    pub h: i32,
    pub stride: u32,
    pub format: u32,
    pub data: Vec<u8>,
}

/// A full scanout held in external memory, described by a descriptor the
/// consumer imports instead of inline bytes.  The descriptor number is
/// carried as plain data here; the embedding binary owns the descriptor
/// itself and closes it when the event has been consumed.
#[derive(Clone, Copy, Debug, PartialEq, Eq, Structural)]
pub struct ScanoutDMABUF {
    pub fd: i32,
    pub width: u32,
    pub height: u32,
    pub stride: u32,
    pub fourcc: u32,
    pub modifier: u64,
    pub y0_top: bool,
}

/// A full scanout held in a memory-mapped file, the external-memory
/// encoding for transports that cannot pass dma-buf descriptors.  The
/// mapping handle is carried as plain data; the embedding binary owns
/// the handle and the mapping.
#[derive(Clone, Copy, Debug, PartialEq, Eq, Structural)]
pub struct ScanoutMap {
    pub handle: u64,
    pub offset: u32,
    pub width: u32,
    pub height: u32,
    pub stride: u32,
    pub format: u32,
}

/// A partial update against the established external-memory scanout.
/// This is the call that requires consumer acknowledgment before it may
/// return to the peer.
#[derive(Clone, Copy, Debug, PartialEq, Eq, Structural)]
pub struct UpdateDMABUF {
    pub x: i32,
    pub y: i32,
    pub w: i32,
    pub h: i32,
}

/// A cursor shape, with hotspot and inline RGBA bytes.
#[derive(Clone, Debug)]
pub struct Cursor {
    pub width: i32,
    pub height: i32,
    pub hot_x: i32,
    pub hot_y: i32,
    pub data: Vec<u8>,
}

/// A pointer-position hint.
#[derive(Clone, Copy, Debug, PartialEq, Eq, Structural)]
pub struct MouseSet {
    pub x: i32,
    pub y: i32,
    pub on: i32,
}

/// One event of the console stream, as handed to the consumer.
#[derive(Clone, Debug)]
pub enum ConsoleEvent {
    Scanout(Scanout),
    Update(Update),
    ScanoutDMABUF(ScanoutDMABUF),
    ScanoutMap(ScanoutMap),
    UpdateDMABUF(UpdateDMABUF),
    MouseSet(MouseSet),
    CursorDefine(Cursor),
    Disconnected,
}

/// How many terminal disconnect events a sequence holds.
pub open spec fn disconnect_count(s: Seq<ConsoleEvent>) -> nat
    decreases s.len(),
{
    if s.len() == 0 {
        0
    } else {
        disconnect_count(s.drop_last()) + if s.last() is Disconnected {
            1nat
        } else {
            0nat
        }
    }
}

/// Appending one event raises the disconnect count exactly when that event
/// is the terminal one.
pub proof fn lemma_disconnect_count_push(s: Seq<ConsoleEvent>, e: ConsoleEvent)
    ensures
        disconnect_count(s.push(e)) == disconnect_count(s) + if e is Disconnected {
            1nat
        } else {
            0nat
        },
{
    assert(s.push(e).drop_last() =~= s);
    assert(s.push(e).last() == e);
}

/// The disconnect count distributes over concatenation.
pub proof fn lemma_disconnect_count_concat(a: Seq<ConsoleEvent>, b: Seq<ConsoleEvent>)
    ensures
        disconnect_count(a + b) == disconnect_count(a) + disconnect_count(b),
    decreases b.len(),
{
    if b.len() == 0 {
        assert(a + b =~= a);
    } else {
        lemma_disconnect_count_concat(a, b.drop_last());
        assert((a + b).drop_last() =~= a + b.drop_last());
        assert((a + b).last() == b.last());
    }
}

/// The receiving side of the console service's private protocol.
pub struct ConsoleListener {
    queue: EventQueue<ConsoleEvent>,
    awaiting_ack: bool,
    failed: bool,
    disconnected: bool,
}

impl ConsoleListener {
    /// The dispatch bridge between this listener and its consumer.
    pub closed spec fn bridge(&self) -> EventQueue<ConsoleEvent> {
        self.queue
    }

    /// Whether an external-buffer update is waiting for the consumer's
    /// acknowledgment.
    pub closed spec fn rendezvous_open(&self) -> bool {
        self.awaiting_ack
    }

    /// Whether a delivery has failed; the serve loop must terminate.
    pub closed spec fn has_failed(&self) -> bool {
        self.failed
    }

    /// Whether the terminal disconnect event has been enqueued.
    pub closed spec fn disconnect_emitted(&self) -> bool {
        self.disconnected
    }

    /// The listener's invariant: its bridge is well formed, a delivery
    /// failure implies the consumer is gone, and the terminal event sits
    /// in the push history exactly once, and only if it was emitted.
    pub open spec fn wf(&self) -> bool {
        &&& self.bridge().wf()
        &&& (self.has_failed() ==> !self.bridge().consumer_present())
        &&& disconnect_count(self.bridge().pushed_events()) == if self.disconnect_emitted() {
            1nat
        } else {
            0nat
        }
    }

    /// What every ordinary protocol call does: hand exactly one event to
    /// the bridge.  With a live consumer the event is appended to the
    /// stream; with the consumer gone nothing is enqueued, the failure is
    /// recorded, and the call reports backpressure.
    pub open spec fn delivers(
        pre: ConsoleListener,
        post: ConsoleListener,
        e: ConsoleEvent,
        r: Result<(), Error>,
    ) -> bool {
        &&& post.bridge().delivered_events() == pre.bridge().delivered_events()
        &&& post.bridge().consumer_present() == pre.bridge().consumer_present()
        &&& post.disconnect_emitted() == pre.disconnect_emitted()
        &&& if pre.bridge().consumer_present() {
            &&& r is Ok
            &&& post.bridge().pushed_events() == pre.bridge().pushed_events().push(e)
            &&& post.bridge().pending_events() == pre.bridge().pending_events().push(e)
            &&& post.has_failed() == pre.has_failed()
        } else {
            &&& r == Result::<(), Error>::Err(Error::Backpressure)
            &&& post.bridge().pushed_events() == pre.bridge().pushed_events()
            &&& post.bridge().pending_events() == pre.bridge().pending_events()
            &&& post.has_failed()
        }
    }

    /// A fresh listener with an empty stream, no pending rendezvous and a
    /// live consumer.
    pub fn new() -> (l: Self)
        ensures
            l.wf(),
            l.bridge().pushed_events() === Seq::<ConsoleEvent>::empty(),
            l.bridge().pending_events() === Seq::<ConsoleEvent>::empty(),
            l.bridge().delivered_events() === Seq::<ConsoleEvent>::empty(),
            l.bridge().consumer_present(),
            !l.rendezvous_open(),
            !l.has_failed(),
            !l.disconnect_emitted(),
    {
        ConsoleListener {
            queue: EventQueue::new(),
            awaiting_ack: false,
            failed: false,
            disconnected: false,
        }
    }

    /// Hand one non-terminal event to the bridge; shared body of the
    /// ordinary protocol calls.
    fn send(&mut self, e: ConsoleEvent) -> (r: Result<(), Error>)
        requires
            old(self).wf(),
            !(e is Disconnected),
        ensures
            final(self).wf(),
            Self::delivers(*old(self), *final(self), e, r),
            final(self).rendezvous_open() == old(self).rendezvous_open(),
    {
        proof {
            lemma_disconnect_count_push(self.queue.pushed_events(), e);
        }
        match self.queue.push(e) {
            Ok(()) => Ok(()),
            Err(err) => {
                self.failed = true;
                Err(err)
            },
        }
    }

    /// Protocol call: full scanout replacement.
    pub fn scanout(&mut self, s: Scanout) -> (r: Result<(), Error>)
        requires
            old(self).wf(),
            !old(self).rendezvous_open(),
        ensures
            final(self).wf(),
            Self::delivers(*old(self), *final(self), ConsoleEvent::Scanout(s), r),
            !final(self).rendezvous_open(),
    {
        self.send(ConsoleEvent::Scanout(s))
    }

    /// Protocol call: partial update with inline pixels.
    pub fn update(&mut self, u: Update) -> (r: Result<(), Error>)
        requires
            old(self).wf(),
            !old(self).rendezvous_open(),
        ensures
            final(self).wf(),
            Self::delivers(*old(self), *final(self), ConsoleEvent::Update(u), r),
            !final(self).rendezvous_open(),
    {
        self.send(ConsoleEvent::Update(u))
    }

    /// Protocol call: scanout replacement held in external memory.
    pub fn scanout_dmabuf(&mut self, s: ScanoutDMABUF) -> (r: Result<(), Error>)
        requires
            old(self).wf(),
            !old(self).rendezvous_open(),
        ensures
            final(self).wf(),
            Self::delivers(*old(self), *final(self), ConsoleEvent::ScanoutDMABUF(s), r),
            !final(self).rendezvous_open(),
    {
        self.send(ConsoleEvent::ScanoutDMABUF(s))
    }

    /// Protocol call: scanout replacement held in a memory-mapped file.
    pub fn scanout_map(&mut self, s: ScanoutMap) -> (r: Result<(), Error>)
        requires
            old(self).wf(),
            !old(self).rendezvous_open(),
        ensures
            final(self).wf(),
            Self::delivers(*old(self), *final(self), ConsoleEvent::ScanoutMap(s), r),
            !final(self).rendezvous_open(),
    {
        self.send(ConsoleEvent::ScanoutMap(s))
    }

    /// Protocol call: partial update against the external-memory scanout.
    ///
    /// This is the rendezvous: with a live consumer the call leaves the
    /// rendezvous open, and the hosting serve loop must not return control
    /// to the peer, nor dispatch any further call, until
    /// [`Self::acknowledge`] has closed it.  Without that block the peer
    /// could overwrite the shared memory before the consumer has read it.
    /// If the consumer is gone there is nobody left to acknowledge: the
    /// rendezvous stays closed and the failure is recorded instead.
    pub fn update_dmabuf(&mut self, u: UpdateDMABUF) -> (r: Result<(), Error>)
        requires
            old(self).wf(),
            !old(self).rendezvous_open(),
        ensures
            final(self).wf(),
            Self::delivers(*old(self), *final(self), ConsoleEvent::UpdateDMABUF(u), r),
            final(self).rendezvous_open() == old(self).bridge().consumer_present(),
    {
        let r = self.send(ConsoleEvent::UpdateDMABUF(u));
        if r.is_ok() {
            self.awaiting_ack = true;
        }
        r
    }

    /// Protocol call: pointer-position hint.
    pub fn mouse_set(&mut self, m: MouseSet) -> (r: Result<(), Error>)
        requires
            old(self).wf(),
            !old(self).rendezvous_open(),
        ensures
            final(self).wf(),
            Self::delivers(*old(self), *final(self), ConsoleEvent::MouseSet(m), r),
            !final(self).rendezvous_open(),
    {
        self.send(ConsoleEvent::MouseSet(m))
    }

    /// Protocol call: cursor shape definition.
    pub fn cursor_define(&mut self, c: Cursor) -> (r: Result<(), Error>)
        requires
            old(self).wf(),
            !old(self).rendezvous_open(),
        ensures
            final(self).wf(),
            Self::delivers(*old(self), *final(self), ConsoleEvent::CursorDefine(c), r),
            !final(self).rendezvous_open(),
    {
        self.send(ConsoleEvent::CursorDefine(c))
    }

    /// Consumer side: acknowledge the pending external-buffer update, or
    /// do nothing if no rendezvous is open.  The teardown path also calls
    /// this on behalf of a consumer that went away, so a blocked serve
    /// loop can always exit.
    pub fn acknowledge(&mut self)
        requires
            old(self).wf(),
        ensures
            final(self).wf(),
            !final(self).rendezvous_open(),
            final(self).bridge() == old(self).bridge(),
            final(self).has_failed() == old(self).has_failed(),
            final(self).disconnect_emitted() == old(self).disconnect_emitted(),
    {
        self.awaiting_ack = false;
    }

    /// Consumer side: take the oldest pending event, if any.
    pub fn poll_event(&mut self) -> (r: Option<ConsoleEvent>)
        requires
            old(self).wf(),
        ensures
            final(self).wf(),
            final(self).rendezvous_open() == old(self).rendezvous_open(),
            final(self).has_failed() == old(self).has_failed(),
            final(self).disconnect_emitted() == old(self).disconnect_emitted(),
            final(self).bridge().pushed_events() == old(self).bridge().pushed_events(),
            final(self).bridge().consumer_present() == old(self).bridge().consumer_present(),
            old(self).bridge().pending_events().len() == 0 ==> {
                &&& r is None
                &&& final(self).bridge().pending_events() == old(self).bridge().pending_events()
                &&& final(self).bridge().delivered_events() == old(
                    self,
                ).bridge().delivered_events()
            },
            old(self).bridge().pending_events().len() > 0 ==> {
                &&& r == Some(old(self).bridge().pending_events()[0])
                &&& final(self).bridge().pending_events() == old(
                    self,
                ).bridge().pending_events().drop_first()
                &&& final(self).bridge().delivered_events() == old(
                    self,
                ).bridge().delivered_events().push(old(self).bridge().pending_events()[0])
            },
    {
        self.queue.poll()
    }

    /// Consumer side: take every pending event at once, oldest first.
    /// Useful for the final drain after a teardown.
    pub fn drain(&mut self) -> (r: Vec<ConsoleEvent>)
        requires
            old(self).wf(),
        ensures
            final(self).wf(),
            r@ == old(self).bridge().pending_events(),
            final(self).bridge().pending_events() === Seq::<ConsoleEvent>::empty(),
            final(self).bridge().delivered_events() == old(self).bridge().delivered_events()
                + old(self).bridge().pending_events(),
            final(self).bridge().pushed_events() == old(self).bridge().pushed_events(),
            final(self).bridge().consumer_present() == old(self).bridge().consumer_present(),
            final(self).rendezvous_open() == old(self).rendezvous_open(),
            final(self).has_failed() == old(self).has_failed(),
            final(self).disconnect_emitted() == old(self).disconnect_emitted(),
    {
        let mut out: Vec<ConsoleEvent> = Vec::new();
        loop
            invariant
                self.wf(),
                out@ + self.bridge().pending_events() == old(self).bridge().pending_events(),
                self.bridge().delivered_events() == old(self).bridge().delivered_events()
                    + out@,
                self.bridge().pushed_events() == old(self).bridge().pushed_events(),
                self.bridge().consumer_present() == old(self).bridge().consumer_present(),
                self.rendezvous_open() == old(self).rendezvous_open(),
                self.has_failed() == old(self).has_failed(),
                self.disconnect_emitted() == old(self).disconnect_emitted(),
            ensures
                self.wf(),
                out@ == old(self).bridge().pending_events(),
                self.bridge().pending_events().len() == 0,
                self.bridge().delivered_events() == old(self).bridge().delivered_events()
                    + out@,
                self.bridge().pushed_events() == old(self).bridge().pushed_events(),
                self.bridge().consumer_present() == old(self).bridge().consumer_present(),
                self.rendezvous_open() == old(self).rendezvous_open(),
                self.has_failed() == old(self).has_failed(),
                self.disconnect_emitted() == old(self).disconnect_emitted(),
            decreases self.bridge().pending_events().len(),
        {
            match self.poll_event() {
                Some(e) => {
                    out.push(e);
                    proof {
                        assert(out@ + self.bridge().pending_events() =~= old(
                            self,
                        ).bridge().pending_events());
                        assert(self.bridge().delivered_events() =~= old(
                            self,
                        ).bridge().delivered_events() + out@);
                    }
                },
                None => {
                    proof {
                        assert(out@ + self.bridge().pending_events() =~= out@);
                        assert(out@ =~= old(self).bridge().pending_events());
                    }
                    break ;
                },
            }
        }
        out
    }

    /// Emit the terminal disconnect event, exactly once.
    ///
    /// The first call with a live consumer enqueues it; every further call
    /// leaves the stream unchanged.  With the consumer gone there is
    /// nobody left to observe a terminal event, so nothing is enqueued.
    pub fn disconnect(&mut self)
        requires
            old(self).wf(),
        ensures
            final(self).wf(),
            final(self).rendezvous_open() == old(self).rendezvous_open(),
            final(self).bridge().delivered_events() == old(self).bridge().delivered_events(),
            final(self).bridge().consumer_present() == old(self).bridge().consumer_present(),
            final(self).disconnect_emitted() == (old(self).disconnect_emitted() || old(
                self,
            ).bridge().consumer_present()),
            final(self).has_failed() == (old(self).has_failed() || (!old(
                self,
            ).disconnect_emitted() && !old(self).bridge().consumer_present())),
            old(self).disconnect_emitted() || !old(self).bridge().consumer_present() ==> {
                &&& final(self).bridge().pushed_events() == old(self).bridge().pushed_events()
                &&& final(self).bridge().pending_events() == old(self).bridge().pending_events()
            },
            !old(self).disconnect_emitted() && old(self).bridge().consumer_present() ==> {
                &&& final(self).bridge().pushed_events() == old(
                    self,
                ).bridge().pushed_events().push(ConsoleEvent::Disconnected)
                &&& final(self).bridge().pending_events() == old(
                    self,
                ).bridge().pending_events().push(ConsoleEvent::Disconnected)
            },
    {
        if !self.disconnected {
            proof {
                lemma_disconnect_count_push(
                    self.queue.pushed_events(),
                    ConsoleEvent::Disconnected,
                );
            }
            match self.queue.push(ConsoleEvent::Disconnected) {
                Ok(()) => {
                    self.disconnected = true;
                },
                Err(_) => {
                    self.failed = true;
                },
            }
        }
    }

    /// Consumer side: the consumer end goes away.  Later deliveries fail
    /// with backpressure and the serve loop terminates.
    pub fn drop_consumer(&mut self)
        requires
            old(self).wf(),
        ensures
            final(self).wf(),
            !final(self).bridge().consumer_present(),
            final(self).rendezvous_open() == old(self).rendezvous_open(),
            final(self).has_failed() == old(self).has_failed(),
            final(self).disconnect_emitted() == old(self).disconnect_emitted(),
            final(self).bridge().pushed_events() == old(self).bridge().pushed_events(),
            final(self).bridge().pending_events() == old(self).bridge().pending_events(),
            final(self).bridge().delivered_events() == old(self).bridge().delivered_events(),
    {
        self.queue.drop_consumer();
    }

    /// Whether an external-buffer update is waiting for acknowledgment.
    /// The hosting serve loop blocks on this before dispatching the next
    /// protocol call.
    pub fn rendezvous_pending(&self) -> (b: bool)
        ensures
            b == self.rendezvous_open(),
    {
        self.awaiting_ack
    }

    /// Whether the serve loop must terminate because a delivery failed.
    pub fn should_stop(&self) -> (b: bool)
        ensures
            b == self.has_failed(),
    {
        self.failed
    }
}

/// Law: however a session ends, the consumer observes the terminal
/// disconnect event exactly once.  Everything the consumer has taken out,
/// together with what is still queued, holds exactly one disconnect once
/// the listener has emitted it, and none before.
pub proof fn lemma_exactly_one_disconnect(l: &ConsoleListener)
    requires
        l.wf(),
    ensures
        disconnect_count(l.bridge().delivered_events()) + disconnect_count(
            l.bridge().pending_events(),
        ) == if l.disconnect_emitted() {
            1nat
        } else {
            0nat
        },
{
    lemma_disconnect_count_concat(l.bridge().delivered_events(), l.bridge().pending_events());
}

} // verus!
