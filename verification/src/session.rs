//! Session lifecycle.
//!
//! A session walks `Detached -> Attaching -> Attached -> Detaching ->
//! Detached`.  Attaching creates a fresh channel pair and hands the
//! remote-facing end out for the registration call on the bus; the call's
//! outcome either completes the attach with a fresh listener or falls back
//! to `Detached` with the error returned synchronously.  From `Attached`,
//! either a consumer-initiated detach or a listener-observed terminal
//! error starts the teardown, which closes the channel handle, releases a
//! possibly blocked serve loop, and guarantees the terminal disconnect
//! event is emitted exactly once before the listener's stream is handed
//! back for draining.
//!
//! A further attach after a detach behaves exactly like a first attach:
//! the new session gets a channel pair with a fresh id and a listener with
//! an empty stream, so nothing leaks from one session into the next.

use vstd::prelude::*;

verus! {

use crate::channel::{ChannelHandle, HandleSource, HandleTransfer, TransferMode};
use crate::console::{
    ConsoleEvent, ConsoleListener, Cursor, MouseSet, Scanout, ScanoutDMABUF, ScanoutMap, Update,
    UpdateDMABUF,
};
use crate::error::Error;

/// Where a session stands in its lifecycle.
#[derive(Clone, Copy, Debug, PartialEq, Eq, Structural)]
pub enum SessionState {
    /// No channel, no listener.
    Detached,
    /// A channel pair exists; the registration call is in flight.
    Attaching,
    /// The listener serves the peer's calls on the retained end.
    Attached,
    /// The handle is closed and the serve loop released; the listener
    /// still holds the event stream for the final drain.
    Detaching,
}

/// Owner of one service session's channel handle and listener.
pub struct Session {
    state: SessionState,
    handle: Option<ChannelHandle>,
    listener: Option<ConsoleListener>,
}

impl Session {
    /// Where the session stands in its lifecycle.
    pub closed spec fn lifecycle(&self) -> SessionState {
        self.state
    }

    /// The retained channel handle, while one exists.
    pub closed spec fn channel(&self) -> Option<ChannelHandle> {
        self.handle
    }

    /// The session listener, while one exists.
    pub closed spec fn console(&self) -> Option<ConsoleListener> {
        self.listener
    }

    /// The lifecycle invariant: each state says exactly which of the two
    /// owned resources exist and in what shape.
    pub open spec fn wf(&self) -> bool {
        match self.lifecycle() {
            SessionState::Detached => self.channel() is None && self.console() is None,
            SessionState::Attaching => {
                &&& self.channel() is Some
                &&& self.channel()->0.is_open()
                &&& self.console() is None
            },
            SessionState::Attached => {
                &&& self.channel() is Some
                &&& self.channel()->0.is_open()
                &&& self.console() is Some
                &&& self.console()->0.wf()
            },
            SessionState::Detaching => {
                &&& self.channel() is Some
                &&& !self.channel()->0.is_open()
                &&& self.console() is Some
                &&& self.console()->0.wf()
                &&& !self.console()->0.rendezvous_open()
            },
        }
    }

    /// A detached session.
    pub fn new() -> (s: Self)
        ensures
            s.wf(),
            s.lifecycle() == SessionState::Detached,
    {
        Session { state: SessionState::Detached, handle: None, listener: None }
    }

    /// Current lifecycle state.
    pub fn state(&self) -> (st: SessionState)
        ensures
            st == self.lifecycle(),
    {
        self.state
    }

    /// Start an attach: create a fresh channel pair and return the
    /// remote-facing end for the registration call.
    ///
    /// Succeeds exactly from `Detached`; any concurrent attach attempt
    /// while a session is already attaching or attached fails with
    /// [`Error::AlreadyAttached`] and changes nothing.
    pub fn begin_attach(&mut self, src: &mut HandleSource, mode: TransferMode) -> (r: Result<
        HandleTransfer,
        Error,
    >)
        requires
            old(self).wf(),
            old(src).next_pair_id() < u64::MAX,
        ensures
            final(self).wf(),
            old(self).lifecycle() != SessionState::Detached ==> {
                &&& r == Result::<HandleTransfer, Error>::Err(Error::AlreadyAttached)
                &&& final(self).lifecycle() == old(self).lifecycle()
                &&& final(self).channel() == old(self).channel()
                &&& final(self).console() == old(self).console()
                &&& final(src).next_pair_id() == old(src).next_pair_id()
            },
            old(self).lifecycle() == SessionState::Detached ==> {
                &&& r is Ok
                &&& r->Ok_0.pair_id() == old(src).next_pair_id()
                &&& final(self).lifecycle() == SessionState::Attaching
                &&& final(self).channel() is Some
                &&& final(self).channel()->0.is_open()
                &&& final(self).channel()->0.pair_id() == old(src).next_pair_id()
                &&& final(self).console() is None
                &&& final(src).next_pair_id() == old(src).next_pair_id() + 1
            },
    {
        match self.state {
            SessionState::Detached => {
                let (local, remote) = src.create_pair(mode);
                self.handle = Some(local);
                self.state = SessionState::Attaching;
                Ok(remote)
            },
            _ => Err(Error::AlreadyAttached),
        }
    }

    /// Finish an attach with the outcome of the establisher's work: the
    /// pair hand-off and registration call on the bus.
    ///
    /// On success the session is attached and hosts a fresh listener with
    /// an empty event stream.  On failure ([`Error::Transport`] if the
    /// local pair could not be materialized, [`Error::Rpc`] if the
    /// registration call failed) the handle is closed, the session falls
    /// back to `Detached`, and the error is returned to the caller.
    pub fn complete_attach(&mut self, outcome: Result<(), Error>) -> (r: Result<(), Error>)
        requires
            old(self).wf(),
            old(self).lifecycle() == SessionState::Attaching,
        ensures
            final(self).wf(),
            outcome is Ok ==> {
                &&& r is Ok
                &&& final(self).lifecycle() == SessionState::Attached
                &&& final(self).channel() == old(self).channel()
                &&& final(self).console() is Some
                &&& final(self).console()->0.bridge().pushed_events() === Seq::empty()
                &&& final(self).console()->0.bridge().pending_events() === Seq::empty()
                &&& final(self).console()->0.bridge().delivered_events() === Seq::empty()
                &&& final(self).console()->0.bridge().consumer_present()
                &&& !final(self).console()->0.rendezvous_open()
                &&& !final(self).console()->0.has_failed()
                &&& !final(self).console()->0.disconnect_emitted()
            },
            outcome is Err ==> {
                &&& r == outcome
                &&& final(self).lifecycle() == SessionState::Detached
                &&& final(self).channel() is None
                &&& final(self).console() is None
            },
    {
        match outcome {
            Ok(()) => {
                self.listener = Some(ConsoleListener::new());
                self.state = SessionState::Attached;
                Ok(())
            },
            Err(e) => {
                if let Some(h) = &mut self.handle {
                    h.close();
                }
                self.handle = None;
                self.state = SessionState::Detached;
                Err(e)
            },
        }
    }

    /// Start the teardown of an attached session.
    ///
    /// Both detach initiations funnel through here: a consumer-initiated
    /// detach, and a listener-observed terminal error (see
    /// [`Self::on_channel_closed`]).  The handle is closed — so a listener
    /// blocked in a read fails promptly — and a pending rendezvous is
    /// acknowledged on the aborted consumer's behalf, so a serve loop
    /// blocked on the rendezvous can exit even if the consumer no longer
    /// cooperates.
    pub fn begin_detach(&mut self)
        requires
            old(self).wf(),
            old(self).lifecycle() == SessionState::Attached,
        ensures
            final(self).wf(),
            final(self).lifecycle() == SessionState::Detaching,
            final(self).channel() is Some,
            !final(self).channel()->0.is_open(),
            final(self).channel()->0.pair_id() == old(self).channel()->0.pair_id(),
            final(self).console() is Some,
            !final(self).console()->0.rendezvous_open(),
            final(self).console()->0.bridge() == old(self).console()->0.bridge(),
            final(self).console()->0.has_failed() == old(self).console()->0.has_failed(),
            final(self).console()->0.disconnect_emitted() == old(
                self,
            ).console()->0.disconnect_emitted(),
    {
        if let Some(h) = &mut self.handle {
            h.close();
        }
        if let Some(l) = &mut self.listener {
            l.acknowledge();
        }
        self.state = SessionState::Detaching;
    }

    /// Teardown entry for a peer-initiated end: the serve loop observed
    /// the underlying stream end or break.  The session is torn down the
    /// same way as for a consumer-initiated detach; the loss surfaces to
    /// the consumer only as the terminal disconnect event, never as an
    /// error thrown across the thread boundary.
    pub fn on_channel_closed(&mut self)
        requires
            old(self).wf(),
            old(self).lifecycle() == SessionState::Attached,
        ensures
            final(self).wf(),
            final(self).lifecycle() == SessionState::Detaching,
            final(self).channel() is Some,
            !final(self).channel()->0.is_open(),
            final(self).console() is Some,
            !final(self).console()->0.rendezvous_open(),
            final(self).console()->0.bridge() == old(self).console()->0.bridge(),
            final(self).console()->0.disconnect_emitted() == old(
                self,
            ).console()->0.disconnect_emitted(),
    {
        self.begin_detach();
    }

    /// Finish the teardown, once the serve loop has stopped: emit the
    /// synthetic disconnect event if the listener did not already, release
    /// the closed handle, and hand the listener's stream back to the
    /// consumer for the final drain.  The session is detached again and
    /// may be re-attached.
    pub fn finish_detach(&mut self) -> (l: ConsoleListener)
        requires
            old(self).wf(),
            old(self).lifecycle() == SessionState::Detaching,
        ensures
            final(self).wf(),
            final(self).lifecycle() == SessionState::Detached,
            final(self).channel() is None,
            final(self).console() is None,
            l.wf(),
            !l.rendezvous_open(),
            l.disconnect_emitted() == (old(self).console()->0.disconnect_emitted() || old(
                self,
            ).console()->0.bridge().consumer_present()),
            l.bridge().delivered_events() == old(self).console()->0.bridge().delivered_events(),
            old(self).console()->0.disconnect_emitted() || !old(
                self,
            ).console()->0.bridge().consumer_present() ==> l.bridge().pending_events() == old(
                self,
            ).console()->0.bridge().pending_events(),
            !old(self).console()->0.disconnect_emitted() && old(
                self,
            ).console()->0.bridge().consumer_present() ==> l.bridge().pending_events() == old(
                self,
            ).console()->0.bridge().pending_events().push(
                crate::console::ConsoleEvent::Disconnected,
            ),
    {
        let mut l = self.listener.take().unwrap();
        l.disconnect();
        self.handle = None;
        self.state = SessionState::Detached;
        l
    }

    /// What every relayed protocol call leaves untouched: the lifecycle
    /// state and the channel handle of an attached session.
    pub open spec fn attached_frame(pre: Session, post: Session) -> bool {
        &&& post.lifecycle() == SessionState::Attached
        &&& post.channel() == pre.channel()
        &&& post.console() is Some
    }

    /// Peer protocol call, relayed by the serve loop: full scanout.
    pub fn on_scanout(&mut self, s: Scanout) -> (r: Result<(), Error>)
        requires
            old(self).wf(),
            old(self).lifecycle() == SessionState::Attached,
            !old(self).console()->0.rendezvous_open(),
        ensures
            final(self).wf(),
            Self::attached_frame(*old(self), *final(self)),
            ConsoleListener::delivers(
                old(self).console()->0,
                final(self).console()->0,
                ConsoleEvent::Scanout(s),
                r,
            ),
            !final(self).console()->0.rendezvous_open(),
    {
        self.listener.as_mut().unwrap().scanout(s)
    }

    /// Peer protocol call: partial update with inline pixels.
    pub fn on_update(&mut self, u: Update) -> (r: Result<(), Error>)
        requires
            old(self).wf(),
            old(self).lifecycle() == SessionState::Attached,
            !old(self).console()->0.rendezvous_open(),
        ensures
            final(self).wf(),
            Self::attached_frame(*old(self), *final(self)),
            ConsoleListener::delivers(
                old(self).console()->0,
                final(self).console()->0,
                ConsoleEvent::Update(u),
                r,
            ),
            !final(self).console()->0.rendezvous_open(),
    {
        self.listener.as_mut().unwrap().update(u)
    }

    /// Peer protocol call: scanout held in external memory.
    pub fn on_scanout_dmabuf(&mut self, s: ScanoutDMABUF) -> (r: Result<(), Error>)
        requires
            old(self).wf(),
            old(self).lifecycle() == SessionState::Attached,
            !old(self).console()->0.rendezvous_open(),
        ensures
            final(self).wf(),
            Self::attached_frame(*old(self), *final(self)),
            ConsoleListener::delivers(
                old(self).console()->0,
                final(self).console()->0,
                ConsoleEvent::ScanoutDMABUF(s),
                r,
            ),
            !final(self).console()->0.rendezvous_open(),
    {
        self.listener.as_mut().unwrap().scanout_dmabuf(s)
    }

    /// Peer protocol call: scanout held in a memory-mapped file.
    pub fn on_scanout_map(&mut self, s: ScanoutMap) -> (r: Result<(), Error>)
        requires
            old(self).wf(),
            old(self).lifecycle() == SessionState::Attached,
            !old(self).console()->0.rendezvous_open(),
        ensures
            final(self).wf(),
            Self::attached_frame(*old(self), *final(self)),
            ConsoleListener::delivers(
                old(self).console()->0,
                final(self).console()->0,
                ConsoleEvent::ScanoutMap(s),
                r,
            ),
            !final(self).console()->0.rendezvous_open(),
    {
        self.listener.as_mut().unwrap().scanout_map(s)
    }

    /// Peer protocol call: update against the external-memory scanout.
    /// With a live consumer this opens the rendezvous; the serve loop must
    /// not dispatch further calls until the consumer acknowledges.
    pub fn on_update_dmabuf(&mut self, u: UpdateDMABUF) -> (r: Result<(), Error>)
        requires
            old(self).wf(),
            old(self).lifecycle() == SessionState::Attached,
            !old(self).console()->0.rendezvous_open(),
        ensures
            final(self).wf(),
            Self::attached_frame(*old(self), *final(self)),
            ConsoleListener::delivers(
                old(self).console()->0,
                final(self).console()->0,
                ConsoleEvent::UpdateDMABUF(u),
                r,
            ),
            final(self).console()->0.rendezvous_open() == old(
                self,
            ).console()->0.bridge().consumer_present(),
    {
        self.listener.as_mut().unwrap().update_dmabuf(u)
    }

    /// Peer protocol call: pointer-position hint.
    pub fn on_mouse_set(&mut self, m: MouseSet) -> (r: Result<(), Error>)
        requires
            old(self).wf(),
            old(self).lifecycle() == SessionState::Attached,
            !old(self).console()->0.rendezvous_open(),
        ensures
            final(self).wf(),
            Self::attached_frame(*old(self), *final(self)),
            ConsoleListener::delivers(
                old(self).console()->0,
                final(self).console()->0,
                ConsoleEvent::MouseSet(m),
                r,
            ),
            !final(self).console()->0.rendezvous_open(),
    {
        self.listener.as_mut().unwrap().mouse_set(m)
    }

    /// Peer protocol call: cursor shape definition.
    pub fn on_cursor_define(&mut self, c: Cursor) -> (r: Result<(), Error>)
        requires
            old(self).wf(),
            old(self).lifecycle() == SessionState::Attached,
            !old(self).console()->0.rendezvous_open(),
        ensures
            final(self).wf(),
            Self::attached_frame(*old(self), *final(self)),
            ConsoleListener::delivers(
                old(self).console()->0,
                final(self).console()->0,
                ConsoleEvent::CursorDefine(c),
                r,
            ),
            !final(self).console()->0.rendezvous_open(),
    {
        self.listener.as_mut().unwrap().cursor_define(c)
    }

    /// Consumer side: take the oldest pending event of the attached
    /// session, if any.
    pub fn poll_event(&mut self) -> (r: Option<ConsoleEvent>)
        requires
            old(self).wf(),
            old(self).lifecycle() == SessionState::Attached,
        ensures
            final(self).wf(),
            Self::attached_frame(*old(self), *final(self)),
            final(self).console()->0.rendezvous_open() == old(self).console()->0.rendezvous_open(),
            final(self).console()->0.bridge().pushed_events() == old(
                self,
            ).console()->0.bridge().pushed_events(),
            old(self).console()->0.bridge().pending_events().len() == 0 ==> {
                &&& r is None
                &&& final(self).console()->0.bridge().pending_events() == old(
                    self,
                ).console()->0.bridge().pending_events()
                &&& final(self).console()->0.bridge().delivered_events() == old(
                    self,
                ).console()->0.bridge().delivered_events()
            },
            old(self).console()->0.bridge().pending_events().len() > 0 ==> {
                &&& r == Some(old(self).console()->0.bridge().pending_events()[0])
                &&& final(self).console()->0.bridge().pending_events() == old(
                    self,
                ).console()->0.bridge().pending_events().drop_first()
                &&& final(self).console()->0.bridge().delivered_events() == old(
                    self,
                ).console()->0.bridge().delivered_events().push(
                    old(self).console()->0.bridge().pending_events()[0],
                )
            },
    {
        self.listener.as_mut().unwrap().poll_event()
    }

    /// Consumer side: acknowledge the pending external-buffer update and
    /// let the blocked serve loop return control to the peer.
    pub fn acknowledge(&mut self)
        requires
            old(self).wf(),
            old(self).lifecycle() == SessionState::Attached,
        ensures
            final(self).wf(),
            Self::attached_frame(*old(self), *final(self)),
            !final(self).console()->0.rendezvous_open(),
            final(self).console()->0.bridge() == old(self).console()->0.bridge(),
    {
        self.listener.as_mut().unwrap().acknowledge()
    }

    /// Consumer side: the consumer end went away without detaching.
    /// Later deliveries fail with backpressure, which the serve loop
    /// observes through [`Self::serve_should_stop`].
    pub fn consumer_gone(&mut self)
        requires
            old(self).wf(),
            old(self).lifecycle() == SessionState::Attached,
        ensures
            final(self).wf(),
            Self::attached_frame(*old(self), *final(self)),
            !final(self).console()->0.bridge().consumer_present(),
            final(self).console()->0.rendezvous_open() == old(self).console()->0.rendezvous_open(),
            final(self).console()->0.bridge().pushed_events() == old(
                self,
            ).console()->0.bridge().pushed_events(),
            final(self).console()->0.bridge().pending_events() == old(
                self,
            ).console()->0.bridge().pending_events(),
            final(self).console()->0.bridge().delivered_events() == old(
                self,
            ).console()->0.bridge().delivered_events(),
    {
        self.listener.as_mut().unwrap().drop_consumer()
    }

    /// Whether the serve loop must terminate because a delivery failed.
    pub fn serve_should_stop(&self) -> (b: bool)
        requires
            self.wf(),
            self.lifecycle() == SessionState::Attached,
        ensures
            b == self.console()->0.has_failed(),
    {
        self.listener.as_ref().unwrap().should_stop()
    }

    /// Whether an external-buffer update is waiting for acknowledgment.
    pub fn rendezvous_pending(&self) -> (b: bool)
        requires
            self.wf(),
            self.lifecycle() == SessionState::Attached,
        ensures
            b == self.console()->0.rendezvous_open(),
    {
        self.listener.as_ref().unwrap().rendezvous_pending()
    }
}

} // verus!
