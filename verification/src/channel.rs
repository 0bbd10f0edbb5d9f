//! Channel handles.
//!
//! Every attach creates a fresh bidirectional local stream pair.  One end
//! stays here and hosts the session listener; the other end's ownership is
//! transferred to the RPC layer for delivery to the remote peer.  The
//! transferred end has a platform-specific encoding: a plain descriptor
//! where the transport can pass descriptors natively, or a duplicated
//! socket descriptor addressed to the peer's process id where it cannot.
//! Both encode the same "hand the peer the other end" contract.
//!
//! A handle source hands out strictly increasing pair ids, so every attach
//! is proven to yield a handle distinct from every earlier one, and a
//! handle must be closed exactly once.

use vstd::prelude::*;

verus! {

/// How the remote-facing end of a stream pair is handed to the peer.
#[derive(Clone, Copy, Debug, PartialEq, Eq, Structural)]
pub enum TransferMode {
    /// The transport passes the descriptor natively.
    Descriptor,
    /// The descriptor is duplicated into the peer process with this id and
    /// marshaled as data.
    SocketToProcess { peer_pid: u32 },
}

/// The remote-facing end of a stream pair, ready for the registration
/// call.  It carries the id of the pair it belongs to and the encoding it
/// was prepared with.
#[derive(Clone, Copy, Debug, PartialEq, Eq, Structural)]
pub enum HandleTransfer {
    /// A descriptor passed natively by the transport.
    Descriptor { pair: u64 },
    /// A descriptor duplicated into the peer process and sent as data.
    DuplicatedSocket { pair: u64, peer_pid: u32 },
}

impl HandleTransfer {
    /// The id of the stream pair this end belongs to.
    pub open spec fn pair_id(&self) -> u64 {
        match *self {
            HandleTransfer::Descriptor { pair } => pair,
            HandleTransfer::DuplicatedSocket { pair, .. } => pair,
        }
    }

    /// Prepare the remote-facing end of pair `pair` in the given encoding.
    pub fn prepare(pair: u64, mode: TransferMode) -> (t: Self)
        ensures
            t.pair_id() == pair,
            mode == TransferMode::Descriptor ==> t == (HandleTransfer::Descriptor { pair }),
            forall|pid: u32|
                mode == (TransferMode::SocketToProcess { peer_pid: pid }) ==> t
                    == (HandleTransfer::DuplicatedSocket { pair, peer_pid: pid }),
    {
        match mode {
            TransferMode::Descriptor => HandleTransfer::Descriptor { pair },
            TransferMode::SocketToProcess { peer_pid } => HandleTransfer::DuplicatedSocket {
                pair,
                peer_pid,
            },
        }
    }
}

/// The locally retained end of a stream pair.
///
/// It must be closed exactly once: `close` demands an open handle, and a
/// closed handle offers no way back.
#[derive(Debug)]
pub struct ChannelHandle {
    id: u64,
    open: bool,
}

impl ChannelHandle {
    /// The id of the stream pair this handle belongs to.
    pub closed spec fn pair_id(&self) -> u64 {
        self.id
    }

    /// Whether the handle has not been closed yet.
    pub closed spec fn is_open(&self) -> bool {
        self.open
    }

    /// The id of the stream pair this handle belongs to.
    pub fn id(&self) -> (id: u64)
        ensures
            id == self.pair_id(),
    {
        self.id
    }

    /// Close the handle.  Closing is permitted exactly once.
    pub fn close(&mut self)
        requires
            old(self).is_open(),
        ensures
            !final(self).is_open(),
            final(self).pair_id() == old(self).pair_id(),
    {
        self.open = false;
    }
}

/// Source of fresh stream pairs.
///
/// Pair ids are handed out strictly increasingly, so no two pairs created
/// from one source ever share an id.
pub struct HandleSource {
    next_id: u64,
}

impl HandleSource {
    /// The id the next created pair will get; every id handed out so far
    /// is smaller.
    pub closed spec fn next_pair_id(&self) -> u64 {
        self.next_id
    }

    /// A source that has handed out no pair yet.
    pub fn new() -> (s: Self)
        ensures
            s.next_pair_id() == 0,
    {
        HandleSource { next_id: 0 }
    }

    /// Create a fresh stream pair: an open local handle and the
    /// remote-facing end in the requested encoding, both carrying the same
    /// fresh pair id.
    pub fn create_pair(&mut self, mode: TransferMode) -> (r: (ChannelHandle, HandleTransfer))
        requires
            old(self).next_pair_id() < u64::MAX,
        ensures
            r.0.pair_id() == old(self).next_pair_id(),
            r.0.is_open(),
            r.1.pair_id() == old(self).next_pair_id(),
            final(self).next_pair_id() == old(self).next_pair_id() + 1,
            mode == TransferMode::Descriptor ==> r.1 == (HandleTransfer::Descriptor {
                pair: old(self).next_pair_id(),
            }),
    {
        let id = self.next_id;
        self.next_id = self.next_id + 1;
        (ChannelHandle { id, open: true }, HandleTransfer::prepare(id, mode))
    }
}

/// Law: pairs created from one source at different times are distinct.  A
/// handle created while the source's counter stood lower than it does now
/// can never collide with one created later.
pub proof fn lemma_pairs_are_fresh(earlier: &ChannelHandle, src: &HandleSource, later: &ChannelHandle)
    requires
        earlier.pair_id() < src.next_pair_id(),
        later.pair_id() >= src.next_pair_id(),
    ensures
        earlier.pair_id() != later.pair_id(),
{
}

} // verus!
