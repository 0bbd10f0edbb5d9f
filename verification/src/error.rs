//! Error taxonomy of the session core.
//!
//! Errors during an attach attempt are returned synchronously to the
//! caller; errors on an already attached session are converted into the
//! terminal disconnect event instead, so the consumer only ever polls a
//! queue.

use vstd::prelude::*;

verus! {

/// What can go wrong in the session core.
#[derive(Clone, Copy, Debug, PartialEq, Eq, Structural)]
pub enum Error {
    /// Creating the local stream pair failed; fatal to the single attach
    /// attempt, retryable by the caller.
    Transport,
    /// A registration, property or method call on the bus failed.
    Rpc,
    /// The peer referenced an unknown or expired id; the event is ignored,
    /// never fatal to the session.
    ProtocolViolation,
    /// The listener's underlying stream ended or broke; triggers teardown
    /// and the synthetic disconnect event.
    ChannelClosed,
    /// The bridge could not enqueue because the consumer side is gone;
    /// terminates the listener serve loop.
    Backpressure,
    /// An attach was requested while a session was already attaching or
    /// attached.
    AlreadyAttached,
    /// No remote channel is free for another redirected device.
    NoFreeChannel,
}

impl Error {
    /// A human-readable description of the error.
    pub fn message(&self) -> (r: String)
        ensures
            r@.len() > 0,
    {
        match self {
            Error::Transport => {
                proof {
                    reveal_strlit("creating the local stream pair failed");
                }
                "creating the local stream pair failed".to_owned()
            },
            Error::Rpc => {
                proof {
                    reveal_strlit("a call on the bus failed");
                }
                "a call on the bus failed".to_owned()
            },
            Error::ProtocolViolation => {
                proof {
                    reveal_strlit("the peer referenced an unknown or expired id");
                }
                "the peer referenced an unknown or expired id".to_owned()
            },
            Error::ChannelClosed => {
                proof {
                    reveal_strlit("the session channel ended or broke");
                }
                "the session channel ended or broke".to_owned()
            },
            Error::Backpressure => {
                proof {
                    reveal_strlit("the consumer side of the bridge is gone");
                }
                "the consumer side of the bridge is gone".to_owned()
            },
            Error::AlreadyAttached => {
                proof {
                    reveal_strlit("a session is already attached");
                }
                "a session is already attached".to_owned()
            },
            Error::NoFreeChannel => {
                proof {
                    reveal_strlit("there are no free USB channels");
                }
                "there are no free USB channels".to_owned()
            },
        }
    }
}

} // verus!
