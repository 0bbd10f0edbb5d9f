//! Core of a display client that attaches to a running virtual machine's
//! console, audio, clipboard and USB-redirection services over an
//! inter-process bus.
//!
//! The bus transport itself is an external collaborator: it delivers
//! method calls and can carry a stream endpoint to the remote peer.  This
//! crate holds the verified protocol core that sits on top of it: the
//! per-service session lifecycle, the typed event streams each service
//! produces, the FIFO dispatch bridge between the listener and its
//! consumer, the rendezvous that protects externally shared frame
//! buffers, and the bookkeeping rules (clipboard grab serials, audio
//! stream ids, USB device entries) that decide which peer messages are
//! applied and which are dropped.  A surrounding binary wires these state
//! machines to real sockets, bus connections and threads.

pub mod audio;
pub mod bridge;
pub mod channel;
pub mod clipboard;
pub mod console;
pub mod error;
pub mod keyboard;
pub mod mouse;
pub mod session;
pub mod usbredir;
