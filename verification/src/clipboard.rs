//! Clipboard service.
//!
//! The peer and the consumer both announce clipboard ownership through
//! grab messages, each carrying a serial number that acts as a logical
//! clock per selection.  Messages can arrive out of order; the tracker
//! applies a grab only when its serial strictly exceeds the last applied
//! serial for that selection, and drops it otherwise — equality is not
//! enough, since a grab must prove it is newer.  Registering or
//! unregistering the session resets every selection's clock to zero.
//!
//! A request for clipboard data carries a single-use reply slot: the
//! responder fulfills it exactly once, with either one `(mime, bytes)`
//! result or an error.

use vstd::prelude::*;

verus! {

use crate::error::Error;

/// Which system selection a clipboard message is about.
#[derive(Clone, Copy, Debug, PartialEq, Eq, Structural)]
pub enum ClipboardSelection {
    Clipboard,
    Primary,
    Secondary,
}

/// One event of the clipboard stream.
#[derive(Clone, Debug)]
pub enum ClipboardEvent {
    Register,
    Unregister,
    Grab { selection: ClipboardSelection, serial: u32, mimes: Vec<String> },
    Release { selection: ClipboardSelection },
    Request { selection: ClipboardSelection, mimes: Vec<String> },
}

/// The serial slot a selection is tracked under, if it is supported.
/// The secondary selection has no slot and its grabs are never applied.
pub open spec fn selection_slot(sel: ClipboardSelection) -> Option<int> {
    match sel {
        ClipboardSelection::Clipboard => Some(0int),
        ClipboardSelection::Primary => Some(1int),
        ClipboardSelection::Secondary => None,
    }
}

/// Grab-serial bookkeeping for one clipboard session.
pub struct ClipboardTracker {
    registered: bool,
    clipboard_serial: u32,
    primary_serial: u32,
}

impl ClipboardTracker {
    /// Whether the session is registered with the peer.
    pub closed spec fn is_registered(&self) -> bool {
        self.registered
    }

    /// The last applied grab serial of the given slot.
    pub closed spec fn serial_of_slot(&self, slot: int) -> u32 {
        if slot == 0 {
            self.clipboard_serial
        } else {
            self.primary_serial
        }
    }

    /// Whether a grab must be applied: its selection is supported and its
    /// serial strictly exceeds the last applied one.
    pub open spec fn grab_applies(&self, sel: ClipboardSelection, serial: u32) -> bool {
        match selection_slot(sel) {
            Some(slot) => serial > self.serial_of_slot(slot),
            None => false,
        }
    }

    /// A fresh tracker: unregistered, every serial clock at zero.
    pub fn new() -> (t: Self)
        ensures
            !t.is_registered(),
            t.serial_of_slot(0) == 0,
            t.serial_of_slot(1) == 0,
    {
        ClipboardTracker { registered: false, clipboard_serial: 0, primary_serial: 0 }
    }

    /// The session registered; every selection's clock starts over.
    pub fn register(&mut self)
        ensures
            final(self).is_registered(),
            final(self).serial_of_slot(0) == 0,
            final(self).serial_of_slot(1) == 0,
    {
        self.registered = true;
        self.clipboard_serial = 0;
        self.primary_serial = 0;
    }

    /// The session unregistered; every selection's clock starts over.
    pub fn unregister(&mut self)
        ensures
            !final(self).is_registered(),
            final(self).serial_of_slot(0) == 0,
            final(self).serial_of_slot(1) == 0,
    {
        self.registered = false;
        self.clipboard_serial = 0;
        self.primary_serial = 0;
    }

    /// What deciding one grab message does: it is applied — and its serial
    /// becomes the selection's new clock — exactly when the selection is
    /// supported and the serial strictly exceeds the last applied one; a
    /// dropped grab changes nothing.
    pub open spec fn grab_step(
        pre: ClipboardTracker,
        post: ClipboardTracker,
        selection: ClipboardSelection,
        serial: u32,
        applied: bool,
    ) -> bool {
        &&& applied == pre.grab_applies(selection, serial)
        &&& post.is_registered() == pre.is_registered()
        &&& (applied ==> post.serial_of_slot(selection_slot(selection)->0) == serial)
        &&& forall|slot: int|
            0 <= slot <= 1 && (!applied || slot != selection_slot(selection)->0)
                ==> post.serial_of_slot(slot) == pre.serial_of_slot(slot)
    }

    /// Decide one grab message.
    ///
    /// The grab is applied — and its serial becomes the selection's new
    /// clock — exactly when the selection is supported and the serial
    /// strictly exceeds the last applied one.  A grab with an older or
    /// equal serial, or for the unsupported secondary selection, is
    /// dropped and changes nothing.
    pub fn grab(&mut self, selection: ClipboardSelection, serial: u32) -> (applied: bool)
        ensures
            Self::grab_step(*old(self), *final(self), selection, serial, applied),
    {
        match selection {
            ClipboardSelection::Clipboard => {
                if serial > self.clipboard_serial {
                    self.clipboard_serial = serial;
                    true
                } else {
                    false
                }
            },
            ClipboardSelection::Primary => {
                if serial > self.primary_serial {
                    self.primary_serial = serial;
                    true
                } else {
                    false
                }
            },
            ClipboardSelection::Secondary => false,
        }
    }

    /// Announce a grab of our own for a selection: the announcement goes
    /// out under the selection's current serial, and the local clock
    /// advances past it, so the next local grab proves it is newer and a
    /// reflected copy of this one is dropped.
    pub fn next_local_grab(&mut self, selection: ClipboardSelection) -> (r: Option<u32>)
        requires
            old(self).serial_of_slot(0) < u32::MAX,
            old(self).serial_of_slot(1) < u32::MAX,
        ensures
            final(self).is_registered() == old(self).is_registered(),
            match selection_slot(selection) {
                Some(slot) => {
                    &&& r == Some(old(self).serial_of_slot(slot))
                    &&& final(self).serial_of_slot(slot) == old(self).serial_of_slot(slot) + 1
                    &&& forall|other: int|
                        0 <= other <= 1 && other != slot ==> final(self).serial_of_slot(other)
                            == old(self).serial_of_slot(other)
                },
                None => {
                    &&& r is None
                    &&& final(self).serial_of_slot(0) == old(self).serial_of_slot(0)
                    &&& final(self).serial_of_slot(1) == old(self).serial_of_slot(1)
                },
            },
    {
        match selection {
            ClipboardSelection::Clipboard => {
                let serial = self.clipboard_serial;
                self.clipboard_serial = serial + 1;
                Some(serial)
            },
            ClipboardSelection::Primary => {
                let serial = self.primary_serial;
                self.primary_serial = serial + 1;
                Some(serial)
            },
            ClipboardSelection::Secondary => None,
        }
    }

    /// What applying one incoming clipboard protocol call does, by call
    /// kind: register and unregister reset every selection's clock; a grab
    /// is applied or dropped by its serial; release and request carry no
    /// serial and leave the clocks alone.
    pub open spec fn event_step(
        pre: ClipboardTracker,
        post: ClipboardTracker,
        e: ClipboardEvent,
        applied: bool,
    ) -> bool {
        match e {
            ClipboardEvent::Register => {
                &&& applied
                &&& post.is_registered()
                &&& post.serial_of_slot(0) == 0
                &&& post.serial_of_slot(1) == 0
            },
            ClipboardEvent::Unregister => {
                &&& applied
                &&& !post.is_registered()
                &&& post.serial_of_slot(0) == 0
                &&& post.serial_of_slot(1) == 0
            },
            ClipboardEvent::Grab { selection, serial, .. } => Self::grab_step(
                pre,
                post,
                selection,
                serial,
                applied,
            ),
            ClipboardEvent::Release { .. } => {
                &&& applied
                &&& post.is_registered() == pre.is_registered()
                &&& post.serial_of_slot(0) == pre.serial_of_slot(0)
                &&& post.serial_of_slot(1) == pre.serial_of_slot(1)
            },
            ClipboardEvent::Request { .. } => {
                &&& applied
                &&& post.is_registered() == pre.is_registered()
                &&& post.serial_of_slot(0) == pre.serial_of_slot(0)
                &&& post.serial_of_slot(1) == pre.serial_of_slot(1)
            },
        }
    }

    /// Apply one incoming clipboard protocol call to the bookkeeping.
    /// The result says whether the call takes effect — only an
    /// out-of-order or unsupported grab does not.
    pub fn apply_event(&mut self, e: &ClipboardEvent) -> (applied: bool)
        ensures
            Self::event_step(*old(self), *final(self), *e, applied),
    {
        match e {
            ClipboardEvent::Register => {
                self.register();
                true
            },
            ClipboardEvent::Unregister => {
                self.unregister();
                true
            },
            ClipboardEvent::Grab { selection, serial, .. } => self.grab(*selection, *serial),
            ClipboardEvent::Release { .. } => true,
            ClipboardEvent::Request { .. } => true,
        }
    }

    /// Whether grabs and releases of this selection are supported at all.
    pub fn selection_supported(&self, selection: ClipboardSelection) -> (b: bool)
        ensures
            b == (selection_slot(selection) is Some),
    {
        match selection {
            ClipboardSelection::Clipboard => true,
            ClipboardSelection::Primary => true,
            ClipboardSelection::Secondary => false,
        }
    }

    /// The last applied grab serial for a selection, if it is supported.
    pub fn last_applied_serial(&self, selection: ClipboardSelection) -> (r: Option<u32>)
        ensures
            match selection_slot(selection) {
                Some(slot) => r == Some(self.serial_of_slot(slot)),
                None => r is None,
            },
    {
        match selection {
            ClipboardSelection::Clipboard => Some(self.clipboard_serial),
            ClipboardSelection::Primary => Some(self.primary_serial),
            ClipboardSelection::Secondary => None,
        }
    }
}

/// Law: the grab clock never moves backwards.  Whatever one grab message
/// does to the tracker, every selection's last applied serial afterwards
/// is at least what it was before.
pub proof fn lemma_serials_monotonic(
    pre: &ClipboardTracker,
    post: &ClipboardTracker,
    sel: ClipboardSelection,
    serial: u32,
    applied: bool,
)
    requires
        ClipboardTracker::grab_step(*pre, *post, sel, serial, applied),
    ensures
        post.serial_of_slot(0) >= pre.serial_of_slot(0),
        post.serial_of_slot(1) >= pre.serial_of_slot(1),
{
}

/// A single-use reply slot for one clipboard data request.
///
/// The responder fulfills it exactly once, with one `(mime, bytes)` result
/// or an error; afterwards the slot only hands that reply out.
pub struct ReplySlot {
    reply: Option<Result<(String, Vec<u8>), Error>>,
}

impl ReplySlot {
    /// The reply placed in the slot so far, if any.
    pub closed spec fn stored(&self) -> Option<Result<(String, Vec<u8>), Error>> {
        self.reply
    }

    /// An empty slot, waiting for its one reply.
    pub fn new() -> (s: Self)
        ensures
            s.stored() is None,
    {
        ReplySlot { reply: None }
    }

    /// Whether the reply has arrived.
    pub fn is_fulfilled(&self) -> (b: bool)
        ensures
            b == (self.stored() is Some),
    {
        self.reply.is_some()
    }

    /// Place the one reply.  A slot accepts a reply exactly once.
    pub fn fulfill(&mut self, reply: Result<(String, Vec<u8>), Error>)
        requires
            old(self).stored() is None,
        ensures
            final(self).stored() == Some(reply),
    {
        self.reply = Some(reply);
    }

    /// Take the reply out, once it has arrived.
    pub fn take(&mut self) -> (r: Result<(String, Vec<u8>), Error>)
        requires
            old(self).stored() is Some,
        ensures
            r == old(self).stored()->0,
            final(self).stored() is None,
    {
        self.reply.take().unwrap()
    }
}

} // verus!
