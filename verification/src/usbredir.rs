//! USB redirection sessions.
//!
//! Each redirected device is keyed by its bus number and address and owns
//! one background bridging session: two loops move bytes between the
//! remote channel and the local device until a shutdown flag is observed
//! or an I/O error occurs on either side.  The registry enforces at most
//! one live session per device, attach idempotence, and the free-channel
//! count (remote slots minus live entries) announced to watchers on every
//! change.
//!
//! Per device the session walks `Bridging -> ShuttingDown -> gone`:
//! shutdown sets the flag and signals the wake channel; only after both
//! loops have been joined is the entry reaped, so no loop outlives its
//! map entry.  Any I/O failure on either direction shuts down both
//! directions at once — no partial-bridge state exists.

use vstd::prelude::*;

verus! {

use crate::error::Error;

/// A redirected device's identity on its bus.
#[derive(Clone, Copy, Debug, PartialEq, Eq, Hash, Structural)]
pub struct DeviceKey {
    pub bus: u8,
    pub address: u8,
}

/// Where a device's bridging session stands.
#[derive(Clone, Copy, Debug, PartialEq, Eq, Structural)]
pub enum BridgeState {
    /// Both bridging loops are running.
    Bridging,
    /// The shutdown flag is set and the wake channel signaled; the loops
    /// are winding down and the entry waits to be reaped.
    ShuttingDown,
}

/// One device's live session entry.
#[derive(Clone, Copy, Debug, PartialEq, Eq, Structural)]
pub struct DeviceEntry {
    pub key: DeviceKey,
    pub state: BridgeState,
}

/// The registry of redirected devices.
pub struct UsbRedir {
    entries: Vec<DeviceEntry>,
    slots: usize,
    announced: Option<usize>,
}

impl UsbRedir {
    /// The live entries, in attach order.
    pub closed spec fn entries_seq(&self) -> Seq<DeviceEntry> {
        self.entries@
    }

    /// How many remote channels exist in total.
    pub closed spec fn slot_count(&self) -> usize {
        self.slots
    }

    /// The latest free-channel count announced to watchers, if any
    /// change happened yet.
    pub closed spec fn announced_free(&self) -> Option<usize> {
        self.announced
    }

    /// Whether a device currently has an entry.
    pub open spec fn has_entry(&self, key: DeviceKey) -> bool {
        exists|i: int| 0 <= i < self.entries_seq().len() && self.entries_seq()[i].key == key
    }

    /// The index of a device's entry.
    pub open spec fn index_of(&self, key: DeviceKey) -> int {
        choose|i: int| 0 <= i < self.entries_seq().len() && self.entries_seq()[i].key == key
    }

    /// The state of a device's entry.
    pub open spec fn state_of(&self, key: DeviceKey) -> BridgeState {
        self.entries_seq()[self.index_of(key)].state
    }

    /// How many remote channels are free: total slots minus live entries.
    pub open spec fn free_channels(&self) -> int {
        self.slot_count() - self.entries_seq().len()
    }

    /// The registry's invariant: one entry per key, never more entries
    /// than remote channels.
    pub open spec fn wf(&self) -> bool {
        &&& forall|i: int, j: int|
            0 <= i < j < self.entries_seq().len() ==> self.entries_seq()[i].key
                != self.entries_seq()[j].key
        &&& self.entries_seq().len() <= self.slot_count()
    }

    /// A registry over the given number of remote channels, with no
    /// device attached.
    pub fn new(slots: usize) -> (r: Self)
        ensures
            r.wf(),
            r.entries_seq() === Seq::<DeviceEntry>::empty(),
            r.slot_count() == slots,
            r.announced_free() is None,
    {
        UsbRedir { entries: Vec::new(), slots, announced: None }
    }

    /// The index of a device's entry, if it has one.
    fn find(&self, key: DeviceKey) -> (r: Option<usize>)
        ensures
            r is Some ==> {
                &&& 0 <= r->0 < self.entries_seq().len()
                &&& self.entries_seq()[r->0 as int].key == key
                &&& self.has_entry(key)
            },
            r is None ==> !self.has_entry(key),
    {
        let mut i: usize = 0;
        while i < self.entries.len()
            invariant
                i <= self.entries_seq().len(),
                forall|k: int| 0 <= k < i ==> self.entries_seq()[k].key != key,
            decreases self.entries_seq().len() - i,
        {
            if self.entries[i].key == key {
                return Some(i);
            }
            i = i + 1;
        }
        None
    }

    /// Whether a device is currently attached.
    pub fn is_device_connected(&self, key: DeviceKey) -> (b: bool)
        ensures
            b == self.has_entry(key),
    {
        self.find(key).is_some()
    }

    /// How many remote channels are free.
    pub fn n_free_channels(&self) -> (n: usize)
        requires
            self.wf(),
        ensures
            n == self.free_channels(),
    {
        self.slots - self.entries.len()
    }

    /// The latest free-channel count announced to watchers.
    pub fn latest_announcement(&self) -> (r: Option<usize>)
        ensures
            r == self.announced_free(),
    {
        self.announced
    }

    /// Attach or detach one device, mirroring the consumer's switch.
    ///
    /// Attaching an already attached device is a no-op that still reports
    /// success: exactly one entry and one pair of bridging loops exist
    /// per key, no matter how often attach is requested.  Attaching a new
    /// device claims a free channel, or fails with
    /// [`Error::NoFreeChannel`] if none is left; the new free-channel
    /// count is announced.  Detaching an attached device moves its
    /// session to [`BridgeState::ShuttingDown`]; the caller signals the
    /// wake channel, joins both loops, and then calls [`Self::reap`].
    /// Detaching an absent device is a no-op.
    pub fn set_device_state(&mut self, key: DeviceKey, state: bool) -> (r: Result<bool, Error>)
        requires
            old(self).wf(),
        ensures
            final(self).wf(),
            final(self).slot_count() == old(self).slot_count(),
            state && old(self).has_entry(key) ==> {
                &&& r == Result::<bool, Error>::Ok(true)
                &&& final(self).entries_seq() == old(self).entries_seq()
                &&& final(self).announced_free() == old(self).announced_free()
            },
            state && !old(self).has_entry(key) && old(self).free_channels() > 0 ==> {
                &&& r == Result::<bool, Error>::Ok(true)
                &&& final(self).entries_seq() == old(self).entries_seq().push(
                    DeviceEntry { key, state: BridgeState::Bridging },
                )
                &&& final(self).announced_free() == Some(
                    (old(self).free_channels() - 1) as usize,
                )
            },
            state && !old(self).has_entry(key) && old(self).free_channels() == 0 ==> {
                &&& r == Result::<bool, Error>::Err(Error::NoFreeChannel)
                &&& final(self).entries_seq() == old(self).entries_seq()
                &&& final(self).announced_free() == old(self).announced_free()
            },
            !state && old(self).has_entry(key) ==> {
                &&& r == Result::<bool, Error>::Ok(false)
                &&& final(self).has_entry(key)
                &&& final(self).state_of(key) == BridgeState::ShuttingDown
                &&& final(self).entries_seq().len() == old(self).entries_seq().len()
                &&& (forall|o: DeviceKey|
                    o != key ==> final(self).has_entry(o) == old(self).has_entry(o))
                &&& final(self).announced_free() == old(self).announced_free()
            },
            !state && !old(self).has_entry(key) ==> {
                &&& r == Result::<bool, Error>::Ok(false)
                &&& final(self).entries_seq() == old(self).entries_seq()
                &&& final(self).announced_free() == old(self).announced_free()
            },
    {
        let found = self.find(key);
        match (state, found) {
            (true, Some(_)) => Ok(true),
            (true, None) => {
                if self.entries.len() >= self.slots {
                    return Err(Error::NoFreeChannel);
                }
                self.entries.push(DeviceEntry { key, state: BridgeState::Bridging });
                let nfree = self.slots - self.entries.len();
                self.announced = Some(nfree);
                proof {
                    let pre = old(self).entries_seq();
                    let post = self.entries_seq();
                    assert forall|i: int, j: int| 0 <= i < j < post.len() implies post[i].key
                        != post[j].key by {
                        if j == post.len() - 1 {
                            assert(post[i] == pre[i]);
                        }
                    }
                }
                Ok(true)
            },
            (false, Some(i)) => {
                let e = self.entries[i];
                self.entries[i] = DeviceEntry { key: e.key, state: BridgeState::ShuttingDown };
                proof {
                    let pre = old(self).entries_seq();
                    let post = self.entries_seq();
                    assert(post =~= pre.update(i as int, DeviceEntry {
                        key,
                        state: BridgeState::ShuttingDown,
                    }));
                    assert(post[i as int].key == key);
                    assert(final(self).has_entry(key));
                    assert(final(self).state_of(key) == BridgeState::ShuttingDown) by {
                        let w = final(self).index_of(key);
                        assert(post[w].key == key);
                        if w != i {
                            assert(pre[w].key == key && pre[i as int].key == key);
                        }
                    }
                    assert forall|o: DeviceKey| o != key implies final(self).has_entry(o) == old(
                        self,
                    ).has_entry(o) by {
                        if old(self).has_entry(o) {
                            let w = choose|w: int| 0 <= w < pre.len() && pre[w].key == o;
                            assert(post[w].key == o);
                        }
                        if final(self).has_entry(o) {
                            let w = choose|w: int| 0 <= w < post.len() && post[w].key == o;
                            assert(pre[w].key == o);
                        }
                    }
                }
                Ok(false)
            },
            (false, None) => Ok(false),
        }
    }

    /// Record an I/O failure on either bridging direction: the whole
    /// session shuts down at once, both directions included.
    pub fn on_io_error(&mut self, key: DeviceKey)
        requires
            old(self).wf(),
            old(self).has_entry(key),
        ensures
            final(self).wf(),
            final(self).slot_count() == old(self).slot_count(),
            final(self).announced_free() == old(self).announced_free(),
            final(self).has_entry(key),
            final(self).state_of(key) == BridgeState::ShuttingDown,
            final(self).entries_seq().len() == old(self).entries_seq().len(),
            forall|o: DeviceKey| o != key ==> final(self).has_entry(o) == old(self).has_entry(o),
    {
        let r = self.set_device_state(key, false);
        proof {
            assert(r == Result::<bool, Error>::Ok(false));
        }
    }

    /// Remove a device's entry once its loops have been joined, freeing
    /// its channel and announcing the new free-channel count.
    pub fn reap(&mut self, key: DeviceKey)
        requires
            old(self).wf(),
            old(self).has_entry(key),
            old(self).state_of(key) == BridgeState::ShuttingDown,
        ensures
            final(self).wf(),
            final(self).slot_count() == old(self).slot_count(),
            !final(self).has_entry(key),
            final(self).entries_seq().len() == old(self).entries_seq().len() - 1,
            forall|o: DeviceKey| o != key ==> final(self).has_entry(o) == old(self).has_entry(o),
            final(self).announced_free() == Some((old(self).free_channels() + 1) as usize),
    {
        let i = self.find(key).unwrap();
        self.entries.remove(i);
        let nfree = self.slots - self.entries.len();
        self.announced = Some(nfree);
        proof {
            let pre = old(self).entries_seq();
            let post = self.entries_seq();
            assert(post == pre.remove(i as int));
            assert forall|a: int, b: int| 0 <= a < b < post.len() implies post[a].key
                != post[b].key by {
                let pa: int = if a < i {
                    a
                } else {
                    a + 1
                };
                let pb: int = if b < i {
                    b
                } else {
                    b + 1
                };
                assert(post[a] == pre[pa]);
                assert(post[b] == pre[pb]);
                assert(pa < pb < pre.len());
            }
            assert forall|k: int| 0 <= k < post.len() implies post[k].key != key by {
                let pk: int = if k < i {
                    k
                } else {
                    k + 1
                };
                assert(post[k] == pre[pk]);
                if pk != i {
                    assert(pre[pk].key != pre[i as int].key);
                }
            }
            assert(!final(self).has_entry(key));
            assert forall|o: DeviceKey| o != key implies final(self).has_entry(o) == old(
                self,
            ).has_entry(o) by {
                if old(self).has_entry(o) {
                    let k = choose|k: int| 0 <= k < pre.len() && pre[k].key == o;
                    assert(k != i);
                    if k < i {
                        assert(post[k].key == o);
                    } else {
                        assert(post[k - 1].key == o);
                    }
                }
                if final(self).has_entry(o) {
                    let k = choose|k: int| 0 <= k < post.len() && post[k].key == o;
                    if k < i {
                        assert(pre[k].key == o);
                    } else {
                        assert(pre[k + 1].key == o);
                    }
                }
            }
        }
    }
}

/// The outcome the bridging loop derives from one poll of the remote
/// stream, with the wake channel as the second polled descriptor.
///
/// A negative poll return or a hang-up on the stream means the channel is
/// gone; a signaled wake channel means shutdown was requested; both end
/// the session.  Otherwise the loop learns whether stream bytes are
/// ready.
pub fn poll_decision(
    ret: i32,
    stream_readable: bool,
    stream_hup: bool,
    has_wake: bool,
    wake_readable: bool,
) -> (d: Result<bool, Error>)
    ensures
        ret < 0 ==> d == Result::<bool, Error>::Err(Error::ChannelClosed),
        ret == 0 ==> d == Result::<bool, Error>::Ok(false),
        ret > 0 && (stream_hup || (has_wake && wake_readable)) ==> d == Result::<
            bool,
            Error,
        >::Err(Error::ChannelClosed),
        ret > 0 && !stream_hup && !(has_wake && wake_readable) ==> d == Result::<
            bool,
            Error,
        >::Ok(stream_readable),
{
    if ret < 0 {
        Err(Error::ChannelClosed)
    } else if ret == 0 {
        Ok(false)
    } else if stream_hup || (has_wake && wake_readable) {
        Err(Error::ChannelClosed)
    } else {
        Ok(stream_readable)
    }
}

/// The outcome the stream-to-device loop derives from one read on the
/// remote stream: `None` stands for a failed read, zero bytes mean the
/// peer disconnected, and anything else is payload for the device-side
/// protocol processor.
pub fn stream_read_decision(read: Option<usize>) -> (d: Result<usize, Error>)
    ensures
        read is None ==> d == Result::<usize, Error>::Err(Error::ChannelClosed),
        read == Some(0usize) ==> d == Result::<usize, Error>::Err(Error::ChannelClosed),
        forall|n: usize|
            n > 0 && read == Some(n) ==> d == Result::<usize, Error>::Ok(n),
{
    match read {
        None => Err(Error::ChannelClosed),
        Some(0) => Err(Error::ChannelClosed),
        Some(n) => Ok(n),
    }
}

} // verus!
