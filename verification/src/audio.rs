//! Audio streams.
//!
//! The peer opens numbered PCM streams, writes payload into them (or, for
//! input streams, asks the consumer to produce bytes), and closes them
//! again.  Stream ids are opaque and assigned by the peer; an id is valid
//! from its init event to its fini event, and an event that references an
//! id outside that window is a protocol violation that is dropped locally
//! and never reaches the consumer.

use vstd::prelude::*;
use vstd::string::StringExecFns;

verus! {

use crate::bridge::{queue_accepts, queue_unchanged, EventQueue};
use crate::error::Error;

/// PCM format of one audio stream.
#[derive(Clone, Copy, Debug, PartialEq, Eq, Structural)]
pub struct PCMInfo {
    pub bits: u8,
    pub is_signed: bool,
    pub is_float: bool,
    pub freq: u32,
    pub nchannels: u8,
    pub bytes_per_frame: u32,
    pub bytes_per_second: u32,
    pub be: bool,
}

/// The decimal digit character for one digit value.
pub open spec fn dec_digit(d: nat) -> char {
    if d == 0 {
        '0'
    } else if d == 1 {
        '1'
    } else if d == 2 {
        '2'
    } else if d == 3 {
        '3'
    } else if d == 4 {
        '4'
    } else if d == 5 {
        '5'
    } else if d == 6 {
        '6'
    } else if d == 7 {
        '7'
    } else if d == 8 {
        '8'
    } else {
        '9'
    }
}

/// The decimal representation of a number, most significant digit first,
/// without leading zeros (zero itself is a single digit).
pub open spec fn dec_rep(n: nat) -> Seq<char>
    decreases n,
{
    if n < 10 {
        seq![dec_digit(n)]
    } else {
        dec_rep(n / 10) + seq![dec_digit(n % 10)]
    }
}

/// Append the character of one decimal digit.
fn append_digit(s: &mut String, d: u32)
    requires
        d < 10,
    ensures
        final(s)@ == old(s)@ + seq![dec_digit(d as nat)],
{
    if d == 0 {
        proof {
            reveal_strlit("0");
        }
        s.append("0");
    } else if d == 1 {
        proof {
            reveal_strlit("1");
        }
        s.append("1");
    } else if d == 2 {
        proof {
            reveal_strlit("2");
        }
        s.append("2");
    } else if d == 3 {
        proof {
            reveal_strlit("3");
        }
        s.append("3");
    } else if d == 4 {
        proof {
            reveal_strlit("4");
        }
        s.append("4");
    } else if d == 5 {
        proof {
            reveal_strlit("5");
        }
        s.append("5");
    } else if d == 6 {
        proof {
            reveal_strlit("6");
        }
        s.append("6");
    } else if d == 7 {
        proof {
            reveal_strlit("7");
        }
        s.append("7");
    } else if d == 8 {
        proof {
            reveal_strlit("8");
        }
        s.append("8");
    } else {
        proof {
            reveal_strlit("9");
        }
        s.append("9");
    }
    proof {
        assert(final(s)@ =~= old(s)@ + seq![dec_digit(d as nat)]);
    }
}

/// Append the decimal representation of a number.
fn append_decimal(s: &mut String, n: u32)
    ensures
        final(s)@ == old(s)@ + dec_rep(n as nat),
    decreases n,
{
    if n < 10 {
        append_digit(s, n);
    } else {
        append_decimal(s, n / 10);
        append_digit(s, n % 10);
        proof {
            assert(final(s)@ =~= old(s)@ + dec_rep(n as nat));
        }
    }
}

/// The format code of a PCM format: float, signed or unsigned, the sample
/// width in bits, and the byte order.
pub open spec fn pcm_format_chars(info: PCMInfo) -> Seq<char> {
    (if info.is_float {
        seq!['F']
    } else if info.is_signed {
        seq!['S']
    } else {
        seq!['U']
    }) + dec_rep(info.bits as nat) + (if info.be {
        seq!['B', 'E']
    } else {
        seq!['L', 'E']
    })
}

/// The capability string describing a PCM format to a media pipeline.
pub open spec fn gst_caps_chars(info: PCMInfo) -> Seq<char> {
    "audio/x-raw,format="@ + pcm_format_chars(info) + ",channels="@ + dec_rep(
        info.nchannels as nat,
    ) + ",rate="@ + dec_rep(info.freq as nat) + ",layout=interleaved"@
}

impl PCMInfo {
    /// Render this format as a capability string for a media pipeline,
    /// e.g. `audio/x-raw,format=S16LE,channels=2,rate=44100,layout=interleaved`.
    pub fn gst_caps(&self) -> (r: String)
        ensures
            r@ == gst_caps_chars(*self),
    {
        proof {
            reveal_strlit("audio/x-raw,format=");
            reveal_strlit("F");
            reveal_strlit("S");
            reveal_strlit("U");
            reveal_strlit("BE");
            reveal_strlit("LE");
            reveal_strlit(",channels=");
            reveal_strlit(",rate=");
            reveal_strlit(",layout=interleaved");
        }
        let mut s = "audio/x-raw,format=".to_owned();
        if self.is_float {
            s.append("F");
        } else if self.is_signed {
            s.append("S");
        } else {
            s.append("U");
        }
        append_decimal(&mut s, self.bits as u32);
        if self.be {
            s.append("BE");
        } else {
            s.append("LE");
        }
        s.append(",channels=");
        append_decimal(&mut s, self.nchannels as u32);
        s.append(",rate=");
        append_decimal(&mut s, self.freq);
        s.append(",layout=interleaved");
        proof {
            assert(s@ =~= gst_caps_chars(*self));
        }
        s
    }
}

/// Per-channel volume of one stream.
#[derive(Clone, Debug)]
pub struct Volume {
    pub mute: bool,
    pub volume: Vec<u8>,
}

/// One event of an output stream: the peer produces audio for the
/// consumer to play.
#[derive(Clone, Debug)]
pub enum AudioOutEvent {
    Init { id: u64, info: PCMInfo },
    Fini { id: u64 },
    SetEnabled { id: u64, enabled: bool },
    SetVolume { id: u64, volume: Volume },
    Write { id: u64, data: Vec<u8> },
}

/// One event of an input stream: the peer configures capture and asks the
/// consumer to produce bytes back.
#[derive(Clone, Debug)]
pub enum AudioInEvent {
    Init { id: u64, info: PCMInfo },
    Fini { id: u64 },
    SetEnabled { id: u64, enabled: bool },
    SetVolume { id: u64, volume: Volume },
    Read { id: u64 },
}

/// The ids of the currently live streams of one direction.
///
/// An id becomes live with its init event and dies with its fini event;
/// ids are unique among live streams.
pub struct AudioStreamTracker {
    live: Vec<u64>,
}

impl AudioStreamTracker {
    /// The live ids, in the order their streams were opened.
    pub closed spec fn live_ids(&self) -> Seq<u64> {
        self.live@
    }

    /// Whether a stream id is currently live.
    pub open spec fn is_live(&self, id: u64) -> bool {
        self.live_ids().contains(id)
    }

    /// The tracker's invariant: live ids are unique.
    pub open spec fn wf(&self) -> bool {
        forall|i: int, j: int|
            0 <= i < j < self.live_ids().len() ==> self.live_ids()[i] != self.live_ids()[j]
    }

    /// A tracker with no live stream.
    pub fn new() -> (t: Self)
        ensures
            t.wf(),
            t.live_ids() === Seq::<u64>::empty(),
    {
        AudioStreamTracker { live: Vec::new() }
    }

    /// Whether a stream id is currently live.
    pub fn contains(&self, id: u64) -> (b: bool)
        ensures
            b == self.is_live(id),
    {
        let mut i: usize = 0;
        while i < self.live.len()
            invariant
                i <= self.live_ids().len(),
                forall|k: int| 0 <= k < i ==> self.live_ids()[k] != id,
            decreases self.live_ids().len() - i,
        {
            if self.live[i] == id {
                return true;
            }
            i = i + 1;
        }
        false
    }

    /// Open a stream: the id becomes live.  Fails if it already is.
    pub fn open_stream(&mut self, id: u64) -> (r: Result<(), Error>)
        requires
            old(self).wf(),
        ensures
            final(self).wf(),
            old(self).is_live(id) ==> {
                &&& r == Result::<(), Error>::Err(Error::ProtocolViolation)
                &&& final(self).live_ids() == old(self).live_ids()
            },
            !old(self).is_live(id) ==> {
                &&& r is Ok
                &&& final(self).live_ids() == old(self).live_ids().push(id)
            },
            final(self).is_live(id),
            forall|o: u64| o != id ==> final(self).is_live(o) == old(self).is_live(o),
    {
        if self.contains(id) {
            return Err(Error::ProtocolViolation);
        }
        self.live.push(id);
        proof {
            assert(final(self).live_ids().last() == id);
            assert(final(self).is_live(id));
            assert forall|o: u64| o != id implies final(self).is_live(o) == old(self).is_live(
                o,
            ) by {
                if old(self).is_live(o) {
                    let k = choose|k: int|
                        0 <= k < old(self).live_ids().len() && old(self).live_ids()[k] == o;
                    assert(final(self).live_ids()[k] == o);
                }
                if final(self).is_live(o) {
                    let k = choose|k: int|
                        0 <= k < final(self).live_ids().len() && final(self).live_ids()[k] == o;
                    assert(k < old(self).live_ids().len());
                    assert(old(self).live_ids()[k] == o);
                }
            }
        }
        Ok(())
    }

    /// Close a stream: the id dies.  Fails if it was not live.
    pub fn close_stream(&mut self, id: u64) -> (r: Result<(), Error>)
        requires
            old(self).wf(),
        ensures
            final(self).wf(),
            !old(self).is_live(id) ==> {
                &&& r == Result::<(), Error>::Err(Error::ProtocolViolation)
                &&& final(self).live_ids() == old(self).live_ids()
            },
            old(self).is_live(id) ==> {
                &&& r is Ok
                &&& final(self).live_ids().len() == old(self).live_ids().len() - 1
            },
            !final(self).is_live(id),
            forall|o: u64| o != id ==> final(self).is_live(o) == old(self).is_live(o),
    {
        let ghost pre = self.live@;
        let mut i: usize = 0;
        while i < self.live.len()
            invariant
                self.live@ == pre,
                i <= pre.len(),
                forall|k: int| 0 <= k < i ==> pre[k] != id,
                old(self).wf(),
                old(self).live_ids() == pre,
            decreases pre.len() - i,
        {
            if self.live[i] == id {
                self.live.remove(i);
                proof {
                    let post = self.live@;
                    assert(post == pre.remove(i as int));
                    assert(pre[i as int] == id);
                    assert forall|a: int, b: int| 0 <= a < b < post.len() implies post[a]
                        != post[b] by {
                        let pa: int = if a < i {
                            a
                        } else {
                            a + 1
                        };
                        let pb: int = if b < i {
                            b
                        } else {
                            b + 1
                        };
                        assert(post[a] == pre[pa]);
                        assert(post[b] == pre[pb]);
                        assert(pa < pb < pre.len());
                    }
                    assert forall|k: int| 0 <= k < post.len() implies post[k] != id by {
                        let pk: int = if k < i {
                            k
                        } else {
                            k + 1
                        };
                        assert(post[k] == pre[pk]);
                        if pk > i {
                            assert(pre[i as int] != pre[pk]);
                        }
                    }
                    assert(!post.contains(id));
                    assert forall|o: u64| o != id && pre.contains(o) implies post.contains(
                        o,
                    ) by {
                        let k = choose|k: int| 0 <= k < pre.len() && pre[k] == o;
                        assert(k != i);
                        if k < i {
                            assert(post[k] == o);
                        } else {
                            assert(post[k - 1] == o);
                        }
                    }
                    assert forall|o: u64| post.contains(o) implies pre.contains(o) by {
                        let k = choose|k: int| 0 <= k < post.len() && post[k] == o;
                        if k < i {
                            assert(pre[k] == o);
                        } else {
                            assert(pre[k + 1] == o);
                        }
                    }
                }
                return Ok(());
            }
            i = i + 1;
        }
        Err(Error::ProtocolViolation)
    }
}

/// The receiving side of the audio output service: validates each
/// incoming call against the live stream ids and hands exactly the valid
/// ones to the dispatch bridge.
pub struct AudioOutListener {
    streams: AudioStreamTracker,
    queue: EventQueue<AudioOutEvent>,
    failed: bool,
}

/// The stream id an output event references.
pub open spec fn audio_out_event_id(e: AudioOutEvent) -> u64 {
    match e {
        AudioOutEvent::Init { id, .. } => id,
        AudioOutEvent::Fini { id } => id,
        AudioOutEvent::SetEnabled { id, .. } => id,
        AudioOutEvent::SetVolume { id, .. } => id,
        AudioOutEvent::Write { id, .. } => id,
    }
}

impl AudioOutListener {
    /// The dispatch bridge between this listener and its consumer.
    pub closed spec fn bridge(&self) -> EventQueue<AudioOutEvent> {
        self.queue
    }

    /// The live-stream bookkeeping.
    pub closed spec fn streams(&self) -> AudioStreamTracker {
        self.streams
    }

    /// Whether a delivery has failed; the serve loop must terminate.
    pub closed spec fn has_failed(&self) -> bool {
        self.failed
    }

    /// The listener's invariant.
    pub open spec fn wf(&self) -> bool {
        &&& self.bridge().wf()
        &&& self.streams().wf()
        &&& (self.has_failed() ==> !self.bridge().consumer_present())
    }

    /// Whether the peer may send this event now: an init for an id not
    /// yet live, or any other event for a live id.
    pub open spec fn event_valid(&self, e: AudioOutEvent) -> bool {
        match e {
            AudioOutEvent::Init { id, .. } => !self.streams().is_live(id),
            _ => self.streams().is_live(audio_out_event_id(e)),
        }
    }

    /// What processing one peer call does.  An invalid event is a
    /// protocol violation: it is dropped, never delivered, and the stream
    /// bookkeeping does not change.  A valid event is handed to the
    /// bridge if the consumer is still there, adjusting the live set for
    /// init and fini; with the consumer gone the failure is recorded and
    /// backpressure reported.
    pub open spec fn processes(
        pre: AudioOutListener,
        post: AudioOutListener,
        e: AudioOutEvent,
        r: Result<(), Error>,
    ) -> bool {
        if !pre.event_valid(e) {
            &&& r == Result::<(), Error>::Err(Error::ProtocolViolation)
            &&& queue_unchanged(pre.bridge(), post.bridge())
            &&& post.streams().live_ids() == pre.streams().live_ids()
            &&& post.has_failed() == pre.has_failed()
        } else if pre.bridge().consumer_present() {
            &&& r is Ok
            &&& queue_accepts(pre.bridge(), post.bridge(), e)
            &&& post.has_failed() == pre.has_failed()
            &&& (e is Init ==> post.streams().is_live(audio_out_event_id(e)))
            &&& (e is Fini ==> !post.streams().is_live(audio_out_event_id(e)))
            &&& (!(e is Init) && !(e is Fini) ==> post.streams().live_ids()
                == pre.streams().live_ids())
            &&& forall|o: u64|
                o != audio_out_event_id(e) ==> post.streams().is_live(o) == pre.streams().is_live(
                    o,
                )
        } else {
            &&& r == Result::<(), Error>::Err(Error::Backpressure)
            &&& queue_unchanged(pre.bridge(), post.bridge())
            &&& post.streams().live_ids() == pre.streams().live_ids()
            &&& post.has_failed()
        }
    }

    /// A fresh listener: no live stream, empty bridge, live consumer.
    pub fn new() -> (l: Self)
        ensures
            l.wf(),
            l.streams().live_ids() === Seq::<u64>::empty(),
            l.bridge().pushed_events() === Seq::<AudioOutEvent>::empty(),
            l.bridge().pending_events() === Seq::<AudioOutEvent>::empty(),
            l.bridge().delivered_events() === Seq::<AudioOutEvent>::empty(),
            l.bridge().consumer_present(),
            !l.has_failed(),
    {
        AudioOutListener {
            streams: AudioStreamTracker::new(),
            queue: EventQueue::new(),
            failed: false,
        }
    }

    /// Process one peer call.
    pub fn deliver(&mut self, e: AudioOutEvent) -> (r: Result<(), Error>)
        requires
            old(self).wf(),
        ensures
            final(self).wf(),
            Self::processes(*old(self), *final(self), e, r),
    {
        let valid = match &e {
            AudioOutEvent::Init { id, .. } => !self.streams.contains(*id),
            AudioOutEvent::Fini { id } => self.streams.contains(*id),
            AudioOutEvent::SetEnabled { id, .. } => self.streams.contains(*id),
            AudioOutEvent::SetVolume { id, .. } => self.streams.contains(*id),
            AudioOutEvent::Write { id, .. } => self.streams.contains(*id),
        };
        if !valid {
            return Err(Error::ProtocolViolation);
        }
        let update = match &e {
            AudioOutEvent::Init { id, .. } => Some((*id, true)),
            AudioOutEvent::Fini { id } => Some((*id, false)),
            _ => None,
        };
        match self.queue.push(e) {
            Ok(()) => {
                match update {
                    Some((id, true)) => {
                        let _ = self.streams.open_stream(id);
                    },
                    Some((id, false)) => {
                        let _ = self.streams.close_stream(id);
                    },
                    None => {},
                }
                Ok(())
            },
            Err(err) => {
                self.failed = true;
                Err(err)
            },
        }
    }

    /// Consumer side: take the oldest pending event, if any.
    pub fn poll_event(&mut self) -> (r: Option<AudioOutEvent>)
        requires
            old(self).wf(),
        ensures
            final(self).wf(),
            final(self).has_failed() == old(self).has_failed(),
            final(self).streams().live_ids() == old(self).streams().live_ids(),
            final(self).bridge().pushed_events() == old(self).bridge().pushed_events(),
            final(self).bridge().consumer_present() == old(self).bridge().consumer_present(),
            old(self).bridge().pending_events().len() == 0 ==> {
                &&& r is None
                &&& queue_unchanged(old(self).bridge(), final(self).bridge())
            },
            old(self).bridge().pending_events().len() > 0 ==> {
                &&& r == Some(old(self).bridge().pending_events()[0])
                &&& final(self).bridge().pending_events() == old(
                    self,
                ).bridge().pending_events().drop_first()
                &&& final(self).bridge().delivered_events() == old(
                    self,
                ).bridge().delivered_events().push(old(self).bridge().pending_events()[0])
            },
    {
        self.queue.poll()
    }

    /// Consumer side: the consumer end goes away.
    pub fn drop_consumer(&mut self)
        requires
            old(self).wf(),
        ensures
            final(self).wf(),
            !final(self).bridge().consumer_present(),
            final(self).has_failed() == old(self).has_failed(),
            final(self).streams().live_ids() == old(self).streams().live_ids(),
            final(self).bridge().pushed_events() == old(self).bridge().pushed_events(),
            final(self).bridge().pending_events() == old(self).bridge().pending_events(),
            final(self).bridge().delivered_events() == old(self).bridge().delivered_events(),
    {
        self.queue.drop_consumer();
    }

    /// Whether the serve loop must terminate because a delivery failed.
    pub fn should_stop(&self) -> (b: bool)
        ensures
            b == self.has_failed(),
    {
        self.failed
    }
}

/// The stream id an input event references.
pub open spec fn audio_in_event_id(e: AudioInEvent) -> u64 {
    match e {
        AudioInEvent::Init { id, .. } => id,
        AudioInEvent::Fini { id } => id,
        AudioInEvent::SetEnabled { id, .. } => id,
        AudioInEvent::SetVolume { id, .. } => id,
        AudioInEvent::Read { id } => id,
    }
}

/// The receiving side of the audio input service.  Like the output side
/// it validates every call against the live stream ids; a read request
/// for a live stream reaches the consumer, which is expected to produce
/// the requested bytes back through the serve loop's reply path.
pub struct AudioInListener {
    streams: AudioStreamTracker,
    queue: EventQueue<AudioInEvent>,
    failed: bool,
}

impl AudioInListener {
    /// The dispatch bridge between this listener and its consumer.
    pub closed spec fn bridge(&self) -> EventQueue<AudioInEvent> {
        self.queue
    }

    /// The live-stream bookkeeping.
    pub closed spec fn streams(&self) -> AudioStreamTracker {
        self.streams
    }

    /// Whether a delivery has failed; the serve loop must terminate.
    pub closed spec fn has_failed(&self) -> bool {
        self.failed
    }

    /// The listener's invariant.
    pub open spec fn wf(&self) -> bool {
        &&& self.bridge().wf()
        &&& self.streams().wf()
        &&& (self.has_failed() ==> !self.bridge().consumer_present())
    }

    /// Whether the peer may send this event now.
    pub open spec fn event_valid(&self, e: AudioInEvent) -> bool {
        match e {
            AudioInEvent::Init { id, .. } => !self.streams().is_live(id),
            _ => self.streams().is_live(audio_in_event_id(e)),
        }
    }

    /// What processing one peer call does; the input-direction twin of
    /// [`AudioOutListener::processes`].
    pub open spec fn processes(
        pre: AudioInListener,
        post: AudioInListener,
        e: AudioInEvent,
        r: Result<(), Error>,
    ) -> bool {
        if !pre.event_valid(e) {
            &&& r == Result::<(), Error>::Err(Error::ProtocolViolation)
            &&& queue_unchanged(pre.bridge(), post.bridge())
            &&& post.streams().live_ids() == pre.streams().live_ids()
            &&& post.has_failed() == pre.has_failed()
        } else if pre.bridge().consumer_present() {
            &&& r is Ok
            &&& queue_accepts(pre.bridge(), post.bridge(), e)
            &&& post.has_failed() == pre.has_failed()
            &&& (e is Init ==> post.streams().is_live(audio_in_event_id(e)))
            &&& (e is Fini ==> !post.streams().is_live(audio_in_event_id(e)))
            &&& (!(e is Init) && !(e is Fini) ==> post.streams().live_ids()
                == pre.streams().live_ids())
            &&& forall|o: u64|
                o != audio_in_event_id(e) ==> post.streams().is_live(o) == pre.streams().is_live(
                    o,
                )
        } else {
            &&& r == Result::<(), Error>::Err(Error::Backpressure)
            &&& queue_unchanged(pre.bridge(), post.bridge())
            &&& post.streams().live_ids() == pre.streams().live_ids()
            &&& post.has_failed()
        }
    }

    /// A fresh listener: no live stream, empty bridge, live consumer.
    pub fn new() -> (l: Self)
        ensures
            l.wf(),
            l.streams().live_ids() === Seq::<u64>::empty(),
            l.bridge().pushed_events() === Seq::<AudioInEvent>::empty(),
            l.bridge().pending_events() === Seq::<AudioInEvent>::empty(),
            l.bridge().delivered_events() === Seq::<AudioInEvent>::empty(),
            l.bridge().consumer_present(),
            !l.has_failed(),
    {
        AudioInListener {
            streams: AudioStreamTracker::new(),
            queue: EventQueue::new(),
            failed: false,
        }
    }

    /// Process one peer call.
    pub fn deliver(&mut self, e: AudioInEvent) -> (r: Result<(), Error>)
        requires
            old(self).wf(),
        ensures
            final(self).wf(),
            Self::processes(*old(self), *final(self), e, r),
    {
        let valid = match &e {
            AudioInEvent::Init { id, .. } => !self.streams.contains(*id),
            AudioInEvent::Fini { id } => self.streams.contains(*id),
            AudioInEvent::SetEnabled { id, .. } => self.streams.contains(*id),
            AudioInEvent::SetVolume { id, .. } => self.streams.contains(*id),
            AudioInEvent::Read { id } => self.streams.contains(*id),
        };
        if !valid {
            return Err(Error::ProtocolViolation);
        }
        let update = match &e {
            AudioInEvent::Init { id, .. } => Some((*id, true)),
            AudioInEvent::Fini { id } => Some((*id, false)),
            _ => None,
        };
        match self.queue.push(e) {
            Ok(()) => {
                match update {
                    Some((id, true)) => {
                        let _ = self.streams.open_stream(id);
                    },
                    Some((id, false)) => {
                        let _ = self.streams.close_stream(id);
                    },
                    None => {},
                }
                Ok(())
            },
            Err(err) => {
                self.failed = true;
                Err(err)
            },
        }
    }

    /// Consumer side: take the oldest pending event, if any.
    pub fn poll_event(&mut self) -> (r: Option<AudioInEvent>)
        requires
            old(self).wf(),
        ensures
            final(self).wf(),
            final(self).has_failed() == old(self).has_failed(),
            final(self).streams().live_ids() == old(self).streams().live_ids(),
            final(self).bridge().pushed_events() == old(self).bridge().pushed_events(),
            final(self).bridge().consumer_present() == old(self).bridge().consumer_present(),
            old(self).bridge().pending_events().len() == 0 ==> {
                &&& r is None
                &&& queue_unchanged(old(self).bridge(), final(self).bridge())
            },
            old(self).bridge().pending_events().len() > 0 ==> {
                &&& r == Some(old(self).bridge().pending_events()[0])
                &&& final(self).bridge().pending_events() == old(
                    self,
                ).bridge().pending_events().drop_first()
                &&& final(self).bridge().delivered_events() == old(
                    self,
                ).bridge().delivered_events().push(old(self).bridge().pending_events()[0])
            },
    {
        self.queue.poll()
    }

    /// Consumer side: the consumer end goes away.
    pub fn drop_consumer(&mut self)
        requires
            old(self).wf(),
        ensures
            final(self).wf(),
            !final(self).bridge().consumer_present(),
            final(self).has_failed() == old(self).has_failed(),
            final(self).streams().live_ids() == old(self).streams().live_ids(),
            final(self).bridge().pushed_events() == old(self).bridge().pushed_events(),
            final(self).bridge().pending_events() == old(self).bridge().pending_events(),
            final(self).bridge().delivered_events() == old(self).bridge().delivered_events(),
    {
        self.queue.drop_consumer();
    }

    /// Whether the serve loop must terminate because a delivery failed.
    pub fn should_stop(&self) -> (b: bool)
        ensures
            b == self.has_failed(),
    {
        self.failed
    }
}

/// The zero-filled fallback reply to a read request, sized as asked: what
/// the serve loop answers for a live stream when the consumer has no
/// captured bytes to offer.
pub fn silence_reply(size: usize) -> (r: Vec<u8>)
    ensures
        r@.len() == size,
        forall|k: int| 0 <= k < r@.len() ==> r@[k] == 0u8,
{
    let mut v: Vec<u8> = Vec::new();
    let mut i: usize = 0;
    while i < size
        invariant
            i <= size,
            v@.len() == i,
            forall|k: int| 0 <= k < i ==> v@[k] == 0u8,
        decreases size - i,
    {
        v.push(0u8);
        i = i + 1;
    }
    v
}

} // verus!


