use qemu_display::audio::{
    silence_reply, AudioInEvent, AudioInListener, AudioOutEvent, AudioOutListener, PCMInfo, Volume,
};
use qemu_display::error::Error;

fn pcm_s16le() -> PCMInfo {
    PCMInfo {
        bits: 16,
        is_signed: true,
        is_float: false,
        freq: 44100,
        nchannels: 2,
        bytes_per_frame: 4,
        bytes_per_second: 176400,
        be: false,
    }
}

#[test]
fn gst_caps_renders_signed_little_endian() {
    assert_eq!(
        pcm_s16le().gst_caps(),
        "audio/x-raw,format=S16LE,channels=2,rate=44100,layout=interleaved"
    );
}

#[test]
fn gst_caps_renders_float_big_endian() {
    let info = PCMInfo {
        bits: 32,
        is_signed: false,
        is_float: true,
        freq: 8000,
        nchannels: 1,
        bytes_per_frame: 4,
        bytes_per_second: 32000,
        be: true,
    };
    assert_eq!(
        info.gst_caps(),
        "audio/x-raw,format=F32BE,channels=1,rate=8000,layout=interleaved"
    );
}

#[test]
fn gst_caps_renders_unsigned_eight_bit() {
    let info = PCMInfo {
        bits: 8,
        is_signed: false,
        is_float: false,
        freq: 11025,
        nchannels: 255,
        bytes_per_frame: 255,
        bytes_per_second: 2811375,
        be: false,
    };
    assert_eq!(
        info.gst_caps(),
        "audio/x-raw,format=U8LE,channels=255,rate=11025,layout=interleaved"
    );
}

#[test]
fn write_after_fini_is_a_violation_and_never_delivered() {
    let mut l = AudioOutListener::new();

    l.deliver(AudioOutEvent::Init { id: 1, info: pcm_s16le() }).unwrap();
    l.deliver(AudioOutEvent::Write { id: 1, data: vec![0, 1, 2, 3] }).unwrap();
    l.deliver(AudioOutEvent::Fini { id: 1 }).unwrap();

    // The stream id died with its fini; a further write references an
    // expired id and is dropped, not handed to the consumer.
    assert_eq!(
        l.deliver(AudioOutEvent::Write { id: 1, data: vec![9] }),
        Err(Error::ProtocolViolation)
    );

    assert!(matches!(l.poll_event(), Some(AudioOutEvent::Init { id: 1, .. })));
    match l.poll_event() {
        Some(AudioOutEvent::Write { id, data }) => {
            assert_eq!(id, 1);
            assert_eq!(data, vec![0, 1, 2, 3]);
        }
        other => panic!("expected the first write, got {:?}", other),
    }
    assert!(matches!(l.poll_event(), Some(AudioOutEvent::Fini { id: 1 })));
    assert!(l.poll_event().is_none());
}

#[test]
fn events_before_init_are_violations() {
    let mut l = AudioOutListener::new();
    assert_eq!(
        l.deliver(AudioOutEvent::Write { id: 3, data: vec![1] }),
        Err(Error::ProtocolViolation)
    );
    assert_eq!(
        l.deliver(AudioOutEvent::SetEnabled { id: 3, enabled: true }),
        Err(Error::ProtocolViolation)
    );
    assert_eq!(l.deliver(AudioOutEvent::Fini { id: 3 }), Err(Error::ProtocolViolation));
    assert!(l.poll_event().is_none());
}

#[test]
fn duplicate_init_is_a_violation() {
    let mut l = AudioOutListener::new();
    l.deliver(AudioOutEvent::Init { id: 2, info: pcm_s16le() }).unwrap();
    assert_eq!(
        l.deliver(AudioOutEvent::Init { id: 2, info: pcm_s16le() }),
        Err(Error::ProtocolViolation)
    );
    // The id stays live and usable.
    l.deliver(AudioOutEvent::SetVolume {
        id: 2,
        volume: Volume { mute: false, volume: vec![128, 128] },
    })
    .unwrap();
}

#[test]
fn several_streams_are_tracked_independently() {
    let mut l = AudioOutListener::new();
    l.deliver(AudioOutEvent::Init { id: 1, info: pcm_s16le() }).unwrap();
    l.deliver(AudioOutEvent::Init { id: 2, info: pcm_s16le() }).unwrap();
    l.deliver(AudioOutEvent::Fini { id: 1 }).unwrap();
    // Stream 2 survives stream 1's fini.
    l.deliver(AudioOutEvent::Write { id: 2, data: vec![5] }).unwrap();
    assert_eq!(
        l.deliver(AudioOutEvent::Write { id: 1, data: vec![5] }),
        Err(Error::ProtocolViolation)
    );
}

#[test]
fn input_streams_follow_the_same_id_rules() {
    let mut l = AudioInListener::new();
    assert_eq!(l.deliver(AudioInEvent::Read { id: 4 }), Err(Error::ProtocolViolation));
    l.deliver(AudioInEvent::Init { id: 4, info: pcm_s16le() }).unwrap();
    l.deliver(AudioInEvent::Read { id: 4 }).unwrap();
    l.deliver(AudioInEvent::Fini { id: 4 }).unwrap();
    assert_eq!(l.deliver(AudioInEvent::Read { id: 4 }), Err(Error::ProtocolViolation));

    assert!(matches!(l.poll_event(), Some(AudioInEvent::Init { .. })));
    assert!(matches!(l.poll_event(), Some(AudioInEvent::Read { id: 4 })));
    assert!(matches!(l.poll_event(), Some(AudioInEvent::Fini { .. })));
    assert!(l.poll_event().is_none());
}

#[test]
fn audio_delivery_fails_once_the_consumer_is_gone() {
    let mut l = AudioOutListener::new();
    l.deliver(AudioOutEvent::Init { id: 1, info: pcm_s16le() }).unwrap();
    l.drop_consumer();
    assert_eq!(
        l.deliver(AudioOutEvent::Write { id: 1, data: vec![1] }),
        Err(Error::Backpressure)
    );
    assert!(l.should_stop());
}

#[test]
fn silence_reply_is_zeroed_and_sized_as_asked() {
    let r = silence_reply(16);
    assert_eq!(r.len(), 16);
    assert!(r.iter().all(|b| *b == 0));
    assert!(silence_reply(0).is_empty());
}
