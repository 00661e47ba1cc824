use openal::listener;
use openal::format::{format_of, FORMAT_MONO16, FORMAT_MONO8, FORMAT_STEREO16, FORMAT_STEREO8};
use openal::{Attributes, Buffer, Error, Native, Samples};

fn fresh_native() -> Native {
    Native::new(64, false, Vec::new())
}

fn open_default(n: &mut Native) -> openal::Listener {
    let attrs = Attributes::new();
    listener::default(n, &attrs).unwrap()
}

#[test]
fn supported_formats_report() {
    // (channels, bits, sample count) for each supported pair.
    let cases: Vec<(u16, u16, usize)> = vec![(1, 8, 5), (1, 16, 5), (2, 8, 6), (2, 16, 6)];
    for (channels, bits, count) in cases {
        let mut n = fresh_native();
        let l = open_default(&mut n);
        let data = match bits {
            8 => Samples::Bits8(vec![7u8; count]),
            _ => Samples::Bits16(vec![-3i16; count]),
        };
        let b = Buffer::new(&mut n, channels, &data, 22050).unwrap();
        assert_eq!(b.rate(&n), 22050);
        assert_eq!(b.bits(&n), bits);
        assert_eq!(b.channels(&n), channels);
        assert_eq!(b.len(&n), count);
        b.release(&mut n);
        l.destroy(&mut n);
    }
}

#[test]
fn scenario_default_44100() {
    let mut n = fresh_native();
    let mut attrs = Attributes::new();
    attrs.push(openal::attributes::ATTR_FREQUENCY, 44100);
    let l = listener::default(&mut n, &attrs).unwrap();
    let data = Samples::Bits16(vec![0i16; 4410]);
    let b = Buffer::new(&mut n, 1, &data, 44100).unwrap();
    assert_eq!(b.rate(&n), 44100);
    assert_eq!(b.bits(&n), 16);
    assert_eq!(b.channels(&n), 1);
    assert_eq!(b.len(&n), 4410);
    b.release(&mut n);
    l.destroy(&mut n);
}

#[test]
fn unsupported_fill_fails() {
    let mut n = fresh_native();
    let l = open_default(&mut n);
    let b = Buffer::empty(&mut n).unwrap();
    let baseline = n.alive_buffers();
    let data = Samples::Bits8(vec![1, 2, 3]);
    let r = b.fill(&mut n, 3, &data, 44100);
    assert_eq!(r.unwrap_err(), Error::UnsupportedFormat);
    assert_eq!(n.alive_buffers(), baseline);
    b.release(&mut n);
    l.destroy(&mut n);
}

#[test]
fn unsupported_create_no_leak() {
    let mut n = fresh_native();
    let l = open_default(&mut n);
    let baseline = n.alive_buffers();
    let data = Samples::Bits8(vec![1, 2, 3]);
    let r = Buffer::new(&mut n, 3, &data, 44100);
    assert_eq!(r.unwrap_err(), Error::UnsupportedFormat);
    assert_eq!(n.alive_buffers(), baseline);
    l.destroy(&mut n);
}

#[test]
fn create_bad_rate_no_leak() {
    let mut n = fresh_native();
    let l = open_default(&mut n);
    let baseline = n.alive_buffers();
    let data = Samples::Bits16(vec![4i16; 8]);
    let r = Buffer::new(&mut n, 1, &data, 0);
    assert_eq!(r.unwrap_err(), Error::InvalidValue);
    assert_eq!(n.alive_buffers(), baseline);
    l.destroy(&mut n);
}

#[test]
fn empty_without_listener_is_invalid_operation() {
    let mut n = fresh_native();
    let r = Buffer::empty(&mut n);
    assert_eq!(r.unwrap_err(), Error::InvalidOperation);
    assert_eq!(n.alive_buffers(), 0);
}

#[test]
fn allocator_exhaustion_is_out_of_memory() {
    let mut n = Native::new(1, false, Vec::new());
    let l = open_default(&mut n);
    let b = Buffer::empty(&mut n).unwrap();
    let r = Buffer::empty(&mut n);
    assert_eq!(r.unwrap_err(), Error::OutOfMemory);
    assert_eq!(n.alive_buffers(), 1);
    b.release(&mut n);
    l.destroy(&mut n);
}

#[test]
fn fill_overwrites_prior_content() {
    let mut n = fresh_native();
    let l = open_default(&mut n);
    let b = Buffer::empty(&mut n).unwrap();
    let first = Samples::Bits8(vec![1u8; 10]);
    b.fill(&mut n, 1, &first, 8000).unwrap();
    assert_eq!(b.bits(&n), 8);
    assert_eq!(b.len(&n), 10);
    let second = Samples::Bits16(vec![2i16; 4]);
    b.fill(&mut n, 2, &second, 48000).unwrap();
    assert_eq!(b.rate(&n), 48000);
    assert_eq!(b.bits(&n), 16);
    assert_eq!(b.channels(&n), 2);
    assert_eq!(b.len(&n), 4);
    b.release(&mut n);
    l.destroy(&mut n);
}

#[test]
fn release_returns_handle_to_pool() {
    let mut n = fresh_native();
    let l = open_default(&mut n);
    let data = Samples::Bits8(vec![9u8; 2]);
    let b = Buffer::new(&mut n, 1, &data, 8000).unwrap();
    assert_eq!(n.alive_buffers(), 1);
    b.release(&mut n);
    assert_eq!(n.alive_buffers(), 0);
    l.destroy(&mut n);
}

#[test]
fn snapshot_is_live() {
    let mut n = fresh_native();
    let l = open_default(&mut n);
    let b = Buffer::empty(&mut n).unwrap();
    let unfilled = b.snapshot(&n);
    assert_eq!(unfilled.id, b.id());
    assert_eq!(unfilled.rate, 0);
    assert_eq!(unfilled.len, 0);
    let data = Samples::Bits16(vec![5i16; 3]);
    b.fill(&mut n, 1, &data, 11025).unwrap();
    let filled = b.snapshot(&n);
    assert_eq!(filled.rate, 11025);
    assert_eq!(filled.bits, 16);
    assert_eq!(filled.channels, 1);
    assert_eq!(filled.len, 3);
    b.release(&mut n);
    l.destroy(&mut n);
}

#[test]
fn error_from_code_translates_each_code() {
    assert_eq!(Error::from_code(openal::error::ERR_INVALID_NAME), Error::InvalidName);
    assert_eq!(Error::from_code(openal::error::ERR_INVALID_ENUM), Error::InvalidEnum);
    assert_eq!(Error::from_code(openal::error::ERR_INVALID_VALUE), Error::InvalidValue);
    assert_eq!(
        Error::from_code(openal::error::ERR_INVALID_OPERATION),
        Error::InvalidOperation
    );
    assert_eq!(Error::from_code(openal::error::ERR_OUT_OF_MEMORY), Error::OutOfMemory);
    assert_eq!(Error::from_code(0xBEEF), Error::Unknown(0xBEEF));
}

#[test]
fn format_of_maps_each_supported_pair() {
    assert_eq!(format_of(1, 8).unwrap().id(), FORMAT_MONO8);
    assert_eq!(format_of(1, 16).unwrap().id(), FORMAT_MONO16);
    assert_eq!(format_of(2, 8).unwrap().id(), FORMAT_STEREO8);
    assert_eq!(format_of(2, 16).unwrap().id(), FORMAT_STEREO16);
    assert_eq!(format_of(1, 16).unwrap().width(), 2);
    assert_eq!(format_of(2, 8).unwrap().width(), 1);
    assert_eq!(format_of(0, 8).unwrap_err(), Error::UnsupportedFormat);
    assert_eq!(format_of(1, 24).unwrap_err(), Error::UnsupportedFormat);
}
