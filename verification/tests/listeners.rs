use openal::attributes::{ATTR_FREQUENCY, ATTR_SYNC};
use openal::listener;
use openal::{Attributes, Buffer, Error, Native, Samples};

fn name_block() -> Vec<u8> {
    b"alpha\0beta\0\0".to_vec()
}

#[test]
fn second_listener_supersedes_first() {
    let mut n = Native::new(8, false, Vec::new());
    let attrs = Attributes::new();
    let a = listener::default(&mut n, &attrs).unwrap();
    assert!(a.is_current(&n));
    let b = listener::default(&mut n, &attrs).unwrap();
    assert!(!a.is_current(&n));
    assert!(b.is_current(&n));
    assert_eq!(n.current_handle(), b.context());
    // A contextless buffer operation now targets B: the buffer dies with B,
    // not with A.
    let data = Samples::Bits8(vec![1u8; 4]);
    let buf = Buffer::new(&mut n, 1, &data, 8000).unwrap();
    assert_eq!(buf.len(&n), 4);
    b.destroy(&mut n);
    assert_eq!(buf.len(&n), 0);
    assert_eq!(n.alive_buffers(), 0);
    a.destroy(&mut n);
}

#[test]
fn destroying_current_listener_clears_register() {
    let mut n = Native::new(8, false, Vec::new());
    let attrs = Attributes::new();
    let l = listener::default(&mut n, &attrs).unwrap();
    assert_ne!(n.current_handle(), 0);
    l.destroy(&mut n);
    assert_eq!(n.current_handle(), 0);
}

#[test]
fn destroying_superseded_listener_keeps_register() {
    let mut n = Native::new(8, false, Vec::new());
    let attrs = Attributes::new();
    let a = listener::default(&mut n, &attrs).unwrap();
    let b = listener::default(&mut n, &attrs).unwrap();
    a.destroy(&mut n);
    assert_eq!(n.current_handle(), b.context());
    b.destroy(&mut n);
    assert_eq!(n.current_handle(), 0);
}

#[test]
fn contextless_query_degrades_to_sentinel() {
    let mut n = Native::new(8, false, Vec::new());
    let attrs = Attributes::new();
    let a = listener::default(&mut n, &attrs).unwrap();
    let data = Samples::Bits16(vec![3i16; 7]);
    let buf = Buffer::new(&mut n, 1, &data, 32000).unwrap();
    let b = listener::default(&mut n, &attrs).unwrap();
    // B is current; the buffer's owner A is alive, so queries still read.
    assert_eq!(buf.len(&n), 7);
    b.destroy(&mut n);
    // No listener is current: every query returns the zero sentinel, and
    // no failure is surfaced.
    assert_eq!(buf.rate(&n), 0);
    assert_eq!(buf.bits(&n), 0);
    assert_eq!(buf.channels(&n), 0);
    assert_eq!(buf.len(&n), 0);
    buf.release(&mut n);
    a.destroy(&mut n);
}

#[test]
fn queries_after_owner_destroyed_read_zero() {
    let mut n = Native::new(8, false, Vec::new());
    let attrs = Attributes::new();
    let a = listener::default(&mut n, &attrs).unwrap();
    let data = Samples::Bits16(vec![3i16; 7]);
    let buf = Buffer::new(&mut n, 2, &data, 32000).unwrap();
    assert_eq!(n.alive_buffers(), 1);
    a.destroy(&mut n);
    // The buffer handle died with its owning listener.
    assert_eq!(n.alive_buffers(), 0);
    let b = listener::default(&mut n, &attrs).unwrap();
    assert_eq!(buf.rate(&n), 0);
    assert_eq!(buf.len(&n), 0);
    b.destroy(&mut n);
}

#[test]
fn devices_empty_without_capability() {
    let n = Native::new(8, false, name_block());
    assert!(!n.enumeration_supported());
    let names = listener::devices(&n);
    assert_eq!(names.len(), 0);
}

#[test]
fn devices_lists_names_in_order() {
    let n = Native::new(8, true, name_block());
    let names = listener::devices(&n);
    assert_eq!(names, vec![b"alpha".to_vec(), b"beta".to_vec()]);
}

#[test]
fn devices_without_trailing_terminator() {
    let n = Native::new(8, true, b"solo".to_vec());
    let names = listener::devices(&n);
    assert_eq!(names, vec![b"solo".to_vec()]);
}

#[test]
fn open_by_unknown_name_fails_distinctly() {
    let mut n = Native::new(8, true, name_block());
    let attrs = Attributes::new();
    let r = listener::open(&mut n, &b"gamma".to_vec(), &attrs);
    assert_eq!(r.unwrap_err(), Error::InvalidName);
    assert_eq!(n.current_handle(), 0);
}

#[test]
fn open_by_known_name_succeeds() {
    let mut n = Native::new(8, true, name_block());
    let attrs = Attributes::new();
    let l = listener::open(&mut n, &b"beta".to_vec(), &attrs).unwrap();
    assert!(l.is_current(&n));
    l.destroy(&mut n);
}

#[test]
fn attributes_encode_in_order_with_terminator() {
    let mut attrs = Attributes::new();
    attrs.push(ATTR_FREQUENCY, 44100);
    attrs.push(ATTR_SYNC, 1);
    attrs.push(0x7654, -9);
    assert_eq!(attrs.len(), 3);
    assert_eq!(attrs.to_list(), vec![ATTR_FREQUENCY, 44100, ATTR_SYNC, 1, 0x7654, -9, 0]);
}

#[test]
fn listener_handles_are_fresh_per_open() {
    let mut n = Native::new(8, false, Vec::new());
    let attrs = Attributes::new();
    let a = listener::default(&mut n, &attrs).unwrap();
    let b = listener::default(&mut n, &attrs).unwrap();
    assert_ne!(a.context(), b.context());
    assert_ne!(a.device(), b.device());
    a.destroy(&mut n);
    b.destroy(&mut n);
}
