use dark_pattern_blocker::framing::{
    be_prefix, body_length, frame, le_prefix, length_from_be, length_from_le, Link, MAX_MESSAGE_LEN,
};

#[test]
fn prefixes_round_trip() {
    for n in [0usize, 1, 255, 256, 65_535, 1_048_576, 4_294_967_295] {
        assert_eq!(length_from_le(le_prefix(n)) as usize, n);
        assert_eq!(length_from_be(be_prefix(n)) as usize, n);
    }
    assert_eq!(le_prefix(258), [2, 1, 0, 0]);
    assert_eq!(be_prefix(258), [0, 0, 1, 2]);
    assert_eq!(u32::from_le_bytes(le_prefix(123_456)), 123_456);
    assert_eq!(u32::from_be_bytes(be_prefix(123_456)), 123_456);
}

#[test]
fn long_bodies_are_refused() {
    assert_eq!(body_length(Link::Extension, le_prefix(MAX_MESSAGE_LEN as usize)), Ok(MAX_MESSAGE_LEN));
    assert_eq!(
        body_length(Link::Extension, le_prefix(MAX_MESSAGE_LEN as usize + 1)),
        Err("Message too large: 1048577 bytes".to_string())
    );
    assert_eq!(
        body_length(Link::Daemon, be_prefix(2_000_000)),
        Err("Daemon response too large: 2000000 bytes".to_string())
    );
    assert_eq!(body_length(Link::Daemon, be_prefix(12)), Ok(12));
}

#[test]
fn frames_carry_prefix_and_body() {
    let body = b"{\"type\":\"PING\"}".to_vec();
    let f = frame(Link::Extension, &body);
    assert_eq!(&f[..4], &(body.len() as u32).to_le_bytes());
    assert_eq!(&f[4..], &body[..]);
    let f = frame(Link::Daemon, &body);
    assert_eq!(&f[..4], &(body.len() as u32).to_be_bytes());
}
