//! The framing of the native-messaging host's two links: each message is
//! preceded by its length in four bytes, little-endian towards the browser
//! extension and big-endian towards the daemon, and neither side accepts a
//! message of more than 1 MiB.

use vstd::prelude::*;
use crate::duration::{decimal_text, push_decimal};
use crate::text::{push_str, string_from_chars};

verus! {

/// The longest message body accepted, in bytes.
pub const MAX_MESSAGE_LEN: u32 = 1048576;

/// The number four bytes stand for, least significant first.
pub open spec fn le_value(b: [u8; 4]) -> nat {
    (b@[0] + 256 * b@[1] + 65536 * b@[2] + 16777216 * b@[3]) as nat
}

/// The number four bytes stand for, most significant first.
pub open spec fn be_value(b: [u8; 4]) -> nat {
    (b@[3] + 256 * b@[2] + 65536 * b@[1] + 16777216 * b@[0]) as nat
}

/// The length a little-endian prefix gives.
pub fn length_from_le(b: [u8; 4]) -> (n: u32)
    ensures
        n == le_value(b),
{
    (b[0] as u32) + 256 * (b[1] as u32) + 65536 * (b[2] as u32) + 16777216 * (b[3] as u32)
}

/// The length a big-endian prefix gives.
pub fn length_from_be(b: [u8; 4]) -> (n: u32)
    ensures
        n == be_value(b),
{
    (b[3] as u32) + 256 * (b[2] as u32) + 65536 * (b[1] as u32) + 16777216 * (b[0] as u32)
}

fn bytes_of(n: u32) -> (d: (u8, u8, u8, u8))
    ensures
        d.0 + 256 * d.1 + 65536 * d.2 + 16777216 * d.3 == n,
{
    let d0 = (n % 256) as u8;
    let d1 = (n / 256 % 256) as u8;
    let d2 = (n / 65536 % 256) as u8;
    let d3 = (n / 16777216) as u8;
    (d0, d1, d2, d3)
}

/// The little-endian prefix of a body of `len` bytes: its length as a
/// `u32`, so modulo 2^32.
pub fn le_prefix(len: usize) -> (b: [u8; 4])
    ensures
        le_value(b) == len as nat % 4294967296,
{
    let n: u32 = ((len as u64) % 4294967296) as u32;
    let (d0, d1, d2, d3) = bytes_of(n);
    [d0, d1, d2, d3]
}

/// The big-endian prefix of a body of `len` bytes, modulo 2^32.
pub fn be_prefix(len: usize) -> (b: [u8; 4])
    ensures
        be_value(b) == len as nat % 4294967296,
{
    let n: u32 = ((len as u64) % 4294967296) as u32;
    let (d0, d1, d2, d3) = bytes_of(n);
    [d3, d2, d1, d0]
}

/// Which link a frame came over.
#[derive(Debug, Clone, Copy, PartialEq, Eq, Structural)]
pub enum Link {
    /// From the browser extension, little-endian.
    Extension,
    /// From the daemon, big-endian.
    Daemon,
}

/// The complaint about a frame of `n` bytes, which is too long.
pub open spec fn too_large_text(link: Link, n: nat) -> Seq<char> {
    match link {
        Link::Extension => "Message too large: "@ + decimal_text(n) + " bytes"@,
        Link::Daemon => "Daemon response too large: "@ + decimal_text(n) + " bytes"@,
    }
}

/// The length of the body that follows a prefix read from `link`, or the
/// complaint when it is longer than 1 MiB.
pub fn body_length(link: Link, prefix: [u8; 4]) -> (r: Result<u32, String>)
    ensures
        match link {
            Link::Extension => le_value(prefix) <= MAX_MESSAGE_LEN ==> r == Ok::<u32, String>(
                le_value(prefix) as u32,
            ),
            Link::Daemon => be_value(prefix) <= MAX_MESSAGE_LEN ==> r == Ok::<u32, String>(
                be_value(prefix) as u32,
            ),
        },
        r matches Err(m) ==> match link {
            Link::Extension => le_value(prefix) > MAX_MESSAGE_LEN && m@ == too_large_text(
                link,
                le_value(prefix),
            ),
            Link::Daemon => be_value(prefix) > MAX_MESSAGE_LEN && m@ == too_large_text(
                link,
                be_value(prefix),
            ),
        },
{
    let n = match link {
        Link::Extension => length_from_le(prefix),
        Link::Daemon => length_from_be(prefix),
    };
    if n > MAX_MESSAGE_LEN {
        let mut out: Vec<char> = Vec::new();
        match link {
            Link::Extension => push_str(&mut out, "Message too large: "),
            Link::Daemon => push_str(&mut out, "Daemon response too large: "),
        }
        push_decimal(&mut out, n as u64);
        push_str(&mut out, " bytes");
        assert(out@ =~= too_large_text(link, n as nat));
        Err(string_from_chars(&out))
    } else {
        Ok(n)
    }
}

/// A message framed for `link`: the prefix and the body.
pub fn frame(link: Link, body: &Vec<u8>) -> (f: Vec<u8>)
    ensures
        f@.len() == body@.len() + 4,
        f@.skip(4) == body@,
        link == Link::Extension ==> le_value([f@[0], f@[1], f@[2], f@[3]]) == body@.len()
            % 4294967296,
        link == Link::Daemon ==> be_value([f@[0], f@[1], f@[2], f@[3]]) == body@.len()
            % 4294967296,
{
    let prefix = match link {
        Link::Extension => le_prefix(body.len()),
        Link::Daemon => be_prefix(body.len()),
    };
    let mut f: Vec<u8> = Vec::new();
    f.push(prefix[0]);
    f.push(prefix[1]);
    f.push(prefix[2]);
    f.push(prefix[3]);
    let mut i: usize = 0;
    while i < body.len()
        invariant
            i <= body.len(),
            f@.len() == 4 + i,
            f@[0] == prefix@[0],
            f@[1] == prefix@[1],
            f@[2] == prefix@[2],
            f@[3] == prefix@[3],
            f@.skip(4) == body@.take(i as int),
        decreases body.len() - i,
    {
        f.push(body[i]);
        i += 1;
        assert(f@.skip(4) =~= body@.take(i as int));
    }
    assert(body@.take(body.len() as int) =~= body@);
    assert([f@[0], f@[1], f@[2], f@[3]]@ =~= prefix@);
    f
}

} // verus!
