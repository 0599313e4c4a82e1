//! The wire frame: a 14-byte header (6-byte magic, then payload length and
//! type tag as native-endian `u32`s) followed by the payload bytes.
use vstd::prelude::*;
use vstd::bytes::{spec_u32_from_le_bytes, spec_u32_to_le_bytes, lemma_auto_spec_u32_to_from_le_bytes};
use vstd::endian::{Endian, endianness};
use crate::error::ResponseDeserializeError;

verus! {

/// Length in bytes of a frame header.
pub const HEADER_LENGTH: usize = 14;

/// The magic bytes as a sequence.
pub open spec fn magic() -> Seq<u8> {
    seq![0x69u8, 0x33u8, 0x2du8, 0x69u8, 0x70u8, 0x63u8]
}

/// The four bytes of `x` in byte order `e`.
pub open spec fn u32_bytes(e: Endian, x: u32) -> Seq<u8> {
    match e {
        Endian::Little => spec_u32_to_le_bytes(x),
        Endian::Big => spec_u32_to_le_bytes(x).reverse(),
    }
}

/// The `u32` that four bytes `s` hold in byte order `e`.
pub open spec fn u32_value(e: Endian, s: Seq<u8>) -> u32 {
    match e {
        Endian::Little => spec_u32_from_le_bytes(s),
        Endian::Big => spec_u32_from_le_bytes(s.reverse()),
    }
}

/// Reading back the bytes of a `u32` gives the `u32`, and writing back the
/// value of four bytes gives those bytes, in either byte order.
pub proof fn lemma_u32_round_trip(e: Endian)
    ensures
        forall|x: u32| #[trigger] u32_bytes(e, x).len() == 4 && u32_value(e, u32_bytes(e, x)) == x,
        forall|s: Seq<u8>| s.len() == 4 ==> #[trigger] u32_bytes(e, u32_value(e, s)) == s,
{
    lemma_auto_spec_u32_to_from_le_bytes();
    assert forall|x: u32| #[trigger] u32_bytes(e, x).len() == 4 && u32_value(e, u32_bytes(e, x)) == x by {
        let b = spec_u32_to_le_bytes(x);
        assert(b.len() == 4);
        assert(b.reverse().reverse() =~= b);
    }
    assert forall|s: Seq<u8>| s.len() == 4 implies #[trigger] u32_bytes(e, u32_value(e, s)) == s by {
        assert(s.reverse().reverse() =~= s);
        assert(s.reverse().len() == 4);
    }
}

/// Relies on `u32::from_ne_bytes`: the bytes read in the host's byte order.
#[verifier::external_body]
fn u32_from_ne_bytes(b: [u8; 4]) -> (r: u32)
    ensures
        r == u32_value(endianness(), b@),
{
    u32::from_ne_bytes(b)
}

/// Relies on `u32::to_ne_bytes`: the bytes of `x` in the host's byte order.
#[verifier::external_body]
pub(crate) fn u32_to_ne_bytes(x: u32) -> (r: [u8; 4])
    ensures
        r@ == u32_bytes(endianness(), x),
{
    x.to_ne_bytes()
}

/// Text of `b` decoded as UTF-8, each invalid sequence replaced by U+FFFD.
pub uninterp spec fn utf8_lossy(b: Seq<u8>) -> Seq<char>;

/// Relies on `String::from_utf8_lossy`: the text of `b`, invalid UTF-8
/// replaced, as a function of the bytes alone.
#[verifier::external_body]
pub(crate) fn lossy_text(b: &[u8]) -> (r: String)
    ensures
        r@ == utf8_lossy(b@),
{
    String::from_utf8_lossy(b).into_owned()
}

/// The payload length that header bytes `h` declare in byte order `e`.
pub open spec fn header_payload_len(e: Endian, h: Seq<u8>) -> u32 {
    u32_value(e, h.subrange(6, 10))
}

/// The type tag that header bytes `h` carry in byte order `e`.
pub open spec fn header_tag(e: Endian, h: Seq<u8>) -> u32 {
    u32_value(e, h.subrange(10, 14))
}

/// Whether header bytes `h` open with the magic.
pub open spec fn has_magic(h: Seq<u8>) -> bool {
    h.subrange(0, 6) == magic()
}

/// The header of a frame with the given payload length and tag.
pub open spec fn header_bytes(e: Endian, payload_len: u32, tag: u32) -> Seq<u8> {
    magic() + u32_bytes(e, payload_len) + u32_bytes(e, tag)
}

/// The whole frame: header, then the payload.
pub open spec fn frame_bytes(e: Endian, tag: u32, payload: Seq<u8>) -> Seq<u8> {
    header_bytes(e, payload.len() as u32, tag) + payload
}

/// What `decode_header` gives for the header bytes `h` in the host's order.
pub open spec fn header_result(h: Seq<u8>, r: Result<RawHeader, ResponseDeserializeError>) -> bool {
    if has_magic(h) {
        r == Ok::<RawHeader, ResponseDeserializeError>(RawHeader {
            payload_len: header_payload_len(endianness(), h),
            tag: header_tag(endianness(), h),
        })
    } else {
        match r {
            Err(ResponseDeserializeError::InvalidMagicString(s)) => s@ == utf8_lossy(h.subrange(0, 6)),
            _ => false,
        }
    }
}

/// A header whose magic has been checked; its tag is not yet interpreted.
#[derive(Clone, Copy, Debug, PartialEq, Eq, Structural)]
pub struct RawHeader {
    pub payload_len: u32,
    pub tag: u32,
}

/// Checks the magic of a 14-byte header and reads its length and tag.
pub fn decode_header(h: &[u8]) -> (r: Result<RawHeader, ResponseDeserializeError>)
    requires
        h@.len() == HEADER_LENGTH,
    ensures
        header_result(h@, r),
{
    let ok = h[0] == 0x69u8 && h[1] == 0x33u8 && h[2] == 0x2du8 && h[3] == 0x69u8 && h[4] == 0x70u8
        && h[5] == 0x63u8;
    if !ok {
        proof {
            if has_magic(h@) {
                assert(h@.subrange(0, 6)[0] == h@[0]);
                assert(h@.subrange(0, 6)[1] == h@[1]);
                assert(h@.subrange(0, 6)[2] == h@[2]);
                assert(h@.subrange(0, 6)[3] == h@[3]);
                assert(h@.subrange(0, 6)[4] == h@[4]);
                assert(h@.subrange(0, 6)[5] == h@[5]);
            }
        }
        let head = [h[0], h[1], h[2], h[3], h[4], h[5]];
        assert(head@ =~= h@.subrange(0, 6));
        return Err(ResponseDeserializeError::InvalidMagicString(lossy_text(&head)));
    }
    assert(h@.subrange(0, 6) =~= magic());
    let len_bytes = [h[6], h[7], h[8], h[9]];
    let tag_bytes = [h[10], h[11], h[12], h[13]];
    assert(len_bytes@ =~= h@.subrange(6, 10));
    assert(tag_bytes@ =~= h@.subrange(10, 14));
    Ok(RawHeader { payload_len: u32_from_ne_bytes(len_bytes), tag: u32_from_ne_bytes(tag_bytes) })
}

/// Appends the four bytes of `b` to `out`.
fn push_four(out: &mut Vec<u8>, b: [u8; 4])
    ensures
        final(out)@ == old(out)@ + b@,
{
    out.push(b[0]);
    out.push(b[1]);
    out.push(b[2]);
    out.push(b[3]);
    assert(final(out)@ =~= old(out)@ + b@);
}

/// The frame that carries `payload` under `tag`.
pub fn encode_frame(tag: u32, payload: &[u8]) -> (r: Vec<u8>)
    requires
        payload@.len() <= u32::MAX,
    ensures
        r@ == frame_bytes(endianness(), tag, payload@),
{
    let mut out: Vec<u8> = Vec::new();
    out.push(0x69u8);
    out.push(0x33u8);
    out.push(0x2du8);
    out.push(0x69u8);
    out.push(0x70u8);
    out.push(0x63u8);
    assert(out@ =~= magic());
    let len = payload.len() as u32;
    push_four(&mut out, u32_to_ne_bytes(len));
    push_four(&mut out, u32_to_ne_bytes(tag));
    let ghost head = out@;
    let mut i: usize = 0;
    while i < payload.len()
        invariant
            i <= payload@.len(),
            out@ == head + payload@.subrange(0, i as int),
        decreases payload@.len() - i,
    {
        out.push(payload[i]);
        i = i + 1;
        assert(out@ =~= head + payload@.subrange(0, i as int));
    }
    assert(payload@.subrange(0, payload@.len() as int) =~= payload@);
    out
}

/// Decoding a header and encoding its length and tag again gives the same
/// bytes, and encoding a length and tag and decoding them gives them back.
pub proof fn lemma_header_round_trip(e: Endian, h: Seq<u8>, payload_len: u32, tag: u32)
    ensures
        h.len() == HEADER_LENGTH && has_magic(h) ==> header_bytes(
            e,
            header_payload_len(e, h),
            header_tag(e, h),
        ) == h,
        header_bytes(e, payload_len, tag).len() == HEADER_LENGTH,
        has_magic(header_bytes(e, payload_len, tag)),
        header_payload_len(e, header_bytes(e, payload_len, tag)) == payload_len,
        header_tag(e, header_bytes(e, payload_len, tag)) == tag,
{
    lemma_u32_round_trip(e);
    let hb = header_bytes(e, payload_len, tag);
    assert(u32_bytes(e, payload_len).len() == 4);
    assert(u32_bytes(e, tag).len() == 4);
    assert(hb.subrange(0, 6) =~= magic());
    assert(hb.subrange(6, 10) =~= u32_bytes(e, payload_len));
    assert(hb.subrange(10, 14) =~= u32_bytes(e, tag));
    if h.len() == HEADER_LENGTH && has_magic(h) {
        let a = h.subrange(6, 10);
        let b = h.subrange(10, 14);
        assert(u32_bytes(e, u32_value(e, a)) == a);
        assert(u32_bytes(e, u32_value(e, b)) == b);
        assert(header_bytes(e, header_payload_len(e, h), header_tag(e, h)) =~= h);
    }
}

/// A header that decodes gives back its own bytes when its length and tag
/// are encoded again; and encoded length and tag decode to themselves.
pub proof fn lemma_decode_encode_header(h: Seq<u8>, r: Result<RawHeader, ResponseDeserializeError>, payload_len: u32, tag: u32)
    requires
        h.len() == HEADER_LENGTH,
    ensures
        header_result(h, r) && r is Ok ==> header_bytes(endianness(), r->Ok_0.payload_len, r->Ok_0.tag) == h,
        header_result(header_bytes(endianness(), payload_len, tag), r) ==> r == Ok::<RawHeader, ResponseDeserializeError>(
            RawHeader { payload_len, tag },
        ),
{
    lemma_header_round_trip(endianness(), h, payload_len, tag);
}

} // verus!
