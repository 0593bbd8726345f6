//! Framing of the messages that clients and the server exchange: each message
//! is compressed with LZ4 (the uncompressed size prepended) and sent after an
//! 8-byte big-endian header that holds the compressed length.
use vstd::prelude::*;

verus! {

#[verifier::external_type_specification]
#[verifier::external_body]
pub struct ExDecompressError(lz4_flex::block::DecompressError);

/// The bytes that `lz4_flex::compress_prepend_size` produces for `data`:
/// the length of `data` as a little-endian `u32`, then the LZ4 block.
pub uninterp spec fn lz4_compress_prepend_size(data: Seq<u8>) -> Seq<u8>;

/// What `lz4_flex::decompress_size_prepended` gives back for `input`:
/// `Some` of the decompressed bytes, or `None` where it reports an error.
pub uninterp spec fn lz4_decompress_size_prepended(input: Seq<u8>) -> Option<Seq<u8>>;

/// The value of the 4 bytes `b` read as a little-endian `u32`.
pub open spec fn le_u32(b: Seq<u8>) -> int {
    b[0] + 256 * b[1] + 65536 * b[2] + 16777216 * b[3]
}

/// An LZ4 length extension read from `p` at `pos`: the bytes are added up
/// until one that is not `0xFF` (which is added too) or the end of `p`. The
/// sum, and the position after the last byte read.
pub open spec fn read_length_ext(p: Seq<u8>, pos: int) -> (int, int)
    decreases p.len() - pos,
{
    if pos < 0 || pos >= p.len() {
        (0, pos)
    } else if p[pos] == 0xFF {
        (255 + read_length_ext(p, pos + 1).0, read_length_ext(p, pos + 1).1)
    } else {
        (p[pos] as int, pos + 1)
    }
}

/// Whether every extended length of the LZ4 sequences of `p` from `pos` on
/// stays within `cap`. Each sequence is a token (its high nibble the literal
/// length, 15 meaning an extension follows), the literals, a 2-byte offset,
/// and, when the low nibble is 15, an extension of the match length (which
/// counts 4 + 15 more). The walk goes through the sequences as far as the
/// bytes reach; it stops, with `true`, where the data ends.
pub open spec fn lengths_within(p: Seq<u8>, pos: int, cap: int) -> bool
    decreases p.len() - pos,
{
    if pos < 0 || pos >= p.len() {
        true
    } else {
        let token = p[pos];
        let lit_ext = read_length_ext(p, pos + 1);
        let lit = if token / 16 == 15 { 15 + lit_ext.0 } else { (token / 16) as int };
        let after_lit_len = if token / 16 == 15 { lit_ext.1 } else { pos + 1 };
        let after_literals = after_lit_len + lit;
        if token / 16 == 15 && lit > cap {
            false
        } else if after_literals + 2 > p.len() {
            true
        } else {
            let after_offset = after_literals + 2;
            let match_ext = read_length_ext(p, after_offset);
            if token % 16 == 15 {
                19 + match_ext.0 <= cap && (pos < match_ext.1 < p.len() ==> lengths_within(p, match_ext.1, cap))
            } else {
                pos < after_offset < p.len() ==> lengths_within(p, after_offset, cap)
            }
        }
    }
}

/// The payloads on which the decompressor is called: too short for the size
/// prefix, or with a prefix that a buffer can have (at most `isize::MAX`)
/// and every extended length within that prefix. A payload that decompresses
/// has all its lengths within the prefix (the decompressor refuses any length
/// that does not fit the announced size), so this refuses no valid payload.
pub open spec fn payload_accepted(payload: Seq<u8>) -> bool {
    payload.len() < 4 || (le_u32(payload) <= isize::MAX && lengths_within(payload, 4, le_u32(payload)))
}

/// Calls `lz4_flex::compress_prepend_size`. Trusted: the result is the value
/// of the name `lz4_compress_prepend_size` on the input; it starts with a
/// 4-byte size prefix (the crate always writes one); and, as the crate
/// documents ("can be used in conjunction with `decompress_size_prepended`"),
/// decompressing it gives the input back when the input's length fits the
/// `u32` prefix. Such a result is then also accepted by `payload_accepted`:
/// its prefix is the input's length (at most `isize::MAX`, the input being a
/// slice), and since the decompressor returns it successfully, every length
/// in it fits that size (`decompress_internal` errors on a literal or match
/// length beyond the output buffer, which has the prefixed size). The input
/// is short enough that `len * 110` does not overflow `usize` in
/// `get_maximum_output_size` (which it can on a 32-bit target).
#[verifier::external_body]
fn lz4_compress(data: &[u8]) -> (compressed: Vec<u8>)
    requires
        data@.len() <= (usize::MAX - 24) / 110,
    ensures
        compressed@ == lz4_compress_prepend_size(data@),
        compressed@.len() >= 4,
        data@.len() <= u32::MAX ==> lz4_decompress_size_prepended(compressed@) == Some(data@),
        data@.len() <= u32::MAX ==> payload_accepted(compressed@),
{
    lz4_flex::compress_prepend_size(data)
}

/// Calls `lz4_flex::decompress_size_prepended`. Trusted: `Ok` exactly where
/// the name `lz4_decompress_size_prepended` is `Some`, with the same bytes.
/// The input is accepted by `payload_accepted`, which keeps the call from
/// panicking: `read_integer` sums extension bytes into a `u32` with `+=`,
/// and `decompress_internal` adds 15 or 19 to such a sum and a match length
/// to the output position with `+`; with every length within the prefixed
/// size (at most `isize::MAX`) none of these overflows, and the buffer it
/// allocates (of the prefixed size) can exist. Not stated: the crate
/// allocates the size that the prefix announces, so a forged prefix can
/// exhaust memory.
#[verifier::external_body]
fn lz4_decompress(input: &[u8]) -> (result: Result<Vec<u8>, lz4_flex::block::DecompressError>)
    requires
        payload_accepted(input@),
    ensures
        match result {
            Ok(v) => lz4_decompress_size_prepended(input@) == Some(v@),
            Err(_) => lz4_decompress_size_prepended(input@) is None,
        },
{
    lz4_flex::decompress_size_prepended(input)
}

proof fn lemma_read_length_ext_end(p: Seq<u8>, pos: int)
    requires
        0 <= pos,
    ensures
        read_length_ext(p, pos).1 >= pos,
        pos < p.len() ==> read_length_ext(p, pos).1 > pos,
        read_length_ext(p, pos).1 <= p.len() || read_length_ext(p, pos).1 == pos,
        read_length_ext(p, pos).0 >= 0,
    decreases p.len() - pos,
{
    if pos < p.len() && p[pos] == 0xFF {
        lemma_read_length_ext_end(p, pos + 1);
    }
}

proof fn lemma_read_length_ext_bound(p: Seq<u8>, pos: int)
    requires
        0 <= pos,
    ensures
        read_length_ext(p, pos).0 <= 255 * (p.len() - pos) || pos >= p.len(),
        read_length_ext(p, pos).0 >= 0,
    decreases p.len() - pos,
{
    if pos < p.len() && p[pos] == 0xFF {
        lemma_read_length_ext_bound(p, pos + 1);
    }
}

proof fn lemma_read_length_ext_run(p: Seq<u8>, pos: int, k: int)
    requires
        0 <= pos,
        0 <= k,
        pos + k <= p.len(),
        forall|j: int| pos <= j < pos + k ==> p[j] == 0xFF,
    ensures
        read_length_ext(p, pos).0 >= 255 * k,
    decreases k,
{
    lemma_read_length_ext_bound(p, pos);
    if k > 0 {
        lemma_read_length_ext_run(p, pos + 1, k - 1);
    }
}

proof fn lemma_lengths_within_generous(p: Seq<u8>, pos: int, cap: int)
    requires
        0 <= pos,
        cap >= 255 * p.len() + 19,
    ensures
        lengths_within(p, pos, cap),
    decreases p.len() - pos,
{
    if pos < p.len() {
        lemma_read_length_ext_bound(p, pos + 1);
        lemma_read_length_ext_end(p, pos + 1);
        let token = p[pos];
        let lit_ext = read_length_ext(p, pos + 1);
        let lit = if token / 16 == 15 { 15 + lit_ext.0 } else { (token / 16) as int };
        let after_lit_len = if token / 16 == 15 { lit_ext.1 } else { pos + 1 };
        let after_literals = after_lit_len + lit;
        if after_literals + 2 <= p.len() {
            let after_offset = after_literals + 2;
            lemma_read_length_ext_bound(p, after_offset);
            lemma_read_length_ext_end(p, after_offset);
            let match_ext = read_length_ext(p, after_offset);
            if token % 16 == 15 {
                if pos < match_ext.1 < p.len() {
                    lemma_lengths_within_generous(p, match_ext.1, cap);
                }
            } else {
                if pos < after_offset < p.len() {
                    lemma_lengths_within_generous(p, after_offset, cap);
                }
            }
        }
    }
}

/// Whether a payload is accepted depends on its length fields only: a
/// payload whose announced size is at least 255 times its own length (plus
/// 19), and that a buffer can hold, is accepted whatever its bytes are:
/// literals, offsets (an offset of 0 or 1 included) and tokens.
pub proof fn lemma_generous_size_accepts(payload: Seq<u8>)
    requires
        payload.len() >= 4,
        le_u32(payload) <= isize::MAX,
        le_u32(payload) >= 255 * payload.len() + 19,
    ensures
        payload_accepted(payload),
{
    lemma_lengths_within_generous(payload, 4, le_u32(payload));
}

/// A sequence without length extensions (both nibbles of its token below
/// 15) is never a reason to refuse a payload, whatever its literal and
/// offset bytes: the payload is accepted from that sequence on exactly when
/// it is accepted from the next one, and always when it is the last one.
pub proof fn lemma_plain_sequence_neutral(p: Seq<u8>, pos: int, cap: int)
    requires
        0 <= pos < p.len(),
        p[pos] / 16 < 15,
        p[pos] % 16 < 15,
    ensures
        pos + 1 + p[pos] / 16 + 2 < p.len() ==> (lengths_within(p, pos, cap) == lengths_within(p, pos + 1 + p[pos] / 16 + 2, cap)),
        pos + 1 + p[pos] / 16 + 2 >= p.len() ==> lengths_within(p, pos, cap),
{
}

/// A literal length that passes the announced size refuses the payload: a
/// token whose literal nibble is 15, followed by `k` bytes 0xFF, announces
/// at least 15 + 255 k literals; when that is more than `cap`, the walk
/// from that token fails.
pub proof fn lemma_oversized_length_refused(p: Seq<u8>, pos: int, k: int, cap: int)
    requires
        0 <= pos < p.len(),
        0 <= k,
        p[pos] / 16 == 15,
        pos + 1 + k <= p.len(),
        forall|j: int| pos + 1 <= j < pos + 1 + k ==> p[j] == 0xFF,
        15 + 255 * k > cap,
    ensures
        !lengths_within(p, pos, cap),
{
    lemma_read_length_ext_run(p, pos + 1, k);
}

/// Reads the length extension of `p` at `pos`, giving up (`None`) as soon
/// as the sum passes `limit`.
fn read_length_ext_bounded(p: &[u8], pos: usize, limit: u64) -> (r: Option<(u64, usize)>)
    requires
        limit <= u32::MAX,
    ensures
        match r {
            Some((sum, end)) => read_length_ext(p@, pos as int) == (sum as int, end as int) && sum <= limit,
            None => read_length_ext(p@, pos as int).0 > limit,
        },
{
    let mut i: usize = pos;
    let mut acc: u64 = 0;
    while i < p.len() && p[i] == 0xFF
        invariant
            pos <= i,
            limit <= u32::MAX,
            acc <= limit,
            acc == 255 * (i - pos),
            read_length_ext(p@, pos as int) == (acc + read_length_ext(p@, i as int).0, read_length_ext(p@, i as int).1),
        decreases p@.len() - i,
    {
        proof {
            lemma_read_length_ext_end(p@, i as int + 1);
        }
        if acc + 255 > limit {
            return None;
        }
        acc = acc + 255;
        i = i + 1;
    }
    if i >= p.len() {
        return Some((acc, i));
    }
    let last = p[i] as u64;
    if acc + last > limit {
        return None;
    }
    Some((acc + last, i + 1))
}

/// Whether `payload_accepted` holds of `payload`.
fn accepts_payload(payload: &[u8]) -> (ok: bool)
    ensures
        ok == payload_accepted(payload@),
{
    if payload.len() < 4 {
        return true;
    }
    let cap: u64 = payload[0] as u64 + 256 * (payload[1] as u64) + 65536 * (payload[2] as u64)
        + 16777216 * (payload[3] as u64);
    if cap > isize::MAX as u64 {
        return false;
    }
    let len = payload.len();
    let mut pos: usize = 4;
    while pos < len
        invariant
            len == payload@.len(),
            4 <= pos,
            cap == le_u32(payload@),
            cap <= u32::MAX,
            payload_accepted(payload@) == lengths_within(payload@, pos as int, cap as int),
        decreases len - pos,
    {
        let ghost g = pos as int;
        proof {
            lemma_read_length_ext_end(payload@, g + 1);
        }
        let token = payload[pos];
        let lit: u64;
        let after_lit_len: usize;
        if token / 16 == 15 {
            if cap < 15 {
                return false;
            }
            match read_length_ext_bounded(payload, pos + 1, cap - 15) {
                None => return false,
                Some((sum, end)) => {
                    lit = 15 + sum;
                    after_lit_len = end;
                },
            }
        } else {
            lit = (token / 16) as u64;
            after_lit_len = pos + 1;
        }
        // the literals and the offset reach past the end: the walk is over
        if lit + 2 > (len - after_lit_len) as u64 {
            return true;
        }
        let after_offset: usize = after_lit_len + (lit as usize) + 2;
        proof {
            lemma_read_length_ext_end(payload@, after_offset as int);
        }
        if token % 16 == 15 {
            if cap < 19 {
                return false;
            }
            match read_length_ext_bounded(payload, after_offset, cap - 19) {
                None => return false,
                Some((_sum, end)) => {
                    pos = end;
                },
            }
        } else {
            pos = after_offset;
        }
    }
    true
}

/// The `i`-th byte (0 is the most significant) of `n` in big-endian order.
pub open spec fn be_byte(n: u64, i: int) -> u8 {
    (n >> ((7 - i) * 8) as u64) as u8
}

/// The 8 big-endian bytes of `n`.
pub open spec fn be_bytes(n: u64) -> Seq<u8> {
    Seq::new(8, |i: int| be_byte(n, i))
}

/// The `u64` whose big-endian bytes are the first 8 of `b`.
pub open spec fn from_be_bytes(b: Seq<u8>) -> u64 {
    ((b[0] as u64) << 56) | ((b[1] as u64) << 48) | ((b[2] as u64) << 40) | ((b[3] as u64) << 32)
        | ((b[4] as u64) << 24) | ((b[5] as u64) << 16) | ((b[6] as u64) << 8) | (b[7] as u64)
}

/// The whole frame that is sent for `data`: the header with the length of the
/// compressed bytes, then the compressed bytes.
pub open spec fn frame_spec(data: Seq<u8>) -> Seq<u8> {
    be_bytes(lz4_compress_prepend_size(data).len() as u64) + lz4_compress_prepend_size(data)
}

/// Encodes a payload length as the 8-byte big-endian frame header.
pub fn encode_header(len: u64) -> (header: [u8; 8])
    ensures
        header@ == be_bytes(len),
{
    let header: [u8; 8] = [
        (len >> 56) as u8,
        (len >> 48) as u8,
        (len >> 40) as u8,
        (len >> 32) as u8,
        (len >> 24) as u8,
        (len >> 16) as u8,
        (len >> 8) as u8,
        len as u8,
    ];
    proof {
        assert forall|i: int| 0 <= i < 8 implies header@[i] == be_byte(len, i) by {
            if i == 0 { assert(be_byte(len, 0) == (len >> 56) as u8); }
            else if i == 1 { assert(be_byte(len, 1) == (len >> 48) as u8); }
            else if i == 2 { assert(be_byte(len, 2) == (len >> 40) as u8); }
            else if i == 3 { assert(be_byte(len, 3) == (len >> 32) as u8); }
            else if i == 4 { assert(be_byte(len, 4) == (len >> 24) as u8); }
            else if i == 5 { assert(be_byte(len, 5) == (len >> 16) as u8); }
            else if i == 6 { assert(be_byte(len, 6) == (len >> 8) as u8); }
            else { assert(be_byte(len, 7) == (len >> 0) as u8); assert(len >> 0 == len) by (bit_vector); }
        }
        assert(header@ =~= be_bytes(len));
    }
    header
}

/// Decodes the 8-byte big-endian frame header into the payload length.
pub fn decode_header(header: &[u8; 8]) -> (len: u64)
    ensures
        len == from_be_bytes(header@),
{
    ((header[0] as u64) << 56) | ((header[1] as u64) << 48) | ((header[2] as u64) << 40) | ((
    header[3] as u64) << 32) | ((header[4] as u64) << 24) | ((header[5] as u64) << 16) | ((
    header[6] as u64) << 8) | (header[7] as u64)
}

/// A header decodes to the length it was encoded from.
pub proof fn lemma_header_roundtrip(len: u64)
    ensures
        from_be_bytes(be_bytes(len)) == len,
{
    let b = be_bytes(len);
    assert(b[0] == (len >> 56) as u8);
    assert(b[1] == (len >> 48) as u8);
    assert(b[2] == (len >> 40) as u8);
    assert(b[3] == (len >> 32) as u8);
    assert(b[4] == (len >> 24) as u8);
    assert(b[5] == (len >> 16) as u8);
    assert(b[6] == (len >> 8) as u8);
    assert(b[7] == (len >> 0) as u8);
    assert(((((len >> 56) as u8) as u64) << 56) | ((((len >> 48) as u8) as u64) << 48) | ((((len
        >> 40) as u8) as u64) << 40) | ((((len >> 32) as u8) as u64) << 32) | ((((len >> 24)
        as u8) as u64) << 24) | ((((len >> 16) as u8) as u64) << 16) | ((((len >> 8) as u8)
        as u64) << 8) | (((len >> 0) as u8) as u64) == len) by (bit_vector);
}

/// Why a received payload could not be turned back into a message.
pub enum ReceiveError {
    /// The size prefix announces more than a buffer can hold (`isize::MAX`
    /// bytes, which a `u32` can pass only on a 32-bit target).
    TooLarge,
    /// The payload is not valid LZ4 data with a size prefix.
    Decompress,
}

/// The bytes that are sent for `data`: the 8-byte big-endian header holding
/// the length of the compressed data, then the data compressed with LZ4 (its
/// uncompressed size prepended). Sending writes exactly these bytes.
pub fn headered_frame(data: &[u8]) -> (frame: Vec<u8>)
    requires
        data@.len() <= (usize::MAX - 24) / 110,
    ensures
        frame@ == frame_spec(data@),
        data@.len() <= u32::MAX ==> receive_spec(frame@) == Some(data@),
{
    let compressed = lz4_compress(data);
    // the header measures the compressed data, not the uncompressed data
    let header = encode_header(compressed.len() as u64);
    let mut frame: Vec<u8> = Vec::new();
    let mut i: usize = 0;
    while i < 8
        invariant
            i <= 8,
            frame@ == header@.subrange(0, i as int),
        decreases 8 - i,
    {
        frame.push(header[i]);
        proof {
            assert(frame@ =~= header@.subrange(0, i + 1));
        }
        i = i + 1;
    }
    let mut j: usize = 0;
    while j < compressed.len()
        invariant
            j <= compressed@.len(),
            frame@ == header@ + compressed@.subrange(0, j as int),
        decreases compressed@.len() - j,
    {
        frame.push(compressed[j]);
        proof {
            assert(frame@ =~= header@ + compressed@.subrange(0, j + 1));
        }
        j = j + 1;
    }
    proof {
        assert(compressed@.subrange(0, compressed@.len() as int) =~= compressed@);
        lemma_frame_layout(data@);
        assert(frame@.subrange(8, 8 + compressed@.len() as int) =~= compressed@);
    }
    frame
}

/// Turns a received payload (the bytes that followed the header) back into
/// the message: decompresses it. `Err(TooLarge)` exactly where the size
/// prefix passes `isize::MAX`; otherwise `Err(Decompress)` exactly where the
/// payload is not valid LZ4 data: where a length passes the size prefix
/// (which the decompressor refuses, and for which it could overflow) or the
/// decompressor reports an error.
pub fn receive_payload(payload: &[u8]) -> (result: Result<Vec<u8>, ReceiveError>)
    ensures
        match result {
            Ok(v) => payload_accepted(payload@) && lz4_decompress_size_prepended(payload@) == Some(v@),
            Err(ReceiveError::TooLarge) => payload@.len() >= 4 && le_u32(payload@) > isize::MAX,
            Err(ReceiveError::Decompress) => !(payload@.len() >= 4 && le_u32(payload@) > isize::MAX)
                && (!payload_accepted(payload@) || lz4_decompress_size_prepended(payload@) is None),
        },
{
    if payload.len() >= 4 {
        let prefix: u64 = payload[0] as u64 + 256 * (payload[1] as u64) + 65536 * (payload[2] as u64)
            + 16777216 * (payload[3] as u64);
        if prefix > isize::MAX as u64 {
            return Err(ReceiveError::TooLarge);
        }
    }
    if !accepts_payload(payload) {
        return Err(ReceiveError::Decompress);
    }
    match lz4_decompress(payload) {
        Ok(v) => Ok(v),
        Err(_) => Err(ReceiveError::Decompress),
    }
}

/// What the receiver does with a whole frame: reads the length in the first 8
/// bytes, takes that many bytes as the payload and decompresses it. `None`
/// where the frame is shorter than the header or than the length it
/// announces, where the payload is not accepted, or where it is not valid.
pub open spec fn receive_spec(frame: Seq<u8>) -> Option<Seq<u8>> {
    if frame.len() < 8 {
        None
    } else if frame.len() - 8 < from_be_bytes(frame.subrange(0, 8)) {
        None
    } else {
        let payload = frame.subrange(8, 8 + from_be_bytes(frame.subrange(0, 8)) as int);
        if payload_accepted(payload) {
            lz4_decompress_size_prepended(payload)
        } else {
            None
        }
    }
}

/// A frame splits into the header, which decodes to the length of the
/// compressed data, and a payload that is exactly the compressed data.
pub proof fn lemma_frame_layout(data: Seq<u8>)
    requires
        lz4_compress_prepend_size(data).len() <= u64::MAX,
    ensures
        frame_spec(data).subrange(0, 8) == be_bytes(lz4_compress_prepend_size(data).len() as u64),
        from_be_bytes(frame_spec(data).subrange(0, 8)) == lz4_compress_prepend_size(data).len(),
        frame_spec(data).subrange(8, frame_spec(data).len() as int) == lz4_compress_prepend_size(data),
{
    let c = lz4_compress_prepend_size(data);
    let f = frame_spec(data);
    assert(f.subrange(0, 8) =~= be_bytes(c.len() as u64));
    assert(f.subrange(8, f.len() as int) =~= c);
    lemma_header_roundtrip(c.len() as u64);
}

} // verus!
