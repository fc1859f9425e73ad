//! Length-prefixed message framing: a big-endian `u32` length, then exactly
//! that many payload bytes.

use vstd::prelude::*;

verus! {

/// The largest payload a frame may carry or declare.
pub const MAX_FRAME_LEN: u32 = 16777216;

#[derive(Clone, Copy, Debug, PartialEq, Eq, Structural)]
pub enum FramingError {
    /// Fewer than the four bytes of a length prefix were available.
    TruncatedHeader { available: usize },
    /// The prefix declares more than `MAX_FRAME_LEN` bytes.
    TooLarge { declared: u32 },
    /// The stream ended before the declared payload was complete.
    TruncatedPayload { declared: u32, available: usize },
    /// A payload longer than `MAX_FRAME_LEN` was handed in to be framed.
    PayloadTooLarge { len: usize },
}

/// The four big-endian bytes of `n`.
pub open spec fn be_bytes(n: u32) -> Seq<u8> {
    seq![(n >> 24u32) as u8, (n >> 16u32) as u8, (n >> 8u32) as u8, n as u8]
}

/// The number whose big-endian bytes are `b0 b1 b2 b3`.
pub open spec fn be_value(b0: u8, b1: u8, b2: u8, b3: u8) -> u32 {
    ((b0 as u32) << 24u32) | ((b1 as u32) << 16u32) | ((b2 as u32) << 8u32) | (b3 as u32)
}

/// The bytes of one frame carrying `payload`.
pub open spec fn frame(payload: Seq<u8>) -> Seq<u8> {
    be_bytes(payload.len() as u32) + payload
}

/// The length that the first four bytes of `bytes` declare.
pub open spec fn declared_len(bytes: Seq<u8>) -> u32
    recommends
        bytes.len() >= 4,
{
    be_value(bytes[0], bytes[1], bytes[2], bytes[3])
}

/// What reading one length prefix from the front of `bytes` gives.
pub open spec fn header_spec(bytes: Seq<u8>) -> Result<u32, FramingError> {
    if bytes.len() < 4 {
        Err(FramingError::TruncatedHeader { available: bytes.len() as usize })
    } else if declared_len(bytes) > MAX_FRAME_LEN {
        Err(FramingError::TooLarge { declared: declared_len(bytes) })
    } else {
        Ok(declared_len(bytes))
    }
}

/// What reading one frame from the front of `bytes` gives: its payload and
/// the number of bytes the frame took.
pub open spec fn decode_spec(bytes: Seq<u8>) -> Result<(Seq<u8>, int), FramingError> {
    match header_spec(bytes) {
        Err(e) => Err(e),
        Ok(n) => if bytes.len() < 4 + n {
            Err(FramingError::TruncatedPayload { declared: n, available: (bytes.len() - 4) as usize })
        } else {
            Ok((bytes.subrange(4, 4 + n), 4 + n))
        },
    }
}

/// The big-endian length prefix for a payload of `n` bytes.
pub fn length_prefix(n: u32) -> (r: Vec<u8>)
    ensures
        r@ == be_bytes(n),
{
    let mut r: Vec<u8> = Vec::new();
    r.push((n >> 24u32) as u8);
    r.push((n >> 16u32) as u8);
    r.push((n >> 8u32) as u8);
    r.push(n as u8);
    assert(r@ =~= be_bytes(n));
    r
}

/// Frames `payload`; refuses one longer than `MAX_FRAME_LEN`.
pub fn encode_frame(payload: &[u8]) -> (r: Result<Vec<u8>, FramingError>)
    ensures
        match r {
            Ok(v) => payload@.len() <= MAX_FRAME_LEN && v@ == frame(payload@),
            Err(e) => payload@.len() > MAX_FRAME_LEN
                && e == (FramingError::PayloadTooLarge { len: payload@.len() as usize }),
        },
{
    let n = payload.len();
    if n > MAX_FRAME_LEN as usize {
        return Err(FramingError::PayloadTooLarge { len: n });
    }
    let mut out = length_prefix(n as u32);
    let mut i: usize = 0;
    while i < n
        invariant
            n == payload@.len(),
            i <= n,
            out@ == be_bytes(n as u32) + payload@.subrange(0, i as int),
        decreases n - i,
    {
        out.push(payload[i]);
        i = i + 1;
        assert(out@ =~= be_bytes(n as u32) + payload@.subrange(0, i as int));
    }
    assert(payload@.subrange(0, n as int) =~= payload@);
    Ok(out)
}

/// Reads the length prefix at the front of `bytes`, refusing a declared
/// length over `MAX_FRAME_LEN`.
pub fn decode_header(bytes: &[u8]) -> (r: Result<u32, FramingError>)
    ensures
        r == header_spec(bytes@),
{
    if bytes.len() < 4 {
        return Err(FramingError::TruncatedHeader { available: bytes.len() });
    }
    let n = ((bytes[0] as u32) << 24u32) | ((bytes[1] as u32) << 16u32) | ((bytes[2] as u32) << 8u32)
        | (bytes[3] as u32);
    if n > MAX_FRAME_LEN {
        Err(FramingError::TooLarge { declared: n })
    } else {
        Ok(n)
    }
}

/// Reads one frame from the front of `bytes`: its payload and the number of
/// bytes it took.
pub fn decode_frame(bytes: &[u8]) -> (r: Result<(Vec<u8>, usize), FramingError>)
    ensures
        match r {
            Ok((p, used)) => decode_spec(bytes@) == Ok::<(Seq<u8>, int), FramingError>(
                (p@, used as int),
            ),
            Err(e) => decode_spec(bytes@) == Err::<(Seq<u8>, int), FramingError>(e),
        },
{
    let n = match decode_header(bytes) {
        Ok(n) => n,
        Err(e) => return Err(e),
    };
    let avail = bytes.len() - 4;
    if avail < n as usize {
        return Err(FramingError::TruncatedPayload { declared: n, available: avail });
    }
    let end = 4 + n as usize;
    let mut p: Vec<u8> = Vec::new();
    let mut i: usize = 4;
    while i < end
        invariant
            4 <= i <= end <= bytes@.len(),
            p@ == bytes@.subrange(4, i as int),
        decreases end - i,
    {
        p.push(bytes[i]);
        i = i + 1;
        assert(p@ =~= bytes@.subrange(4, i as int));
    }
    Ok((p, end))
}

/// Framing a payload and reading the frame back gives the same payload,
/// whatever bytes follow the frame.
pub proof fn lemma_frame_round_trip(payload: Seq<u8>, rest: Seq<u8>)
    requires
        payload.len() <= MAX_FRAME_LEN,
    ensures
        decode_spec(frame(payload) + rest) == Ok::<(Seq<u8>, int), FramingError>(
            (payload, frame(payload).len() as int),
        ),
{
    let n = payload.len() as u32;
    let b = frame(payload) + rest;
    assert((((((n >> 24u32) as u8) as u32) << 24u32) | ((((n >> 16u32) as u8) as u32) << 16u32)
        | ((((n >> 8u32) as u8) as u32) << 8u32) | ((n as u8) as u32)) == n) by (bit_vector);
    assert(b[0] == (n >> 24u32) as u8 && b[1] == (n >> 16u32) as u8 && b[2] == (n >> 8u32) as u8
        && b[3] == n as u8);
    assert(declared_len(b) == n);
    assert(b.subrange(4, 4 + n) =~= payload);
}

/// One message value on its way to or from a frame.
#[derive(Clone, Copy, Debug, PartialEq, Eq)]
pub struct Packet<T> {
    data: T,
}

impl<T> Packet<T> {
    /// The value this packet carries.
    pub closed spec fn data(self) -> T {
        self.data
    }

    pub fn new(data: T) -> (r: Self)
        ensures
            r.data() == data,
    {
        Self { data }
    }

    pub fn take(self) -> (r: T)
        ensures
            r == self.data(),
    {
        self.data
    }
}

} // verus!
