//! Length-prefixed protocol frames.
//!
//! A frame is a four-byte little-endian body length followed by the body.
//! The body length must be positive and at most [`MAX_FRAME_BYTES`]; the
//! limit is applied before any body is read or decoded.

use vstd::prelude::*;

verus! {

/// Hard limit applied before JSON decoding.
pub const MAX_FRAME_BYTES: usize = 1_048_576;

/// Why a frame was refused.
#[derive(Clone, Copy, Debug, PartialEq, Eq, Structural)]
pub enum FrameError {
    /// The length prefix or the body was empty.
    ZeroLength,
    /// The length prefix or the body exceeds [`MAX_FRAME_BYTES`].
    ExceedsLimit,
    /// Fewer bytes are available than the frame needs.
    Incomplete,
}

/// The four little-endian bytes of `n`.
pub open spec fn le_u32_bytes(n: nat) -> Seq<u8> {
    seq![(n % 256) as u8, ((n / 256) % 256) as u8, ((n / 65536) % 256) as u8, ((n / 16777216) % 256) as u8]
}

/// The number whose little-endian encoding starts `bytes`.
pub open spec fn le_u32_value(bytes: Seq<u8>) -> nat
    recommends
        bytes.len() >= 4,
{
    (bytes[0] as nat) + 256 * (bytes[1] as nat) + 65536 * (bytes[2] as nat) + 16777216 * (bytes[3] as nat)
}

/// A body length that a frame may carry.
pub open spec fn valid_frame_length(n: nat) -> bool {
    0 < n <= MAX_FRAME_BYTES
}

/// The bytes of the frame that carries `body`.
pub open spec fn frame_of(body: Seq<u8>) -> Seq<u8> {
    le_u32_bytes(body.len()) + body
}

/// What decoding the length prefix of `bytes` yields.
pub open spec fn spec_frame_length(bytes: Seq<u8>) -> Result<nat, FrameError> {
    if bytes.len() < 4 {
        Err(FrameError::Incomplete)
    } else if le_u32_value(bytes) == 0 {
        Err(FrameError::ZeroLength)
    } else if le_u32_value(bytes) > MAX_FRAME_BYTES {
        Err(FrameError::ExceedsLimit)
    } else {
        Ok(le_u32_value(bytes))
    }
}

proof fn lemma_le_u32_round_trip(n: nat)
    requires
        n < 4294967296,
    ensures
        le_u32_value(le_u32_bytes(n)) == n,
{
    let b = le_u32_bytes(n);
    assert(b[0] as nat == n % 256);
    assert(b[1] as nat == (n / 256) % 256);
    assert(b[2] as nat == (n / 65536) % 256);
    assert(b[3] as nat == (n / 16777216) % 256);
    assert((n % 256) + 256 * ((n / 256) % 256) + 65536 * ((n / 65536) % 256) + 16777216 * ((n
        / 16777216) % 256) == n) by (nonlinear_arith)
        requires
            n < 4294967296,
    ;
}

/// Reads the length prefix at the start of `bytes` and checks it against the
/// frame limits before any body is read.
pub fn decode_frame_length(bytes: &[u8]) -> (result: Result<usize, FrameError>)
    ensures
        match (result, spec_frame_length(bytes@)) {
            (Ok(n), Ok(m)) => n as nat == m,
            (Err(e), Err(f)) => e == f,
            _ => false,
        },
{
    if bytes.len() < 4 {
        return Err(FrameError::Incomplete);
    }
    let b0 = bytes[0] as u64;
    let b1 = bytes[1] as u64;
    let b2 = bytes[2] as u64;
    let b3 = bytes[3] as u64;
    let length: u64 = b0 + 256 * b1 + 65536 * b2 + 16777216 * b3;
    assert(length == le_u32_value(bytes@));
    if length == 0 {
        Err(FrameError::ZeroLength)
    } else if length > MAX_FRAME_BYTES as u64 {
        Err(FrameError::ExceedsLimit)
    } else {
        Ok(length as usize)
    }
}

/// Encodes `body` as one frame, refusing an empty or oversized body.
pub fn encode_frame(body: &[u8]) -> (result: Result<Vec<u8>, FrameError>)
    ensures
        body@.len() == 0 ==> result == Err::<Vec<u8>, FrameError>(FrameError::ZeroLength),
        body@.len() > MAX_FRAME_BYTES ==> result == Err::<Vec<u8>, FrameError>(
            FrameError::ExceedsLimit,
        ),
        valid_frame_length(body@.len()) ==> (result matches Ok(frame) && frame@ == frame_of(
            body@,
        )),
{
    let n = body.len();
    if n == 0 {
        return Err(FrameError::ZeroLength);
    }
    if n > MAX_FRAME_BYTES {
        return Err(FrameError::ExceedsLimit);
    }
    let mut frame: Vec<u8> = Vec::new();
    frame.push((n % 256) as u8);
    frame.push(((n / 256) % 256) as u8);
    frame.push(((n / 65536) % 256) as u8);
    frame.push(((n / 16777216) % 256) as u8);
    assert(frame@ == le_u32_bytes(n as nat));
    let mut i: usize = 0;
    while i < n
        invariant
            n == body@.len(),
            i <= n,
            frame@ == le_u32_bytes(n as nat) + body@.subrange(0, i as int),
        decreases n - i,
    {
        frame.push(body[i]);
        assert(body@.subrange(0, (i + 1) as int) == body@.subrange(0, i as int).push(body@[i as int]));
        i = i + 1;
    }
    assert(body@.subrange(0, n as int) == body@);
    Ok(frame)
}

/// Decodes one complete frame at the start of `bytes`, returning the body and
/// the number of bytes the frame occupies.
pub fn decode_frame(bytes: &[u8]) -> (result: Result<(Vec<u8>, usize), FrameError>)
    ensures
        match spec_frame_length(bytes@) {
            Err(e) => result == Err::<(Vec<u8>, usize), FrameError>(e),
            Ok(n) => if bytes@.len() < 4 + n {
                result == Err::<(Vec<u8>, usize), FrameError>(FrameError::Incomplete)
            } else {
                result matches Ok((body, used)) && used == 4 + n && body@ == bytes@.subrange(
                    4,
                    4 + n as int,
                )
            },
        },
{
    let length = match decode_frame_length(bytes) {
        Ok(n) => n,
        Err(e) => return Err(e),
    };
    if bytes.len() - 4 < length {
        return Err(FrameError::Incomplete);
    }
    let mut body: Vec<u8> = Vec::new();
    let mut i: usize = 0;
    while i < length
        invariant
            length <= MAX_FRAME_BYTES,
            4 + length <= bytes@.len(),
            i <= length,
            body@ == bytes@.subrange(4, 4 + i as int),
        decreases length - i,
    {
        body.push(bytes[4 + i]);
        assert(bytes@.subrange(4, 4 + (i + 1) as int) == bytes@.subrange(4, 4 + i as int).push(
            bytes@[4 + i as int],
        ));
        i = i + 1;
    }
    Ok((body, 4 + length))
}

/// Decoding the frame that encodes a body gives that body back, and the frame
/// is consumed exactly.
pub proof fn law_frame_round_trip(body: Seq<u8>)
    requires
        valid_frame_length(body.len()),
    ensures
        spec_frame_length(frame_of(body)) == Ok::<nat, FrameError>(body.len()),
        frame_of(body).subrange(4, 4 + body.len() as int) == body,
        frame_of(body).len() == 4 + body.len(),
{
    lemma_le_u32_round_trip(body.len());
    let f = frame_of(body);
    assert(f.subrange(0, 4) == le_u32_bytes(body.len()));
    assert(le_u32_value(f) == le_u32_value(le_u32_bytes(body.len())));
    assert(f.subrange(4, 4 + body.len() as int) =~= body);
}

/// A length prefix is refused exactly when it is zero or above the limit.
pub proof fn law_length_prefix_limits(bytes: Seq<u8>)
    requires
        bytes.len() >= 4,
    ensures
        spec_frame_length(bytes) is Ok <==> valid_frame_length(le_u32_value(bytes)),
{
}

} // verus!
