//! The framing of actuation requests and responses on the wire: each
//! message is its serialized bytes after a four-byte big-endian length.
use vstd::prelude::*;

verus! {

/// The request/response protocol that carries actuations between nodes.
#[derive(Clone, Copy, Debug, PartialEq, Eq, Structural)]
pub enum ActuatorRequestProtocol {
    V1,
}

impl ActuatorRequestProtocol {
    /// The protocol's name, as peers negotiate it.
    pub fn protocol_name(&self) -> (r: &'static str)
        ensures
            r@ == "/diodt/actuators/1.0"@,
    {
        match self {
            ActuatorRequestProtocol::V1 => "/diodt/actuators/1.0",
        }
    }
}

/// The four big-endian bytes of `n < 2^32`.
pub open spec fn be32(n: nat) -> Seq<u8> {
    seq![(n / 0x100_0000) as u8, ((n / 0x1_0000) % 0x100) as u8, ((n / 0x100) % 0x100) as u8, (n % 0x100) as u8]
}

/// The number that four big-endian bytes stand for.
pub open spec fn read_be32(b: Seq<u8>) -> nat {
    (b[0] as nat) * 0x100_0000 + (b[1] as nat) * 0x1_0000 + (b[2] as nat) * 0x100 + (b[3] as nat)
}

/// The frame of a payload.
pub open spec fn framed(payload: Seq<u8>) -> Seq<u8> {
    be32(payload.len()) + payload
}

/// Why bytes do not hold a frame.
#[derive(Clone, Copy, Debug, PartialEq, Eq, Structural)]
pub enum FrameError {
    /// The bytes end before the length or before the payload it announces.
    Incomplete,
    /// The payload is too long for a four-byte length.
    TooLarge,
}

/// The largest payload a frame can carry.
pub const MAX_PAYLOAD: usize = 0xFFFF_FFFF;

proof fn lemma_be32_round_trip(n: nat)
    requires
        n <= 0xFFFF_FFFF,
    ensures
        read_be32(be32(n)) == n,
{
    let a = n / 0x100_0000;
    let r1 = n % 0x100_0000;
    let b = r1 / 0x1_0000;
    let r2 = r1 % 0x1_0000;
    let c = r2 / 0x100;
    let d = r2 % 0x100;
    assert(n == a * 0x100_0000 + r1) by (nonlinear_arith)
        requires a == n / 0x100_0000, r1 == n % 0x100_0000;
    assert(r1 == b * 0x1_0000 + r2) by (nonlinear_arith)
        requires b == r1 / 0x1_0000, r2 == r1 % 0x1_0000;
    assert(r2 == c * 0x100 + d) by (nonlinear_arith)
        requires c == r2 / 0x100, d == r2 % 0x100;
    assert(a < 0x100) by (nonlinear_arith) requires n <= 0xFFFF_FFFF, a == n / 0x100_0000;
    assert((n / 0x1_0000) % 0x100 == b) by (nonlinear_arith)
        requires a == n / 0x100_0000, r1 == n % 0x100_0000, b == r1 / 0x1_0000;
    assert((n / 0x100) % 0x100 == c) by (nonlinear_arith)
        requires r1 == n % 0x100_0000, r2 == r1 % 0x1_0000, c == r2 / 0x100;
    assert(n % 0x100 == d) by (nonlinear_arith)
        requires r1 == n % 0x100_0000, r2 == r1 % 0x1_0000, d == r2 % 0x100;
}

/// Marker for the codec that moves actuation requests and responses.
#[derive(Clone, Copy, Debug, PartialEq, Eq, Structural)]
pub struct ActuatorRequestsCodec;

impl ActuatorRequestsCodec {
    /// The frame that carries `payload`; `TooLarge` when its length does
    /// not fit in four bytes.
    pub fn frame(payload: &Vec<u8>) -> (r: Result<Vec<u8>, FrameError>)
        ensures
            payload@.len() <= MAX_PAYLOAD ==> (r matches Ok(bytes) && bytes@ == framed(payload@)),
            payload@.len() > MAX_PAYLOAD ==> r == Err::<Vec<u8>, FrameError>(FrameError::TooLarge),
    {
        let n = payload.len();
        if n > MAX_PAYLOAD {
            return Err(FrameError::TooLarge);
        }
        let mut out: Vec<u8> = Vec::new();
        out.push((n / 0x100_0000) as u8);
        out.push(((n / 0x1_0000) % 0x100) as u8);
        out.push(((n / 0x100) % 0x100) as u8);
        out.push((n % 0x100) as u8);
        let mut i: usize = 0;
        while i < n
            invariant
                n == payload@.len(),
                i <= n,
                out@ == be32(n as nat) + payload@.subrange(0, i as int),
            decreases n - i,
        {
            out.push(payload[i]);
            proof {
                assert(out@ =~= be32(n as nat) + payload@.subrange(0, i + 1));
            }
            i = i + 1;
        }
        proof {
            assert(payload@.subrange(0, n as int) =~= payload@);
        }
        Ok(out)
    }

    /// The payload of the frame at the start of `bytes`, and how many bytes
    /// the frame takes; `Incomplete` when the bytes end early.
    pub fn unframe(bytes: &Vec<u8>) -> (r: Result<(Vec<u8>, usize), FrameError>)
        ensures
            bytes@.len() < 4 ==> r == Err::<(Vec<u8>, usize), FrameError>(FrameError::Incomplete),
            bytes@.len() >= 4 && bytes@.len() < 4 + read_be32(bytes@) ==>
                r == Err::<(Vec<u8>, usize), FrameError>(FrameError::Incomplete),
            bytes@.len() >= 4 && bytes@.len() >= 4 + read_be32(bytes@) ==> (r matches Ok((payload, used))
                && used == 4 + read_be32(bytes@)
                && payload@ == bytes@.subrange(4, used as int)),
    {
        let len = bytes.len();
        if len < 4 {
            return Err(FrameError::Incomplete);
        }
        let n: usize = (bytes[0] as usize) * 0x100_0000 + (bytes[1] as usize) * 0x1_0000
            + (bytes[2] as usize) * 0x100 + (bytes[3] as usize);
        if len - 4 < n {
            return Err(FrameError::Incomplete);
        }
        let mut payload: Vec<u8> = Vec::new();
        let mut i: usize = 0;
        while i < n
            invariant
                len == bytes@.len(),
                4 + n <= len,
                i <= n,
                payload@ == bytes@.subrange(4, 4 + i),
            decreases n - i,
        {
            payload.push(bytes[4 + i]);
            proof {
                assert(payload@ =~= bytes@.subrange(4, 4 + i + 1));
            }
            i = i + 1;
        }
        Ok((payload, 4 + n))
    }
}

/// Framing loses nothing: the payload read back from a frame is the
/// payload that went in, and the frame is read whole.
pub proof fn lemma_frame_round_trip(payload: Seq<u8>)
    requires
        payload.len() <= MAX_PAYLOAD,
    ensures
        read_be32(framed(payload)) == payload.len(),
        framed(payload).subrange(4, 4 + payload.len() as int) == payload,
        framed(payload).len() == 4 + payload.len(),
{
    lemma_be32_round_trip(payload.len());
    assert(framed(payload).subrange(4, 4 + payload.len() as int) =~= payload);
}

} // verus!
