//! Framing of messages on a stream socket: each message is preceded by its
//! length as a 4-byte big-endian number.

use vstd::prelude::*;

verus! {

/// The 4-byte big-endian form of `n`.
pub open spec fn be32(n: u32) -> Seq<u8> {
    seq![(n / 0x100_0000) as u8, ((n / 0x1_0000) % 0x100) as u8, ((n / 0x100) % 0x100) as u8, (n % 0x100) as u8]
}

/// The number whose 4-byte big-endian form is `h`.
pub open spec fn be32_value(h: Seq<u8>) -> int {
    h[0] * 0x100_0000 + h[1] * 0x1_0000 + h[2] * 0x100 + h[3]
}

/// The frame carrying `payload`: its length (taken modulo 2^32) as a
/// 4-byte big-endian number, then the payload.
pub fn frame_message(payload: &[u8]) -> (f: Vec<u8>)
    ensures
        f@ == be32((payload@.len() % 0x1_0000_0000) as u32) + payload@,
{
    let n: usize = payload.len();
    let len: u32 = ((n as u64) % 0x1_0000_0000) as u32;
    let mut f: Vec<u8> = Vec::new();
    f.push((len / 0x100_0000) as u8);
    f.push(((len / 0x1_0000) % 0x100) as u8);
    f.push(((len / 0x100) % 0x100) as u8);
    f.push((len % 0x100) as u8);
    let mut i: usize = 0;
    while i < n
        invariant
            i <= n,
            n == payload@.len(),
            f@ == be32(len) + payload@.subrange(0, i as int),
        decreases n - i,
    {
        f.push(payload[i]);
        assert(payload@.subrange(0, i + 1) =~= payload@.subrange(0, i as int).push(payload@[i as int]));
        i = i + 1;
    }
    assert(payload@.subrange(0, n as int) =~= payload@);
    f
}

/// The payload length announced by frame header `header`.
pub fn frame_length(header: [u8; 4]) -> (n: u32)
    ensures
        n == be32_value(header@),
{
    (header[0] as u32) * 0x100_0000 + (header[1] as u32) * 0x1_0000 + (header[2] as u32) * 0x100 + (header[3] as u32)
}

/// Reading back the header of a frame gives the length it was made with.
pub proof fn law_frame_length_round_trip(n: u32)
    ensures
        be32_value(be32(n)) == n,
{
    assert(be32(n)[0] == n / 0x100_0000);
    assert(be32(n)[1] == (n / 0x1_0000) % 0x100);
    assert(be32(n)[2] == (n / 0x100) % 0x100);
    assert(be32(n)[3] == n % 0x100);
    assert((n / 0x100_0000) * 0x100_0000 + ((n / 0x1_0000) % 0x100) * 0x1_0000 + ((n / 0x100) % 0x100) * 0x100
        + n % 0x100 == n) by (nonlinear_arith);
}

} // verus!
