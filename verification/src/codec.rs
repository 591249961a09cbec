//! Little-endian wire encoding of audio chunks.
//!
//! The streaming recognizer reads raw 16-bit signed PCM: each sample
//! is written as its two's-complement value in two bytes, low byte
//! first, with no framing between chunks.

use vstd::prelude::*;

verus! {

/// A sample's two's-complement value as an unsigned 16-bit integer.
pub open spec fn sample_unsigned(s: i16) -> int {
    if s < 0 {
        s + 0x10000
    } else {
        s as int
    }
}

/// The little-endian byte stream of a sequence of samples: for each
/// sample its low byte, then its high byte.
pub open spec fn le_bytes(samples: Seq<i16>) -> Seq<u8> {
    Seq::new(
        samples.len() * 2,
        |i: int|
            if i % 2 == 0 {
                (sample_unsigned(samples[i / 2]) % 256) as u8
            } else {
                (sample_unsigned(samples[i / 2]) / 256) as u8
            },
    )
}

/// Encodes one chunk for the recognizer's input stream.
pub fn encode_chunk_le(chunk: &Vec<i16>) -> (bytes: Vec<u8>)
    ensures
        bytes@ == le_bytes(chunk@),
{
    let mut bytes: Vec<u8> = Vec::new();
    let n = chunk.len();
    let mut i: usize = 0;
    while i < n
        invariant
            n == chunk.len(),
            i <= n,
            bytes@.len() == 2 * i,
            forall|k: int| 0 <= k < 2 * i ==> bytes@[k] == le_bytes(chunk@)[k],
        decreases n - i,
    {
        let s = chunk[i];
        let u: u16 = if s >= 0 {
            s as u16
        } else {
            ((s as i32) + 0x10000) as u16
        };
        proof {
            assert(u as int == sample_unsigned(chunk@[i as int]));
        }
        let lo: u8 = (u % 256) as u8;
        let hi: u8 = (u / 256) as u8;
        bytes.push(lo);
        bytes.push(hi);
        i += 1;
    }
    proof {
        assert(bytes@ =~= le_bytes(chunk@));
    }
    bytes
}

} // verus!
