//! The 8-bit checksum that trails command and response frames.

use vstd::prelude::*;

verus! {

/// One shift of the checksum register: fold in the polynomial when the low bit is set, then
/// shift right by one.
pub open spec fn crc_shift(c: u8) -> u8 {
    if c & 1 != 0 {
        (c ^ 0x91) >> 1
    } else {
        c >> 1
    }
}

/// `n` shifts of the checksum register.
pub open spec fn crc_shifts(c: u8, n: nat) -> u8
    decreases n,
{
    if n == 0 {
        c
    } else {
        crc_shifts(crc_shift(c), (n - 1) as nat)
    }
}

/// The register after one more message byte has been folded in.
pub open spec fn crc_update(c: u8, b: u8) -> u8 {
    crc_shifts(c ^ b, 8)
}

/// The checksum of a whole message: the register starts at zero and takes each byte in turn.
pub open spec fn crc_of(s: Seq<u8>) -> u8
    decreases s.len(),
{
    if s.len() == 0 {
        0
    } else {
        crc_update(crc_of(s.drop_last()), s.last())
    }
}

/// Computes the checksum of `message`.
pub fn get_crc(message: &[u8]) -> (r: u8)
    ensures
        r == crc_of(message@),
{
    let mut crc: u8 = 0;
    let mut i: usize = 0;
    while i < message.len()
        invariant
            i <= message@.len(),
            crc == crc_of(message@.subrange(0, i as int)),
        decreases message@.len() - i,
    {
        let byte = message[i];
        let ghost start: u8 = crc ^ byte;
        crc ^= byte;
        let mut j: u8 = 0;
        while j < 8
            invariant
                j <= 8,
                crc_shifts(crc, (8 - j) as nat) == crc_shifts(start, 8),
            decreases 8 - j,
        {
            let ghost before = crc;
            if (crc & 1) != 0 {
                crc ^= 0x91;
            }
            crc >>= 1;
            assert(crc == crc_shift(before));
            j += 1;
        }
        proof {
            let next = message@.subrange(0, i + 1);
            assert(next.drop_last() =~= message@.subrange(0, i as int));
            assert(next.last() == byte);
        }
        i += 1;
    }
    assert(message@.subrange(0, i as int) =~= message@);
    crc
}

/// A checksum trailer is stable: recomputing the checksum over the bytes in front of the
/// trailer of `m ++ [crc_of(m)]` gives back exactly the trailer byte.
pub proof fn lemma_trailer_recomputes(m: Seq<u8>)
    ensures
        ({
            let framed = m.push(crc_of(m));
            crc_of(framed.subrange(0, m.len() as int)) == framed[m.len() as int]
        }),
{
    let framed = m.push(crc_of(m));
    assert(framed.subrange(0, m.len() as int) =~= m);
}

} // verus!
