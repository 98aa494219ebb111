//! Decoding and encoding of the analyzer's wire format: a raw frame is
//! `2 * bar_count` bytes, every consecutive byte pair one unsigned 16-bit
//! magnitude in little-endian order. There is no header, length prefix or
//! trailer; framing is purely by the fixed byte count.

use vstd::prelude::*;

verus! {

/// The value of one little-endian byte pair.
pub open spec fn word_le(lo: u8, hi: u8) -> int {
    lo + 256 * hi
}

/// The raw frame held in a byte buffer: element `i` is the little-endian
/// value of bytes `2 * i` and `2 * i + 1`.
pub open spec fn decoded(bytes: Seq<u8>) -> Seq<u16> {
    Seq::new(bytes.len() / 2, |i: int| word_le(bytes[2 * i], bytes[2 * i + 1]) as u16)
}

/// The byte buffer that carries a frame: each magnitude becomes its low
/// byte followed by its high byte.
pub open spec fn encoded(frame: Seq<u16>) -> Seq<u8> {
    Seq::new(
        frame.len() * 2,
        |i: int| if i % 2 == 0 { (frame[i / 2] % 256) as u8 } else { (frame[i / 2] / 256) as u8 },
    )
}

/// Decodes a raw byte frame into its magnitudes: every consecutive byte
/// pair becomes one unsigned 16-bit little-endian value.
pub fn decode_frame(bytes: &Vec<u8>) -> (frame: Vec<u16>)
    requires
        bytes@.len() % 2 == 0,
    ensures
        frame@ == decoded(bytes@),
        frame@.len() * 2 == bytes@.len(),
{
    let n = bytes.len() / 2;
    let mut frame: Vec<u16> = Vec::new();
    let mut i: usize = 0;
    while i < n
        invariant
            i <= n,
            n == bytes@.len() / 2,
            2 * n <= bytes@.len() <= usize::MAX,
            bytes@.len() % 2 == 0,
            frame@ == decoded(bytes@).take(i as int),
        decreases n - i,
    {
        let lo = bytes[2 * i];
        let hi = bytes[2 * i + 1];
        let word: u16 = lo as u16 + hi as u16 * 256;
        frame.push(word);
        proof {
            assert(frame@ =~= decoded(bytes@).take(i + 1));
        }
        i = i + 1;
    }
    proof {
        assert(frame@ =~= decoded(bytes@));
    }
    frame
}

/// Encodes a frame of magnitudes back into the wire format, each value as
/// its low byte followed by its high byte.
pub fn encode_frame(frame: &Vec<u16>) -> (bytes: Vec<u8>)
    requires
        frame@.len() * 2 <= usize::MAX,
    ensures
        bytes@ == encoded(frame@),
        bytes@.len() == frame@.len() * 2,
{
    let mut bytes: Vec<u8> = Vec::new();
    let mut i: usize = 0;
    while i < frame.len()
        invariant
            i <= frame@.len(),
            frame@.len() * 2 <= usize::MAX,
            bytes@ == encoded(frame@).take(2 * i as int),
        decreases frame@.len() - i,
    {
        let word = frame[i];
        bytes.push((word % 256) as u8);
        bytes.push((word / 256) as u8);
        proof {
            assert(bytes@ =~= encoded(frame@).take(2 * (i + 1)));
        }
        i = i + 1;
    }
    proof {
        assert(bytes@ =~= encoded(frame@));
    }
    bytes
}

/// Decoding inverts encoding: a frame written to the wire format and read
/// back is unchanged, for every magnitude in `[0, 65535]`.
pub proof fn lemma_decode_encode(frame: Seq<u16>)
    ensures
        decoded(encoded(frame)) == frame,
{
    assert forall|i: int| 0 <= i < frame.len() implies decoded(encoded(frame))[i] == frame[i] by {
        vstd::arithmetic::div_mod::lemma_fundamental_div_mod(frame[i] as int, 256);
    }
    assert(decoded(encoded(frame)) =~= frame);
}

/// Encoding inverts decoding: a byte buffer of even length decoded and
/// written back is unchanged, so decode is a bijection with encode.
pub proof fn lemma_encode_decode(bytes: Seq<u8>)
    requires
        bytes.len() % 2 == 0,
    ensures
        encoded(decoded(bytes)) == bytes,
{
    assert forall|i: int| 0 <= i < bytes.len() implies encoded(decoded(bytes))[i] == bytes[i] by {
        let k = i / 2;
        let w = word_le(bytes[2 * k], bytes[2 * k + 1]);
        vstd::arithmetic::div_mod::lemma_fundamental_div_mod_converse(
            w,
            256,
            bytes[2 * k + 1] as int,
            bytes[2 * k] as int,
        );
        if i % 2 == 0 {
            assert(2 * k == i);
        } else {
            assert(2 * k + 1 == i);
        }
    }
    assert(encoded(decoded(bytes)) =~= bytes);
}

} // verus!
