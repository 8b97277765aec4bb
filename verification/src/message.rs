//! Decoding of response payloads into telemetry.
//!
//! Both known responses carry their data as a sequence of big-endian 16-bit
//! words; the submodules pick the words that hold each telemetry field.

pub mod soc_message;
pub mod voltages_message;

use vstd::prelude::*;

verus! {

/// The 16-bit big-endian words of a byte sequence, in order. A dangling
/// trailing byte (odd input length) belongs to no word.
pub open spec fn spec_words(bytes: Seq<u8>) -> Seq<u16> {
    Seq::new(bytes.len() / 2, |i: int| (bytes[2 * i] * 256 + bytes[2 * i + 1]) as u16)
}

/// Reinterpret a payload as its big-endian 16-bit words.
pub fn words_from_bytes(data: &[u8]) -> (r: Vec<u16>)
    ensures
        r@ == spec_words(data@),
{
    let mut words: Vec<u16> = Vec::new();
    let mut i: usize = 0;
    while i + 1 < data.len()
        invariant
            i % 2 == 0,
            i <= data@.len(),
            words@ == spec_words(data@.take(i as int)),
        decreases data@.len() - i,
    {
        let hi = *vstd::slice::slice_index_get(data, i);
        let lo = *vstd::slice::slice_index_get(data, i + 1);
        let word = (hi as u16) * 256 + (lo as u16);
        words.push(word);
        proof {
            assert(spec_words(data@.take(i as int + 2)) =~= spec_words(data@.take(i as int)).push(
                word,
            ));
        }
        i = i + 2;
    }
    proof {
        assert(i == data@.len() || i + 1 == data@.len());
        assert(spec_words(data@.take(i as int)).len() == data@.take(i as int).len() / 2);
        assert(i as int / 2 == data@.len() as int / 2);
        assert forall|j: int| 0 <= j < spec_words(data@).len() implies spec_words(
            data@.take(i as int),
        )[j] == spec_words(data@)[j] by {
            assert(data@.take(i as int)[2 * j] == data@[2 * j]);
            assert(data@.take(i as int)[2 * j + 1] == data@[2 * j + 1]);
        };
        assert(spec_words(data@.take(i as int)) =~= spec_words(data@));
    }
    words
}

/// Decoding is pure: the words, and with them every telemetry field drawn
/// from them, are fully determined by the payload bytes, so decoding the
/// same bytes twice yields the same telemetry.
pub proof fn lemma_decoding_deterministic(d1: Seq<u8>, d2: Seq<u8>)
    requires
        d1 == d2,
    ensures
        spec_words(d1) == spec_words(d2),
        crate::message::voltages_message::populated_cells(
            spec_words(d1).take(crate::message::voltages_message::CELL_SLOT_COUNT as int),
        ) == crate::message::voltages_message::populated_cells(
            spec_words(d2).take(crate::message::voltages_message::CELL_SLOT_COUNT as int),
        ),
{
}

} // verus!
