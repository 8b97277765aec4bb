//! The voltages response.
//!
//! The first 32 words are cell voltage slots; a slot that holds the
//! sentinel value carries no reading (the cell slot is not populated) and
//! is excluded from the decoded list. Word 37 is the pack voltage.

use vstd::prelude::*;

use crate::message::{spec_words, words_from_bytes};

verus! {

/// A verbatim message to send which requests the state of voltages.
pub open spec fn spec_voltages_request() -> Seq<u8> {
    seq![0x01u8, 0x03u8, 0xd0u8, 0x00u8, 0x00u8, 0x26u8, 0xfcu8, 0xd0u8]
}

/// The fixed command bytes that request the voltages response.
pub fn voltages_request() -> (r: Vec<u8>)
    ensures
        r@ == spec_voltages_request(),
{
    let r: Vec<u8> = vec![0x01, 0x03, 0xd0, 0x00, 0x00, 0x26, 0xfc, 0xd0];
    proof {
        assert(r@ =~= spec_voltages_request());
    }
    r
}

/// The in-band value of a cell voltage slot that carries no reading.
pub const CELL_VOLTAGE_NA_VALUE: u16 = 61001;

/// How many of the leading words are cell voltage slots.
pub const CELL_SLOT_COUNT: usize = 32;

/// The word that holds the battery (pack) voltage.
pub const BATTERY_VOLTAGE_WORD: usize = 37;

/// The cell voltage slots that carry a reading, in slot order: `words` with
/// every sentinel entry removed.
pub open spec fn populated_cells(words: Seq<u16>) -> Seq<u16>
    decreases words.len(),
{
    if words.len() == 0 {
        Seq::empty()
    } else {
        let rest = populated_cells(words.drop_last());
        if words.last() == CELL_VOLTAGE_NA_VALUE {
            rest
        } else {
            rest.push(words.last())
        }
    }
}

/// How many of `words` are the sentinel.
pub open spec fn sentinel_count(words: Seq<u16>) -> nat
    decreases words.len(),
{
    if words.len() == 0 {
        0
    } else {
        sentinel_count(words.drop_last()) + if words.last() == CELL_VOLTAGE_NA_VALUE {
            1nat
        } else {
            0nat
        }
    }
}

/// Excluding the sentinel entries shortens the list by exactly their count:
/// the decoded cell list has one entry per populated slot.
pub proof fn lemma_populated_cells_len(words: Seq<u16>)
    ensures
        populated_cells(words).len() + sentinel_count(words) == words.len(),
    decreases words.len(),
{
    if words.len() > 0 {
        lemma_populated_cells_len(words.drop_last());
    }
}

/// A message type which contains data about battery and cell voltages, as
/// the words of the response payload.
pub struct VoltagesMessage(Vec<u16>);

impl View for VoltagesMessage {
    type V = Seq<u16>;

    closed spec fn view(&self) -> Seq<u16> {
        self.0@
    }
}

impl VoltagesMessage {
    /// There are enough words for every field this message is asked for.
    pub open spec fn wf(&self) -> bool {
        self@.len() > BATTERY_VOLTAGE_WORD
    }

    /// Decode a response payload into its words.
    pub fn new(data: Vec<u8>) -> (r: Self)
        ensures
            r@ == spec_words(data@),
    {
        VoltagesMessage(words_from_bytes(data.as_slice()))
    }

    /// How many words the payload decoded to.
    pub fn word_count(&self) -> (r: usize)
        ensures
            r == self@.len(),
    {
        self.0.len()
    }

    /// The voltage of each populated cell slot in mV, in slot order;
    /// sentinel slots (no reading) are excluded.
    pub fn cell_voltage_mv(&self) -> (r: Vec<u16>)
        requires
            self@.len() >= CELL_SLOT_COUNT,
        ensures
            r@ == populated_cells(self@.take(CELL_SLOT_COUNT as int)),
    {
        let mut cells: Vec<u16> = Vec::new();
        let mut i: usize = 0;
        while i < CELL_SLOT_COUNT
            invariant
                i <= CELL_SLOT_COUNT <= self@.len(),
                cells@ == populated_cells(self@.take(i as int)),
            decreases CELL_SLOT_COUNT - i,
        {
            let v = self.0[i];
            if v != CELL_VOLTAGE_NA_VALUE {
                cells.push(v);
            }
            proof {
                assert(self@.take(i + 1).drop_last() =~= self@.take(i as int));
                assert(self@.take(i + 1).last() == self@[i as int]);
            }
            i = i + 1;
        }
        cells
    }

    /// The battery (pack) voltage in V/100.
    pub fn battery_voltage_cv(&self) -> (r: u16)
        requires
            self@.len() > BATTERY_VOLTAGE_WORD,
        ensures
            r == self@[BATTERY_VOLTAGE_WORD as int],
    {
        self.0[BATTERY_VOLTAGE_WORD]
    }
}

} // verus!
