//! The state-of-charge response.
//!
//! The word positions of the telemetry fields were reverse-engineered
//! against one observed firmware; they are a pinned, fragile convention,
//! not a stable vendor contract.

use vstd::prelude::*;

use crate::message::{spec_words, words_from_bytes};

verus! {

/// A verbatim message to send which requests the state of charge and
/// related data.
pub open spec fn spec_soc_request() -> Seq<u8> {
    seq![0x01u8, 0x03u8, 0xd0u8, 0x26u8, 0x00u8, 0x19u8, 0x5du8, 0x0bu8]
}

/// The fixed command bytes that request the state-of-charge response.
pub fn soc_request() -> (r: Vec<u8>)
    ensures
        r@ == spec_soc_request(),
{
    let r: Vec<u8> = vec![0x01, 0x03, 0xd0, 0x26, 0x00, 0x19, 0x5d, 0x0b];
    proof {
        assert(r@ =~= spec_soc_request());
    }
    r
}

/// The word that holds the state of charge.
pub const SOC_PCT_WORD: usize = 14;

/// The word that holds the residual capacity.
pub const RESIDUAL_CAPACITY_WORD: usize = 16;

/// The word that holds the cycle count.
pub const CYCLES_COUNT_WORD: usize = 19;

/// A message type which contains data about state of charge and battery
/// condition, as the words of the response payload.
pub struct SocMessage(Vec<u16>);

impl View for SocMessage {
    type V = Seq<u16>;

    closed spec fn view(&self) -> Seq<u16> {
        self.0@
    }
}

impl SocMessage {
    /// There are enough words for every field this message is asked for.
    pub open spec fn wf(&self) -> bool {
        self@.len() > CYCLES_COUNT_WORD
    }

    /// Decode a response payload into its words.
    pub fn new(data: Vec<u8>) -> (r: Self)
        ensures
            r@ == spec_words(data@),
    {
        SocMessage(words_from_bytes(data.as_slice()))
    }

    /// How many words the payload decoded to.
    pub fn word_count(&self) -> (r: usize)
        ensures
            r == self@.len(),
    {
        self.0.len()
    }

    /// The state of charge of the battery in %.
    pub fn state_of_charge_pct(&self) -> (r: u16)
        requires
            self@.len() > SOC_PCT_WORD,
        ensures
            r == self@[SOC_PCT_WORD as int],
    {
        self.0[SOC_PCT_WORD]
    }

    /// The residual capacity of the battery in Ah/100.
    pub fn residual_capacity_cah(&self) -> (r: u16)
        requires
            self@.len() > RESIDUAL_CAPACITY_WORD,
        ensures
            r == self@[RESIDUAL_CAPACITY_WORD as int],
    {
        self.0[RESIDUAL_CAPACITY_WORD]
    }

    /// Lifetime number of battery cycles.
    pub fn cycles_count(&self) -> (r: u16)
        requires
            self@.len() > CYCLES_COUNT_WORD,
        ensures
            r == self@[CYCLES_COUNT_WORD as int],
    {
        self.0[CYCLES_COUNT_WORD]
    }
}

} // verus!
