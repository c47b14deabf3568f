//! Bit-banged serial output: the bits sent one per timer period on a GPIO line.
use vstd::prelude::*;

verus! {

/// The test pattern that is sent: twelve bits alternating from 1.
pub open spec fn alternating_pattern_spec() -> Seq<u8> {
    seq![1u8, 0, 1, 0, 1, 0, 1, 0, 1, 0, 1, 0]
}

/// The test pattern is twelve bits long, with ones at the even places and zeros at the
/// odd ones.
pub proof fn lemma_alternating_pattern()
    ensures
        alternating_pattern_spec().len() == 12,
        forall|i: int| 0 <= i < 12 ==> #[trigger] alternating_pattern_spec()[i] == (if i % 2 == 0 {
            1u8
        } else {
            0u8
        }),
{
}

/// The bits of the test pattern.
pub fn alternating_pattern() -> (bits: Vec<u8>)
    ensures
        bits@ == alternating_pattern_spec(),
{
    vec![1, 0, 1, 0, 1, 0, 1, 0, 1, 0, 1, 0]
}

/// The progress of a transmission: the bits to send and how many have gone out.
pub struct BitTransmitter {
    bits: Vec<u8>,
    sent: usize,
}

impl View for BitTransmitter {
    type V = (Seq<u8>, nat);

    closed spec fn view(&self) -> (Seq<u8>, nat) {
        (self.bits@, self.sent as nat)
    }
}

impl BitTransmitter {
    #[verifier::type_invariant]
    spec fn within_bits(self) -> bool {
        self.sent <= self.bits.len()
    }

    /// A transmission of `bits` that has not started.
    pub fn new(bits: Vec<u8>) -> (t: BitTransmitter)
        ensures
            t@ == (bits@, 0nat),
    {
        BitTransmitter { bits, sent: 0 }
    }

    /// The level for the next timer period: high for a non-zero bit, low for a zero bit;
    /// `None`, with the line left as it is, once every bit has gone out.
    pub fn next_level(&mut self) -> (level: Option<bool>)
        ensures
            old(self)@.1 <= old(self)@.0.len(),
            final(self)@.0 == old(self)@.0,
            old(self)@.1 < old(self)@.0.len() ==> level == Some(old(self)@.0[old(self)@.1 as int]
                != 0) && final(self)@.1 == old(self)@.1 + 1,
            old(self)@.1 == old(self)@.0.len() ==> level is None && final(self)@.1 == old(self)@.1,
    {
        proof {
            use_type_invariant(&*self);
        }
        if self.sent < self.bits.len() {
            let bit = self.bits[self.sent];
            self.sent = self.sent + 1;
            Some(bit != 0)
        } else {
            None
        }
    }
}

} // verus!
