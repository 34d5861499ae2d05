//! Reading and writing of the `cc_data` bitstream that carries CEA-708 closed
//! captions: [`DTVCCPacket`]s made of [`Service`] blocks made of
//! [`tables::Code`]s, next to CEA-608 compatibility byte pairs.
//!
//! The wire format is that of ANSI/CTA-708-E R-2018.

use vstd::prelude::*;

pub mod pacing;
pub mod packet;
pub mod parser;
pub mod roundtrip;
pub mod scale;
pub mod service;
pub mod stream;
pub mod tables;
pub mod writer;

pub use packet::{DTVCCPacket, PacketView};
pub use service::{Service, ServiceView};
pub use parser::{CCDataParser, ParserError, ParserView};
pub use writer::{CCDataWriter, WriterError, WriterView};

verus! {

/// A CEA-608 compatibility byte pair, tagged with the field it belongs to.
#[derive(Debug, Clone, Copy, PartialEq, Eq, Structural)]
pub enum Cea608 {
    Field1(u8, u8),
    Field2(u8, u8),
}

/// A frame rate as a fraction. Frame rates above 60 frames per second are not
/// well supported.
#[derive(Debug, Clone, Copy)]
pub struct Framerate {
    numer: u32,
    denom: u32,
}

impl Framerate {
    /// The numerator of this frame rate.
    pub closed spec fn spec_numer(&self) -> u32 {
        self.numer
    }

    /// The denominator of this frame rate.
    pub closed spec fn spec_denom(&self) -> u32 {
        self.denom
    }

    /// Whether the per-frame budgets of this frame rate can be computed: the
    /// numerator is not zero and the larger budget fits in 32 bits.
    pub open spec fn has_budget(&self) -> bool {
        &&& self.numer() != 0
        &&& scale::mul_div_round(600, self.denom() as int, self.numer() as int) <= u32::MAX
    }

    /// The number of CEA-608 byte pairs of one field that fit in a frame.
    pub open spec fn cea608_pair_budget(&self) -> int {
        scale::mul_div_round(60, self.denom() as int, self.numer() as int)
    }

    /// The number of `cc_data` triples that fit in a frame.
    pub open spec fn cc_count_budget(&self) -> int {
        scale::mul_div_round(600, self.denom() as int, self.numer() as int)
    }

    /// Create a new [`Framerate`].
    pub fn new(numer: u32, denom: u32) -> (r: Self)
        ensures
            r.numer() == numer,
            r.denom() == denom,
    {
        Self { numer, denom }
    }

    /// The numerator of this [`Framerate`] fraction.
    #[verifier::when_used_as_spec(spec_numer)]
    pub fn numer(&self) -> (r: u32)
        ensures
            r == self.numer(),
    {
        self.numer
    }

    /// The denominator of this [`Framerate`] fraction.
    #[verifier::when_used_as_spec(spec_denom)]
    pub fn denom(&self) -> (r: u32)
        ensures
            r == self.denom(),
    {
        self.denom
    }

    /// CEA-608 has a maximum bitrate of 960 bits/s for a single field, which
    /// is 60 byte pairs per second.
    pub fn cea608_pairs_per_frame(&self) -> (r: usize)
        requires
            self.has_budget(),
        ensures
            r == self.cea608_pair_budget(),
    {
        proof {
            lemma_budgets_ordered(self.denom as int, self.numer as int);
        }
        scale::mul_div_round_u32(60, self.denom, self.numer).unwrap() as usize
    }

    /// CEA-708 has a maximum bitrate of 9600 bits/s, which is 600 triples per
    /// second.
    pub fn max_cc_count(&self) -> (r: usize)
        requires
            self.has_budget(),
        ensures
            r == self.cc_count_budget(),
    {
        scale::mul_div_round_u32(600, self.denom, self.numer).unwrap() as usize
    }
}

/// The CEA-608 budget of a frame rate is never above its CEA-708 budget.
pub proof fn lemma_budgets_ordered(denom: int, numer: int)
    requires
        0 <= denom,
        0 < numer,
    ensures
        0 <= scale::mul_div_round(60, denom, numer) <= scale::mul_div_round(600, denom, numer),
{
    let a = 60 * denom + numer / 2;
    let b = 600 * denom + numer / 2;
    assert(0 <= a <= b);
    vstd::arithmetic::div_mod::lemma_div_is_ordered(a, b, numer);
    vstd::arithmetic::div_mod::lemma_div_pos_is_pos(a, numer);
}

} // verus!
