//! Clock rates, as zero-sized tags that carry a constant in Hz.
use vstd::prelude::*;

verus! {

/// A clock frequency in Hz.
///
/// Used as an associated type of `Time` so that clients can convert native
/// tics to real-time values.
pub trait Frequency {
    /// The rate, in Hz.
    spec fn hz() -> nat;

    fn frequency() -> (r: u32)
        ensures
            r == Self::hz(),
    ;
}

/// 16 MHz `Frequency`.
#[derive(Debug)]
pub struct Freq16MHz;

impl Frequency for Freq16MHz {
    open spec fn hz() -> nat {
        16_000_000
    }

    fn frequency() -> (r: u32) {
        16000000
    }
}

/// 32 KHz `Frequency` (32768 Hz).
#[derive(Debug)]
pub struct Freq32KHz;

impl Frequency for Freq32KHz {
    open spec fn hz() -> nat {
        32768
    }

    fn frequency() -> (r: u32) {
        32768
    }
}

/// 16 KHz `Frequency`.
#[derive(Debug)]
pub struct Freq16KHz;

impl Frequency for Freq16KHz {
    open spec fn hz() -> nat {
        16000
    }

    fn frequency() -> (r: u32) {
        16000
    }
}

/// 1 KHz `Frequency`.
#[derive(Debug)]
pub struct Freq1KHz;

impl Frequency for Freq1KHz {
    open spec fn hz() -> nat {
        1000
    }

    fn frequency() -> (r: u32) {
        1000
    }
}

} // verus!
