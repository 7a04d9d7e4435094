//! The national significant number.

use vstd::prelude::*;
use crate::decimal::{decimal, decimal_chars};

verus! {

/// The national significant number: its value, and the number of leading
/// zeros that the value cannot hold (as in Italian fixed-line numbers).
#[derive(Copy, Clone, Eq, PartialEq, Structural, Hash, Debug)]
pub struct NationalNumber {
    /// The number without its leading zeros.
    pub value: u64,
    /// The number of leading zeros.
    pub zeros: u8,
}

impl NationalNumber {
    /// The digits of the number: the leading zeros, then the value.
    pub open spec fn text(self) -> Seq<char> {
        Seq::new(self.zeros as nat, |_i: int| '0') + decimal(self.value as nat)
    }

    pub fn new(value: u64, zeros: u8) -> (r: NationalNumber)
        ensures
            r.value == value,
            r.zeros == zeros,
    {
        NationalNumber { value, zeros }
    }

    /// The number without any leading zeros.
    pub fn value(&self) -> (r: u64)
        ensures
            r == self.value,
    {
        self.value
    }

    /// The number of leading zeros.
    pub fn zeros(&self) -> (r: u8)
        ensures
            r == self.zeros,
    {
        self.zeros
    }

    /// The digits of the number, leading zeros included.
    pub fn digits(&self) -> (r: Vec<char>)
        ensures
            r@ == self.text(),
    {
        let mut out: Vec<char> = Vec::new();
        let mut i: u8 = 0;
        while i < self.zeros
            invariant
                i <= self.zeros,
                out@ == Seq::new(i as nat, |_k: int| '0'),
            decreases self.zeros - i,
        {
            out.push('0');
            i = i + 1;
            assert(out@ =~= Seq::new(i as nat, |_k: int| '0'));
        }
        let mut tail = decimal_chars(self.value);
        out.append(&mut tail);
        out
    }
}

} // verus!
