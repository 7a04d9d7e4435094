//! A country calling code with its provenance, as a value of its own.

use vstd::prelude::*;
pub use crate::country::Source;

verus! {

/// A country calling code and the way it was found.
#[derive(Copy, Clone, Eq, PartialEq, Structural, Debug)]
pub struct CountryCode {
    /// The country code value.
    pub value: u16,
    /// The source from which the country code is derived.
    pub source: Source,
}

impl CountryCode {
    /// The country code number.
    pub fn value(&self) -> (r: u16)
        ensures
            r == self.value,
    {
        self.value
    }

    /// How the country code was found.
    pub fn source(&self) -> (r: Source)
        ensures
            r == self.source,
    {
        self.source
    }
}

} // verus!
