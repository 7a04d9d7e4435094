//! The carrier selection code of a phone number.

use vstd::prelude::*;

verus! {

/// The domestic carrier selection code that is preferred when calling a number.
#[derive(Clone, Hash, Debug)]
pub struct Carrier(pub String);

impl Carrier {
    pub fn new(s: &str) -> (r: Carrier)
        ensures
            r.0@ == s@,
    {
        Carrier(s.to_owned())
    }

    pub fn as_str(&self) -> (r: &str)
        ensures
            r@ == self.0@,
    {
        self.0.as_str()
    }
}

impl PartialEq for Carrier {
    fn eq(&self, o: &Carrier) -> (r: bool) {
        self.0 == o.0
    }
}

impl vstd::std_specs::cmp::PartialEqSpecImpl for Carrier {
    open spec fn obeys_eq_spec() -> bool {
        true
    }

    open spec fn eq_spec(&self, o: &Carrier) -> bool {
        self.0@ == o.0@
    }
}

impl Eq for Carrier {}

} // verus!
