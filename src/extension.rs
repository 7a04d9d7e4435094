//! The extension of a phone number.

use vstd::prelude::*;

verus! {

/// The extension of a number: digits, and rarely `,` or `;`.
#[derive(Clone, Hash, Debug)]
pub struct Extension(pub String);

impl Extension {
    pub fn new(s: &str) -> (r: Extension)
        ensures
            r.0@ == s@,
    {
        Extension(s.to_owned())
    }

    pub fn as_str(&self) -> (r: &str)
        ensures
            r@ == self.0@,
    {
        self.0.as_str()
    }
}

impl PartialEq for Extension {
    fn eq(&self, o: &Extension) -> (r: bool) {
        self.0 == o.0
    }
}

impl vstd::std_specs::cmp::PartialEqSpecImpl for Extension {
    open spec fn obeys_eq_spec() -> bool {
        true
    }

    open spec fn eq_spec(&self, o: &Extension) -> bool {
        self.0@ == o.0@
    }
}

impl Eq for Extension {}

} // verus!
