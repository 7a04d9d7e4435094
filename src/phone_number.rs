//! A parsed phone number, and the types of phone numbers.

use vstd::prelude::*;
use crate::carrier::Carrier;
use crate::country::Code;
use crate::extension::Extension;
use crate::national_number::NationalNumber;

verus! {

/// A phone number: country code, national number, extension and carrier code.
#[derive(Clone, Hash, Debug)]
pub struct PhoneNumber {
    /// The country calling code, and how it was found.
    pub code: Code,
    /// The national significant number.
    pub national: NationalNumber,
    /// The extension, if any.
    pub extension: Option<Extension>,
    /// The preferred domestic carrier selection code, if any.
    pub carrier: Option<Carrier>,
}

/// What a phone number holds, with its texts as character sequences.
pub struct PhoneNumberView {
    pub code: Code,
    pub national: NationalNumber,
    pub extension: Option<Seq<char>>,
    pub carrier: Option<Seq<char>>,
}

impl View for PhoneNumber {
    type V = PhoneNumberView;

    open spec fn view(&self) -> PhoneNumberView {
        PhoneNumberView {
            code: self.code,
            national: self.national,
            extension: match self.extension {
                Some(e) => Some(e.0@),
                None => None,
            },
            carrier: match self.carrier {
                Some(c) => Some(c.0@),
                None => None,
            },
        }
    }
}

/// The type of a phone number.
#[derive(Copy, Clone, Eq, PartialEq, Structural, Hash, Debug)]
pub enum Type {
    /// Fixed line numbers.
    FixedLine,
    /// Mobile numbers.
    Mobile,
    /// Numbers that may be fixed line or mobile (as in the USA).
    FixedLineOrMobile,
    /// Freephone lines.
    TollFree,
    /// Premium rate lines.
    PremiumRate,
    /// Calls whose cost is shared between caller and recipient.
    SharedCost,
    /// Numbers associated with a person, routed to a mobile or fixed line.
    PersonalNumber,
    /// Voice over IP numbers.
    Voip,
    /// Pager numbers.
    Pager,
    /// Universal access numbers, or company numbers.
    Uan,
    /// Emergency numbers.
    Emergency,
    /// Voice mail access numbers.
    Voicemail,
    /// Abbreviated numbers, such as "10000".
    ShortCode,
    /// Standard rate numbers.
    StandardRate,
    /// Carrier numbers.
    Carrier,
    /// Numbers not reachable from abroad.
    NoInternational,
    /// A number that fits none of the known patterns of its region.
    Unknown,
}

fn same_text(a: &Option<Extension>, b: &Option<Extension>) -> (r: bool)
    ensures
        r == (match a { Some(e) => Some(e.0@), None => None::<Seq<char>> } == match b {
            Some(e) => Some(e.0@),
            None => None::<Seq<char>>,
        }),
{
    match (a, b) {
        (Some(x), Some(y)) => x.0 == y.0,
        (None, None) => true,
        _ => false,
    }
}

fn same_carrier(a: &Option<Carrier>, b: &Option<Carrier>) -> (r: bool)
    ensures
        r == (match a { Some(e) => Some(e.0@), None => None::<Seq<char>> } == match b {
            Some(e) => Some(e.0@),
            None => None::<Seq<char>>,
        }),
{
    match (a, b) {
        (Some(x), Some(y)) => x.0 == y.0,
        (None, None) => true,
        _ => false,
    }
}

impl PartialEq for PhoneNumber {
    fn eq(&self, o: &PhoneNumber) -> (r: bool) {
        self.code == o.code && self.national == o.national && same_text(&self.extension, &o.extension)
            && same_carrier(&self.carrier, &o.carrier)
    }
}

impl vstd::std_specs::cmp::PartialEqSpecImpl for PhoneNumber {
    open spec fn obeys_eq_spec() -> bool {
        true
    }

    open spec fn eq_spec(&self, o: &PhoneNumber) -> bool {
        self@ == o@
    }
}

impl Eq for PhoneNumber {}

impl PhoneNumber {
    pub fn new(code: Code, national: NationalNumber, extension: Option<Extension>, carrier: Option<Carrier>) -> (r: PhoneNumber)
        ensures
            r.code == code,
            r.national == national,
            r.extension == extension,
            r.carrier == carrier,
    {
        PhoneNumber { code, national, extension, carrier }
    }

    /// The country code.
    pub fn code(&self) -> (r: &Code)
        ensures
            *r == self.code,
    {
        &self.code
    }

    /// The national number.
    pub fn national(&self) -> (r: &NationalNumber)
        ensures
            *r == self.national,
    {
        &self.national
    }

    /// The extension.
    pub fn extension(&self) -> (r: Option<&Extension>)
        ensures
            r == match self.extension { Some(ref e) => Some(e), None => None::<&Extension> },
    {
        self.extension.as_ref()
    }

    /// The carrier selection code.
    pub fn carrier(&self) -> (r: Option<&Carrier>)
        ensures
            r == match self.carrier { Some(ref c) => Some(c), None => None::<&Carrier> },
    {
        self.carrier.as_ref()
    }
}

} // verus!
