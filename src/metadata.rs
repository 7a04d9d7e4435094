//! Per-region metadata: descriptors of number types, formatting rules, and
//! the database that indexes the records of all regions.

use vstd::prelude::*;
use crate::phone_number::Type;
use crate::regex::{check, compiles};

verus! {

/// The numbers of one type in a region.
#[derive(Clone, Debug)]
pub struct Descriptor {
    /// The pattern that a national number of this type matches from its start.
    pub national_number: String,
    /// The possible lengths of such numbers, smallest first.
    pub possible_length: Vec<u16>,
    /// The lengths of numbers that can only be dialled locally, smallest first.
    pub possible_local_length: Vec<u16>,
    /// An example number.
    pub example: Option<String>,
}

/// A rule for formatting the national numbers that it matches.
#[derive(Clone, Debug)]
pub struct Format {
    /// The pattern, with capturing groups, over the national number.
    pub pattern: String,
    /// The template that rewrites a match of the pattern (`$1`, `$2`, ...).
    pub format: String,
    /// Patterns over the leading digits; the last one decides eligibility.
    pub leading_digits: Vec<String>,
    /// How the national prefix (`$NP`) and first group (`$FG`) are written.
    pub national_prefix: Option<String>,
    /// Whether the national prefix may be left out.
    pub national_prefix_optional: bool,
    /// How a carrier code (`$CC`) and first group (`$FG`) are written.
    pub domestic_carrier: Option<String>,
}

/// The descriptors of a region: the general one, and one for each type.
#[derive(Clone, Debug)]
pub struct Descriptors {
    pub general: Descriptor,
    pub fixed_line: Option<Descriptor>,
    pub mobile: Option<Descriptor>,
    pub toll_free: Option<Descriptor>,
    pub premium_rate: Option<Descriptor>,
    pub shared_cost: Option<Descriptor>,
    pub personal_number: Option<Descriptor>,
    pub voip: Option<Descriptor>,
    pub pager: Option<Descriptor>,
    pub uan: Option<Descriptor>,
    pub emergency: Option<Descriptor>,
    pub voicemail: Option<Descriptor>,
    pub short_code: Option<Descriptor>,
    pub standard_rate: Option<Descriptor>,
    pub carrier: Option<Descriptor>,
    pub no_international: Option<Descriptor>,
}

/// The metadata of one region ("001" for non-geographic entities).
#[derive(Clone, Debug)]
pub struct Metadata {
    pub descriptors: Descriptors,
    /// The CLDR region identifier, or "001".
    pub id: String,
    /// The country calling code.
    pub country_code: u16,
    /// The pattern of the international dialing prefixes dialled from this region.
    pub international_prefix: Option<String>,
    pub preferred_international_prefix: Option<String>,
    /// The national (trunk) prefix.
    pub national_prefix: Option<String>,
    pub preferred_extension_prefix: Option<String>,
    /// The pattern of national prefixes to strip when parsing, with carrier groups.
    pub national_prefix_for_parsing: Option<String>,
    /// The template that rewrites a number matched by `national_prefix_for_parsing`.
    pub national_prefix_transform_rule: Option<String>,
    pub formats: Vec<Format>,
    /// Formats for international output; when empty, `formats` serve.
    pub international_formats: Vec<Format>,
    pub main_country_for_code: bool,
    /// The pattern that picks this region among those sharing its calling code.
    pub leading_digits: Option<String>,
    pub mobile_number_portable: bool,
}

pub open spec fn optional_compiles(p: Option<String>) -> bool {
    match p {
        Some(p) => compiles(p@),
        None => true,
    }
}

pub open spec fn optional_descriptor_compiles(d: Option<Descriptor>) -> bool {
    match d {
        Some(d) => compiles(d.national_number@),
        None => true,
    }
}

impl Format {
    pub open spec fn compiled(self) -> bool {
        &&& compiles(self.pattern@)
        &&& forall|i: int| 0 <= i < self.leading_digits@.len() ==> compiles(#[trigger] self.leading_digits@[i]@)
    }
}

impl Descriptors {
    pub open spec fn compiled(self) -> bool {
        &&& compiles(self.general.national_number@)
        &&& optional_descriptor_compiles(self.fixed_line)
        &&& optional_descriptor_compiles(self.mobile)
        &&& optional_descriptor_compiles(self.toll_free)
        &&& optional_descriptor_compiles(self.premium_rate)
        &&& optional_descriptor_compiles(self.shared_cost)
        &&& optional_descriptor_compiles(self.personal_number)
        &&& optional_descriptor_compiles(self.voip)
        &&& optional_descriptor_compiles(self.pager)
        &&& optional_descriptor_compiles(self.uan)
        &&& optional_descriptor_compiles(self.emergency)
        &&& optional_descriptor_compiles(self.voicemail)
        &&& optional_descriptor_compiles(self.short_code)
        &&& optional_descriptor_compiles(self.standard_rate)
        &&& optional_descriptor_compiles(self.carrier)
        &&& optional_descriptor_compiles(self.no_international)
    }

    /// The descriptor of a type; the general one for `Unknown`.
    pub open spec fn of(self, kind: Type) -> Option<Descriptor> {
        match kind {
            Type::Unknown => Some(self.general),
            Type::FixedLine | Type::FixedLineOrMobile => self.fixed_line,
            Type::Mobile => self.mobile,
            Type::TollFree => self.toll_free,
            Type::PremiumRate => self.premium_rate,
            Type::SharedCost => self.shared_cost,
            Type::PersonalNumber => self.personal_number,
            Type::Voip => self.voip,
            Type::Pager => self.pager,
            Type::Uan => self.uan,
            Type::Emergency => self.emergency,
            Type::Voicemail => self.voicemail,
            Type::ShortCode => self.short_code,
            Type::StandardRate => self.standard_rate,
            Type::Carrier => self.carrier,
            Type::NoInternational => self.no_international,
        }
    }

    /// The descriptor of a type; the general one for `Unknown`.
    pub fn get(&self, kind: Type) -> (r: Option<&Descriptor>)
        ensures
            match r { Some(d) => self.of(kind) == Some(*d), None => self.of(kind) is None },
    {
        match kind {
            Type::Unknown => Some(&self.general),
            Type::FixedLine | Type::FixedLineOrMobile => self.fixed_line.as_ref(),
            Type::Mobile => self.mobile.as_ref(),
            Type::TollFree => self.toll_free.as_ref(),
            Type::PremiumRate => self.premium_rate.as_ref(),
            Type::SharedCost => self.shared_cost.as_ref(),
            Type::PersonalNumber => self.personal_number.as_ref(),
            Type::Voip => self.voip.as_ref(),
            Type::Pager => self.pager.as_ref(),
            Type::Uan => self.uan.as_ref(),
            Type::Emergency => self.emergency.as_ref(),
            Type::Voicemail => self.voicemail.as_ref(),
            Type::ShortCode => self.short_code.as_ref(),
            Type::StandardRate => self.standard_rate.as_ref(),
            Type::Carrier => self.carrier.as_ref(),
            Type::NoInternational => self.no_international.as_ref(),
        }
    }
}

impl Metadata {
    /// Every pattern of the record compiles.
    pub open spec fn compiled(self) -> bool {
        &&& self.descriptors.compiled()
        &&& optional_compiles(self.international_prefix)
        &&& optional_compiles(self.national_prefix_for_parsing)
        &&& optional_compiles(self.leading_digits)
        &&& forall|i: int| 0 <= i < self.formats@.len() ==> (#[trigger] self.formats@[i]).compiled()
        &&& forall|i: int| 0 <= i < self.international_formats@.len() ==> (#[trigger] self.international_formats@[i]).compiled()
    }
}

fn check_optional(p: &Option<String>) -> (r: Result<(), regex::Error>)
    ensures
        r is Ok <==> optional_compiles(*p),
{
    match p {
        Some(p) => check(p.as_str()),
        None => Ok(()),
    }
}

fn check_descriptor(d: &Option<Descriptor>) -> (r: Result<(), regex::Error>)
    ensures
        r is Ok <==> optional_descriptor_compiles(*d),
{
    match d {
        Some(d) => check(d.national_number.as_str()),
        None => Ok(()),
    }
}

fn check_format(f: &Format) -> (r: Result<(), regex::Error>)
    ensures
        r is Ok <==> f.compiled(),
{
    check(f.pattern.as_str())?;
    let mut i: usize = 0;
    while i < f.leading_digits.len()
        invariant
            0 <= i <= f.leading_digits@.len(),
            compiles(f.pattern@),
            forall|k: int| 0 <= k < i ==> compiles(#[trigger] f.leading_digits@[k]@),
        decreases f.leading_digits@.len() - i,
    {
        check(f.leading_digits[i].as_str())?;
        i = i + 1;
    }
    Ok(())
}

fn check_formats(v: &Vec<Format>) -> (r: Result<(), regex::Error>)
    ensures
        r is Ok <==> forall|i: int| 0 <= i < v@.len() ==> (#[trigger] v@[i]).compiled(),
{
    let mut i: usize = 0;
    while i < v.len()
        invariant
            0 <= i <= v@.len(),
            forall|k: int| 0 <= k < i ==> (#[trigger] v@[k]).compiled(),
        decreases v@.len() - i,
    {
        check_format(&v[i])?;
        i = i + 1;
    }
    Ok(())
}

impl Descriptors {
    fn check(&self) -> (r: Result<(), regex::Error>)
        ensures
            r is Ok <==> self.compiled(),
    {
        check(self.general.national_number.as_str())?;
        check_descriptor(&self.fixed_line)?;
        check_descriptor(&self.mobile)?;
        check_descriptor(&self.toll_free)?;
        check_descriptor(&self.premium_rate)?;
        check_descriptor(&self.shared_cost)?;
        check_descriptor(&self.personal_number)?;
        check_descriptor(&self.voip)?;
        check_descriptor(&self.pager)?;
        check_descriptor(&self.uan)?;
        check_descriptor(&self.emergency)?;
        check_descriptor(&self.voicemail)?;
        check_descriptor(&self.short_code)?;
        check_descriptor(&self.standard_rate)?;
        check_descriptor(&self.carrier)?;
        check_descriptor(&self.no_international)
    }
}

impl Metadata {
    /// Compiles every pattern of the record, and hands back the first error.
    pub fn check(&self) -> (r: Result<(), regex::Error>)
        ensures
            r is Ok <==> self.compiled(),
    {
        self.descriptors.check()?;
        check_optional(&self.international_prefix)?;
        check_optional(&self.national_prefix_for_parsing)?;
        check_optional(&self.leading_digits)?;
        check_formats(&self.formats)?;
        check_formats(&self.international_formats)
    }
}

impl Metadata {
    /// The descriptors of the region's number types.
    pub fn descriptors(&self) -> (r: &Descriptors)
        ensures
            *r == self.descriptors,
    {
        &self.descriptors
    }

    /// The region identifier.
    pub fn id(&self) -> (r: &String)
        ensures
            *r == self.id,
    {
        &self.id
    }

    /// The country calling code.
    pub fn country_code(&self) -> (r: u16)
        ensures
            r == self.country_code,
    {
        self.country_code
    }

    /// The pattern of the international dialing prefixes.
    pub fn international_prefix(&self) -> (r: Option<&String>)
        ensures
            r == match self.international_prefix { Some(ref x) => Some(x), None => None::<&String> },
    {
        self.international_prefix.as_ref()
    }

    /// The international dialing prefix to write.
    pub fn preferred_international_prefix(&self) -> (r: Option<&String>)
        ensures
            r == match self.preferred_international_prefix { Some(ref x) => Some(x), None => None::<&String> },
    {
        self.preferred_international_prefix.as_ref()
    }

    /// The national (trunk) prefix.
    pub fn national_prefix(&self) -> (r: Option<&String>)
        ensures
            r == match self.national_prefix { Some(ref x) => Some(x), None => None::<&String> },
    {
        self.national_prefix.as_ref()
    }

    /// The text to write before an extension.
    pub fn preferred_extension_prefix(&self) -> (r: Option<&String>)
        ensures
            r == match self.preferred_extension_prefix { Some(ref x) => Some(x), None => None::<&String> },
    {
        self.preferred_extension_prefix.as_ref()
    }

    /// The pattern of national prefixes to strip when parsing.
    pub fn national_prefix_for_parsing(&self) -> (r: Option<&String>)
        ensures
            r == match self.national_prefix_for_parsing { Some(ref x) => Some(x), None => None::<&String> },
    {
        self.national_prefix_for_parsing.as_ref()
    }

    /// The template that rewrites a number whose prefix is stripped.
    pub fn national_prefix_transform_rule(&self) -> (r: Option<&String>)
        ensures
            r == match self.national_prefix_transform_rule { Some(ref x) => Some(x), None => None::<&String> },
    {
        self.national_prefix_transform_rule.as_ref()
    }

    /// The formatting rules.
    pub fn formats(&self) -> (r: &Vec<Format>)
        ensures
            *r == self.formats,
    {
        &self.formats
    }

    /// The formatting rules for international output.
    pub fn international_formats(&self) -> (r: &Vec<Format>)
        ensures
            *r == self.international_formats,
    {
        &self.international_formats
    }

    /// Whether this is the main region of its calling code.
    pub fn is_main_country_for_code(&self) -> (r: bool)
        ensures
            r == self.main_country_for_code,
    {
        self.main_country_for_code
    }

    /// The pattern that picks this region among those of its code.
    pub fn leading_digits(&self) -> (r: Option<&String>)
        ensures
            r == match self.leading_digits { Some(ref x) => Some(x), None => None::<&String> },
    {
        self.leading_digits.as_ref()
    }

    /// Whether mobile numbers can be ported in this region.
    pub fn is_mobile_number_portable(&self) -> (r: bool)
        ensures
            r == self.mobile_number_portable,
    {
        self.mobile_number_portable
    }
}

impl Descriptors {
    /// The general descriptor.
    pub fn general(&self) -> (r: &Descriptor)
        ensures
            *r == self.general,
    {
        &self.general
    }

    /// The descriptor of fixed line numbers.
    pub fn fixed_line(&self) -> (r: Option<&Descriptor>)
        ensures
            r == match self.fixed_line { Some(ref x) => Some(x), None => None::<&Descriptor> },
    {
        self.fixed_line.as_ref()
    }

    /// The descriptor of mobile numbers.
    pub fn mobile(&self) -> (r: Option<&Descriptor>)
        ensures
            r == match self.mobile { Some(ref x) => Some(x), None => None::<&Descriptor> },
    {
        self.mobile.as_ref()
    }

    /// The descriptor of toll free numbers.
    pub fn toll_free(&self) -> (r: Option<&Descriptor>)
        ensures
            r == match self.toll_free { Some(ref x) => Some(x), None => None::<&Descriptor> },
    {
        self.toll_free.as_ref()
    }

    /// The descriptor of premium rate numbers.
    pub fn premium_rate(&self) -> (r: Option<&Descriptor>)
        ensures
            r == match self.premium_rate { Some(ref x) => Some(x), None => None::<&Descriptor> },
    {
        self.premium_rate.as_ref()
    }

    /// The descriptor of shared cost numbers.
    pub fn shared_cost(&self) -> (r: Option<&Descriptor>)
        ensures
            r == match self.shared_cost { Some(ref x) => Some(x), None => None::<&Descriptor> },
    {
        self.shared_cost.as_ref()
    }

    /// The descriptor of personal number numbers.
    pub fn personal_number(&self) -> (r: Option<&Descriptor>)
        ensures
            r == match self.personal_number { Some(ref x) => Some(x), None => None::<&Descriptor> },
    {
        self.personal_number.as_ref()
    }

    /// The descriptor of voip numbers.
    pub fn voip(&self) -> (r: Option<&Descriptor>)
        ensures
            r == match self.voip { Some(ref x) => Some(x), None => None::<&Descriptor> },
    {
        self.voip.as_ref()
    }

    /// The descriptor of pager numbers.
    pub fn pager(&self) -> (r: Option<&Descriptor>)
        ensures
            r == match self.pager { Some(ref x) => Some(x), None => None::<&Descriptor> },
    {
        self.pager.as_ref()
    }

    /// The descriptor of uan numbers.
    pub fn uan(&self) -> (r: Option<&Descriptor>)
        ensures
            r == match self.uan { Some(ref x) => Some(x), None => None::<&Descriptor> },
    {
        self.uan.as_ref()
    }

    /// The descriptor of emergency numbers.
    pub fn emergency(&self) -> (r: Option<&Descriptor>)
        ensures
            r == match self.emergency { Some(ref x) => Some(x), None => None::<&Descriptor> },
    {
        self.emergency.as_ref()
    }

    /// The descriptor of voicemail numbers.
    pub fn voicemail(&self) -> (r: Option<&Descriptor>)
        ensures
            r == match self.voicemail { Some(ref x) => Some(x), None => None::<&Descriptor> },
    {
        self.voicemail.as_ref()
    }

    /// The descriptor of short code numbers.
    pub fn short_code(&self) -> (r: Option<&Descriptor>)
        ensures
            r == match self.short_code { Some(ref x) => Some(x), None => None::<&Descriptor> },
    {
        self.short_code.as_ref()
    }

    /// The descriptor of standard rate numbers.
    pub fn standard_rate(&self) -> (r: Option<&Descriptor>)
        ensures
            r == match self.standard_rate { Some(ref x) => Some(x), None => None::<&Descriptor> },
    {
        self.standard_rate.as_ref()
    }

    /// The descriptor of carrier numbers.
    pub fn carrier(&self) -> (r: Option<&Descriptor>)
        ensures
            r == match self.carrier { Some(ref x) => Some(x), None => None::<&Descriptor> },
    {
        self.carrier.as_ref()
    }

    /// The descriptor of no international numbers.
    pub fn no_international(&self) -> (r: Option<&Descriptor>)
        ensures
            r == match self.no_international { Some(ref x) => Some(x), None => None::<&Descriptor> },
    {
        self.no_international.as_ref()
    }
}

impl Descriptor {
    /// The pattern that a national number of this type matches.
    pub fn national_number(&self) -> (r: &String)
        ensures
            *r == self.national_number,
    {
        &self.national_number
    }

    /// The possible lengths, smallest first.
    pub fn possible_length(&self) -> (r: &Vec<u16>)
        ensures
            *r == self.possible_length,
    {
        &self.possible_length
    }

    /// The lengths of numbers dialled only locally.
    pub fn possible_local_length(&self) -> (r: &Vec<u16>)
        ensures
            *r == self.possible_local_length,
    {
        &self.possible_local_length
    }

    /// An example number.
    pub fn example(&self) -> (r: Option<&String>)
        ensures
            r == match self.example { Some(ref x) => Some(x), None => None::<&String> },
    {
        self.example.as_ref()
    }
}

impl Format {
    /// The pattern over the national number.
    pub fn pattern(&self) -> (r: &String)
        ensures
            *r == self.pattern,
    {
        &self.pattern
    }

    /// The template that rewrites a match.
    pub fn format(&self) -> (r: &String)
        ensures
            *r == self.format,
    {
        &self.format
    }

    /// The patterns over the leading digits.
    pub fn leading_digits(&self) -> (r: &Vec<String>)
        ensures
            *r == self.leading_digits,
    {
        &self.leading_digits
    }

    /// How the national prefix and first group are written.
    pub fn national_prefix(&self) -> (r: Option<&String>)
        ensures
            r == match self.national_prefix { Some(ref x) => Some(x), None => None::<&String> },
    {
        self.national_prefix.as_ref()
    }

    /// Whether the national prefix may be left out.
    pub fn is_national_prefix_optional(&self) -> (r: bool)
        ensures
            r == self.national_prefix_optional,
    {
        self.national_prefix_optional
    }

    /// How a carrier code and first group are written.
    pub fn domestic_carrier(&self) -> (r: Option<&String>)
        ensures
            r == match self.domestic_carrier { Some(ref x) => Some(x), None => None::<&String> },
    {
        self.domestic_carrier.as_ref()
    }
}

} // verus!
