//! Raw metadata records, as read from the metadata source, and their
//! conversion into the records of the database.

use vstd::prelude::*;
use crate::database::{fixed_patterns_compile, with_main, Database};
use crate::error::{LoadMetadata, Metadata as MetadataError};
use crate::decimal::{numeral, parse_numeral};
use crate::metadata;
use crate::rfc3966::slice;

verus! {

/// The values that a region gives to its descriptors and formats by default.
#[derive(Clone, Default, Debug)]
pub struct Defaults {
    pub format: Format,
    pub descriptor: Descriptor,
}

/// A region's metadata as read, with each value present or not.
#[derive(Clone, Default, Debug)]
pub struct Metadata {
    pub general: Option<Descriptor>,
    pub fixed_line: Option<Descriptor>,
    pub mobile: Option<Descriptor>,
    pub toll_free: Option<Descriptor>,
    pub premium_rate: Option<Descriptor>,
    pub shared_cost: Option<Descriptor>,
    pub personal_number: Option<Descriptor>,
    pub voip: Option<Descriptor>,
    pub pager: Option<Descriptor>,
    pub uan: Option<Descriptor>,
    pub emergency: Option<Descriptor>,
    pub voicemail: Option<Descriptor>,
    pub short_code: Option<Descriptor>,
    pub standard_rate: Option<Descriptor>,
    pub carrier: Option<Descriptor>,
    pub no_international: Option<Descriptor>,
    pub id: Option<String>,
    pub country_code: Option<u16>,
    pub international_prefix: Option<String>,
    pub preferred_international_prefix: Option<String>,
    pub national_prefix: Option<String>,
    pub preferred_extension_prefix: Option<String>,
    pub national_prefix_for_parsing: Option<String>,
    pub national_prefix_transform_rule: Option<String>,
    pub formats: Vec<Format>,
    pub international_formats: Vec<Format>,
    pub main_country_for_code: bool,
    pub leading_digits: Option<String>,
    pub mobile_number_portable: bool,
    pub defaults: Defaults,
}

/// A formatting rule as read.
#[derive(Clone, Default, Debug)]
pub struct Format {
    pub pattern: Option<String>,
    pub format: Option<String>,
    pub leading_digits: Vec<String>,
    pub national_prefix_formatting_rule: Option<String>,
    pub national_prefix_optional_when_formatting: bool,
    pub domestic_carrier: Option<String>,
}

/// A descriptor as read.
#[derive(Clone, Default, Debug)]
pub struct Descriptor {
    pub national_number: Option<String>,
    pub possible_length: Vec<u16>,
    pub possible_local_length: Vec<u16>,
    pub example: Option<String>,
}

pub open spec fn optional_complete(d: Option<Descriptor>) -> bool {
    match d {
        Some(d) => d.national_number is Some,
        None => true,
    }
}

pub open spec fn format_complete(f: Format) -> bool {
    f.pattern is Some && f.format is Some
}

/// Whether a record holds every value that the database needs.
pub open spec fn complete(m: Metadata) -> bool {
    &&& m.general matches Some(g) && g.national_number is Some
    &&& optional_complete(m.fixed_line)
    &&& optional_complete(m.mobile)
    &&& optional_complete(m.toll_free)
    &&& optional_complete(m.premium_rate)
    &&& optional_complete(m.shared_cost)
    &&& optional_complete(m.personal_number)
    &&& optional_complete(m.voip)
    &&& optional_complete(m.pager)
    &&& optional_complete(m.uan)
    &&& optional_complete(m.emergency)
    &&& optional_complete(m.voicemail)
    &&& optional_complete(m.short_code)
    &&& optional_complete(m.standard_rate)
    &&& optional_complete(m.carrier)
    &&& optional_complete(m.no_international)
    &&& m.id is Some
    &&& m.country_code is Some
    &&& forall|i: int| 0 <= i < m.formats@.len() ==> format_complete(#[trigger] m.formats@[i])
    &&& forall|i: int| 0 <= i < m.international_formats@.len() ==> format_complete(#[trigger] m.international_formats@[i])
}

pub open spec fn converted_descriptor(d: Descriptor) -> metadata::Descriptor {
    metadata::Descriptor {
        national_number: d.national_number->Some_0,
        possible_length: d.possible_length,
        possible_local_length: d.possible_local_length,
        example: d.example,
    }
}

pub open spec fn optional_converted(d: Option<Descriptor>) -> Option<metadata::Descriptor> {
    match d {
        Some(d) => Some(converted_descriptor(d)),
        None => None,
    }
}

pub open spec fn converted_format(f: Format) -> metadata::Format {
    metadata::Format {
        pattern: f.pattern->Some_0,
        format: f.format->Some_0,
        leading_digits: f.leading_digits,
        national_prefix: f.national_prefix_formatting_rule,
        national_prefix_optional: f.national_prefix_optional_when_formatting,
        domestic_carrier: f.domestic_carrier,
    }
}

/// The database record of a complete raw record.
pub open spec fn converted(m: Metadata, r: metadata::Metadata) -> bool {
    &&& r.descriptors == metadata::Descriptors {
            general: converted_descriptor(m.general->Some_0),
            fixed_line: optional_converted(m.fixed_line),
            mobile: optional_converted(m.mobile),
            toll_free: optional_converted(m.toll_free),
            premium_rate: optional_converted(m.premium_rate),
            shared_cost: optional_converted(m.shared_cost),
            personal_number: optional_converted(m.personal_number),
            voip: optional_converted(m.voip),
            pager: optional_converted(m.pager),
            uan: optional_converted(m.uan),
            emergency: optional_converted(m.emergency),
            voicemail: optional_converted(m.voicemail),
            short_code: optional_converted(m.short_code),
            standard_rate: optional_converted(m.standard_rate),
            carrier: optional_converted(m.carrier),
            no_international: optional_converted(m.no_international),
        }
    &&& r.id == m.id->Some_0
    &&& r.country_code == m.country_code->Some_0
    &&& r.international_prefix == m.international_prefix
    &&& r.preferred_international_prefix == m.preferred_international_prefix
    &&& r.national_prefix == m.national_prefix
    &&& r.preferred_extension_prefix == m.preferred_extension_prefix
    &&& r.national_prefix_for_parsing == m.national_prefix_for_parsing
    &&& r.national_prefix_transform_rule == m.national_prefix_transform_rule
    &&& r.formats@.len() == m.formats@.len()
    &&& forall|i: int| 0 <= i < r.formats@.len() ==> r.formats@[i] == converted_format(#[trigger] m.formats@[i])
    &&& r.international_formats@.len() == m.international_formats@.len()
    &&& forall|i: int| 0 <= i < r.international_formats@.len() ==> r.international_formats@[i] == converted_format(#[trigger] m.international_formats@[i])
    &&& r.main_country_for_code == m.main_country_for_code
    &&& r.leading_digits == m.leading_digits
    &&& r.mobile_number_portable == m.mobile_number_portable
}

/// An error for a value that a raw record lacks.
pub open spec fn missing_value(e: LoadMetadata) -> bool {
    e matches LoadMetadata::Metadata(MetadataError::MissingValue { .. })
}

/// Whether every raw record is complete.
pub open spec fn all_complete(s: Seq<Metadata>) -> bool {
    forall|i: int| 0 <= i < s.len() ==> complete(#[trigger] s[i])
}

/// Whether `c` holds the database record of each raw record of `s`.
pub open spec fn all_converted(s: Seq<Metadata>, c: Seq<metadata::Metadata>) -> bool {
    &&& c.len() == s.len()
    &&& forall|i: int| 0 <= i < s.len() ==> converted(#[trigger] s[i], c[i])
}

fn missing(phase: &str, name: &str) -> (r: LoadMetadata)
    ensures
        missing_value(r),
{
    LoadMetadata::Metadata(MetadataError::MissingValue { phase: phase.to_owned(), name: name.to_owned() })
}

/// The database descriptor of a raw descriptor; fails when it has no pattern.
pub fn descriptor(d: Descriptor) -> (r: Result<metadata::Descriptor, LoadMetadata>)
    ensures
        match r {
            Ok(x) => d.national_number is Some && x == converted_descriptor(d),
            Err(e) => d.national_number is None && missing_value(e),
        },
{
    match d.national_number {
        Some(n) => Ok(metadata::Descriptor {
            national_number: n,
            possible_length: d.possible_length,
            possible_local_length: d.possible_local_length,
            example: d.example,
        }),
        None => Err(missing("descriptor", "national_number")),
    }
}

fn optional_descriptor(d: Option<Descriptor>) -> (r: Result<Option<metadata::Descriptor>, LoadMetadata>)
    ensures
        match r {
            Ok(x) => optional_complete(d) && x == optional_converted(d),
            Err(e) => !optional_complete(d) && missing_value(e),
        },
{
    match d {
        Some(d) => Ok(Some(descriptor(d)?)),
        None => Ok(None),
    }
}

/// The database format of a raw format; fails when it has no pattern or template.
pub fn format(f: Format) -> (r: Result<metadata::Format, LoadMetadata>)
    ensures
        match r {
            Ok(x) => format_complete(f) && x == converted_format(f),
            Err(e) => !format_complete(f) && missing_value(e),
        },
{
    let pattern = match f.pattern {
        Some(p) => p,
        None => return Err(missing("format", "pattern")),
    };
    let template = match f.format {
        Some(t) => t,
        None => return Err(missing("format", "format")),
    };
    Ok(metadata::Format {
        pattern,
        format: template,
        leading_digits: f.leading_digits,
        national_prefix: f.national_prefix_formatting_rule,
        national_prefix_optional: f.national_prefix_optional_when_formatting,
        domestic_carrier: f.domestic_carrier,
    })
}

fn formats(v: Vec<Format>) -> (r: Result<Vec<metadata::Format>, LoadMetadata>)
    ensures
        match r {
            Ok(x) => (forall|i: int| 0 <= i < v@.len() ==> format_complete(#[trigger] v@[i]))
                && x@.len() == v@.len()
                && forall|i: int| 0 <= i < x@.len() ==> x@[i] == converted_format(#[trigger] v@[i]),
            Err(e) => !(forall|i: int| 0 <= i < v@.len() ==> format_complete(#[trigger] v@[i])) && missing_value(e),
        },
{
    let ghost all = v@;
    let _n = v.len();
    let mut rest = v;
    let mut out: Vec<metadata::Format> = Vec::new();
    let mut k: usize = 0;
    while rest.len() > 0
        invariant
            k + rest@.len() == all.len(),
            all.len() <= usize::MAX,
            rest@ == all.subrange(k as int, all.len() as int),
            out@.len() == k,
            all == v@,
            forall|i: int| 0 <= i < k ==> format_complete(#[trigger] all[i]),
            forall|i: int| 0 <= i < k ==> out@[i] == converted_format(#[trigger] all[i]),
        decreases rest@.len(),
    {
        assert(rest@[0] == all[k as int]);
        let f = rest.remove(0);
        let g = match format(f) {
            Ok(g) => g,
            Err(e) => {
                assert(!format_complete(all[k as int]));
                assert(!(forall|i: int| 0 <= i < all.len() ==> format_complete(#[trigger] all[i])));
                return Err(e);
            },
        };
        out.push(g);
        k = k + 1;
        assert(rest@ =~= all.subrange(k as int, all.len() as int));
    }
    Ok(out)
}

/// The database record of a raw record; fails with the first value missing.
pub fn record(m: Metadata) -> (r: Result<metadata::Metadata, LoadMetadata>)
    ensures
        match r {
            Ok(x) => complete(m) && converted(m, x),
            Err(e) => !complete(m) && missing_value(e),
        },
{
    let general = match m.general {
        Some(g) => descriptor(g)?,
        None => return Err(missing("metadata", "generalDesc")),
    };
    let fixed_line = optional_descriptor(m.fixed_line)?;
    let mobile = optional_descriptor(m.mobile)?;
    let toll_free = optional_descriptor(m.toll_free)?;
    let premium_rate = optional_descriptor(m.premium_rate)?;
    let shared_cost = optional_descriptor(m.shared_cost)?;
    let personal_number = optional_descriptor(m.personal_number)?;
    let voip = optional_descriptor(m.voip)?;
    let pager = optional_descriptor(m.pager)?;
    let uan = optional_descriptor(m.uan)?;
    let emergency = optional_descriptor(m.emergency)?;
    let voicemail = optional_descriptor(m.voicemail)?;
    let short_code = optional_descriptor(m.short_code)?;
    let standard_rate = optional_descriptor(m.standard_rate)?;
    let carrier = optional_descriptor(m.carrier)?;
    let no_international = optional_descriptor(m.no_international)?;
    let id = match m.id {
        Some(id) => id,
        None => return Err(missing("metadata", "id")),
    };
    let country_code = match m.country_code {
        Some(c) => c,
        None => return Err(missing("metadata", "countryCode")),
    };
    let national = formats(m.formats)?;
    let international = formats(m.international_formats)?;
    Ok(metadata::Metadata {
        descriptors: metadata::Descriptors {
            general,
            fixed_line,
            mobile,
            toll_free,
            premium_rate,
            shared_cost,
            personal_number,
            voip,
            pager,
            uan,
            emergency,
            voicemail,
            short_code,
            standard_rate,
            carrier,
            no_international,
        },
        id,
        country_code,
        international_prefix: m.international_prefix,
        preferred_international_prefix: m.preferred_international_prefix,
        national_prefix: m.national_prefix,
        preferred_extension_prefix: m.preferred_extension_prefix,
        national_prefix_for_parsing: m.national_prefix_for_parsing,
        national_prefix_transform_rule: m.national_prefix_transform_rule,
        formats: national,
        international_formats: international,
        main_country_for_code: m.main_country_for_code,
        leading_digits: m.leading_digits,
        mobile_number_portable: m.mobile_number_portable,
    })
}

/// Builds a database from raw records: each must be complete (else the
/// first value missing is reported), and every pattern must compile (else
/// the first that does not is reported). The main region of each calling
/// code goes before the others of its code.
pub fn database(meta: Vec<Metadata>) -> (r: Result<Database, LoadMetadata>)
    ensures
        all_complete(meta@) ==> exists|c: Seq<metadata::Metadata>| {
            &&& #[trigger] all_converted(meta@, c)
            &&& (r is Ok <==> (fixed_patterns_compile() && forall|i: int| 0 <= i < c.len() ==> (#[trigger] c[i]).compiled()))
            &&& (r matches Ok(db) ==> db.wf() && db.records() == with_main(c, true) + with_main(c, false))
            &&& (r matches Err(e) ==> e is Regex)
        },
        !all_complete(meta@) ==> (r matches Err(e) && missing_value(e)),
{
    let ghost all = meta@;
    let _n = meta.len();
    let mut rest = meta;
    let mut out: Vec<metadata::Metadata> = Vec::new();
    let mut k: usize = 0;
    while rest.len() > 0
        invariant
            k + rest@.len() == all.len(),
            all.len() <= usize::MAX,
            rest@ == all.subrange(k as int, all.len() as int),
            all == meta@,
            out@.len() == k,
            forall|i: int| 0 <= i < k ==> complete(#[trigger] all[i]),
            forall|i: int| 0 <= i < k ==> converted(#[trigger] all[i], out@[i]),
        decreases rest@.len(),
    {
        assert(rest@[0] == all[k as int]);
        let m = rest.remove(0);
        let x = match record(m) {
            Ok(x) => x,
            Err(e) => {
                assert(!complete(all[k as int]));
                return Err(e);
            },
        };
        out.push(x);
        k = k + 1;
        assert(rest@ =~= all.subrange(k as int, all.len() as int));
    }
    let ghost c = out@;
    assert(all_converted(all, c));
    let r = Database::from(out);
    assert(all_converted(meta@, c));
    r
}

/// The position of the first `c` in `s` from `i` on, or the length of `s`.
pub open spec fn find_char(s: Seq<char>, i: int, c: char) -> int
    decreases s.len() - i,
{
    if i < 0 || i >= s.len() {
        s.len() as int
    } else if s[i] == c {
        i
    } else {
        find_char(s, i + 1, c)
    }
}

pub proof fn lemma_find_char(s: Seq<char>, i: int, c: char)
    requires
        0 <= i <= s.len(),
    ensures
        i <= find_char(s, i, c) <= s.len(),
        find_char(s, i, c) < s.len() ==> s[find_char(s, i, c)] == c,
    decreases s.len() - i,
{
    if i < s.len() && s[i] != c {
        lemma_find_char(s, i + 1, c);
    }
}

/// The numbers from `a` to `b`, both included.
pub open spec fn range(a: nat, b: nat) -> Seq<u16>
    decreases b + 1 - a,
{
    if a > b {
        seq![]
    } else {
        seq![a as u16] + range(a + 1, b)
    }
}

pub open spec fn blank(c: char) -> bool {
    c == ' ' || c == '\t' || c == '\n' || c == '\r'
}

/// A part without its leading and trailing blanks.
pub open spec fn trimmed(p: Seq<char>) -> Seq<char>
    decreases p.len(),
{
    if p.len() > 0 && blank(p[0]) {
        trimmed(p.drop_first())
    } else if p.len() > 0 && blank(p.last()) {
        trimmed(p.drop_last())
    } else {
        p
    }
}

/// The lengths that one part of a list gives: a number, or a range
/// `[a-b]`; a range without `-` gives none.
pub open spec fn part_lengths(p: Seq<char>) -> Option<Seq<u16>> {
    if p.len() > 0 && p[0] == '[' {
        let dash = find_char(p, 1, '-');
        if dash >= p.len() {
            Some(seq![])
        } else {
            let a = numeral(p.subrange(1, dash), 0xFFFF);
            let b = numeral(p.subrange(dash + 1, p.len() - 1), 0xFFFE);
            if dash + 1 > p.len() - 1 || a is None || b is None {
                None
            } else {
                Some(range(a->Some_0, b->Some_0))
            }
        }
    } else {
        match numeral(p, 0xFFFF) {
            Some(v) => Some(seq![v as u16]),
            None => None,
        }
    }
}

/// The lengths of a comma-separated list, from position `i` on.
pub open spec fn lengths_from(s: Seq<char>, i: int) -> Option<Seq<u16>>
    decreases s.len() - i,
{
    if i < 0 || i > s.len() {
        None
    } else {
        let j = find_char(s, i, ',');
        match part_lengths(trimmed(s.subrange(i, j))) {
            None => None,
            Some(here) => if j >= s.len() || j < i {
                Some(here)
            } else {
                match lengths_from(s, j + 1) {
                    None => None,
                    Some(rest) => Some(here + rest),
                }
            },
        }
    }
}

fn position(s: &[char], i: usize, c: char) -> (r: usize)
    requires
        i <= s@.len(),
    ensures
        r == find_char(s@, i as int, c),
{
    proof { lemma_find_char(s@, i as int, c); }
    let mut j = i;
    while j < s.len() && s[j] != c
        invariant
            i <= j <= s@.len(),
            find_char(s@, j as int, c) == find_char(s@, i as int, c),
        decreases s@.len() - j,
    {
        j = j + 1;
    }
    j
}

fn trim_part(p: &[char]) -> (r: Vec<char>)
    ensures
        r@ == trimmed(p@),
{
    let mut a: usize = 0;
    let mut b: usize = p.len();
    assert(p@.subrange(0, p@.len() as int) =~= p@);
    while a < b && (p[a] == ' ' || p[a] == '\t' || p[a] == '\n' || p[a] == '\r')
        invariant
            0 <= a <= b == p@.len(),
            trimmed(p@.subrange(a as int, b as int)) == trimmed(p@),
        decreases b - a,
    {
        assert(p@.subrange(a as int, b as int).drop_first() =~= p@.subrange(a + 1, b as int));
        a = a + 1;
    }
    while a < b && (p[b - 1] == ' ' || p[b - 1] == '\t' || p[b - 1] == '\n' || p[b - 1] == '\r')
        invariant
            0 <= a <= b <= p@.len(),
            trimmed(p@.subrange(a as int, b as int)) == trimmed(p@),
            a < b ==> !blank(p@[a as int]),
        decreases b - a,
    {
        assert(p@.subrange(a as int, b as int).drop_last() =~= p@.subrange(a as int, b - 1));
        b = b - 1;
    }
    slice(p, a, b)
}

fn push_range(out: &mut Vec<u16>, a: u16, b: u16)
    ensures
        final(out)@ == old(out)@ + range(a as nat, b as nat),
{
    let ghost start = old(out)@;
    if a > b {
        assert(range(a as nat, b as nat) =~= Seq::<u16>::empty());
        assert(out@ =~= start + range(a as nat, b as nat));
        return;
    }
    let mut i: u16 = a;
    loop
        invariant
            a <= i <= b,
            start == old(out)@,
            out@ + range(i as nat, b as nat) == start + range(a as nat, b as nat),
        decreases b - i,
    {
        assert(range(i as nat, b as nat) == seq![i] + range(i as nat + 1, b as nat));
        assert(out@ + range(i as nat, b as nat) =~= out@.push(i) + range(i as nat + 1, b as nat));
        out.push(i);
        if i == b {
            assert(range(i as nat + 1, b as nat) =~= Seq::<u16>::empty());
            assert(out@ =~= start + range(a as nat, b as nat));
            return;
        }
        i = i + 1;
    }
}

fn part(p: &[char]) -> (r: Option<Vec<u16>>)
    ensures
        match r {
            Some(v) => part_lengths(p@) == Some(v@),
            None => part_lengths(p@) is None,
        },
{
    if p.len() > 0 && p[0] == '[' {
        let dash = position(p, 1, '-');
        proof { lemma_find_char(p@, 1, '-'); }
        if dash >= p.len() {
            return Some(Vec::new());
        }
        if dash + 1 > p.len() - 1 {
            return None;
        }
        let a = parse_numeral(slice(p, 1, dash).as_slice(), 0xFFFF);
        let b = parse_numeral(slice(p, dash + 1, p.len() - 1).as_slice(), 0xFFFE);
        match (a, b) {
            (Some(a), Some(b)) => {
                let mut out: Vec<u16> = Vec::new();
                push_range(&mut out, a as u16, b as u16);
                assert(out@ =~= range(a as nat, b as nat));
                Some(out)
            },
            _ => None,
        }
    } else {
        match parse_numeral(p, 0xFFFF) {
            Some(v) => {
                let mut out: Vec<u16> = Vec::new();
                out.push(v as u16);
                Some(out)
            },
            None => None,
        }
    }
}

/// The lengths that a comma-separated list gives, as in `6,7,[9-11]`.
pub fn lengths(value: &str) -> (r: Option<Vec<u16>>)
    ensures
        match r {
            Some(v) => lengths_from(value@, 0) == Some(v@),
            None => lengths_from(value@, 0) is None,
        },
{
    let s = crate::chars::chars_of(value);
    let mut out: Vec<u16> = Vec::new();
    let mut i: usize = 0;
    loop
        invariant
            0 <= i <= s@.len(),
            s@ == value@,
            lengths_from(s@, 0) == match lengths_from(s@, i as int) {
                Some(rest) => Some(out@ + rest),
                None => None,
            },
        decreases s@.len() - i,
    {
        let j = position(s.as_slice(), i, ',');
        proof { lemma_find_char(s@, i as int, ','); }
        let t = trim_part(slice(s.as_slice(), i, j).as_slice());
        let here = match part(t.as_slice()) {
            Some(h) => h,
            None => return None,
        };
        if j >= s.len() {
            let mut here = here;
            let mut done = out;
            done.append(&mut here);
            return Some(done);
        }
        proof {
            match lengths_from(s@, j + 1) {
                Some(rest) => { assert(out@ + (here@ + rest) =~= (out@ + here@) + rest); },
                None => {},
            }
        }
        let mut here = here;
        out.append(&mut here);
        i = j + 1;
    }
}

} // verus!
