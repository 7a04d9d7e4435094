//! Parsing a phone number: recognition (RFC 3966, else natural notation),
//! normalization, country code, national prefix and carrier code.

use vstd::prelude::*;
use crate::carrier::Carrier;
use crate::chars::{ascii_letter, chars_of, dec_digit_value, digit_char, digit_value, is_ascii_letter, is_plus, keypad, keypad_digit, ascii_of, plus_sign, text_of};
use crate::country::{Code, Id, Source};
use crate::database::{with_code, Database};
use crate::decimal::{count_leading_zeros, decimal, decimal_chars, leading_zeros, numeral, parse_numeral};
use crate::error::Parse;
use crate::extension::Extension;
use crate::metadata::Metadata;
use crate::national_number::NationalNumber;
use crate::phone_number::{PhoneNumber, PhoneNumberView, Type};
use crate::regex::{compiles, replace, replace_of, start_groups, start_match, Cache};
use crate::rfc3966::{opt_seq, rfc3966, Recognized};
use crate::natural::natural;
use crate::text::{has_prefix, head, starts_with, tail};
use crate::validator::{desc_match, length, length_class, Validation};

verus! {

/// The fewest digits of a national significant number.
pub const MIN_LENGTH_FOR_NSN: usize = 2;

/// The most digits of a national significant number.
pub const MAX_LENGTH_FOR_NSN: usize = 17;

/// A number between recognition and assembly.
pub struct Raw {
    pub source: Source,
    pub national: Seq<char>,
    pub extension: Option<Seq<char>>,
    pub carrier: Option<Seq<char>>,
}

/// The number of ASCII letters.
pub open spec fn letters(s: Seq<char>) -> nat
    decreases s.len(),
{
    if s.len() == 0 {
        0
    } else {
        letters(s.drop_last()) + if ascii_letter(s.last()) { 1nat } else { 0nat }
    }
}

/// What a character becomes: its ASCII digit, the keypad digit of a letter
/// (where letters are read), or nothing.
pub open spec fn normal_char(c: char, alpha: bool) -> Seq<char> {
    match digit_value(c) {
        Some(d) => seq![digit_char(d)],
        None => if alpha {
            match keypad(c) {
                Some(k) => seq![k],
                None => seq![],
            }
        } else {
            seq![]
        },
    }
}

pub open spec fn normal_chars(s: Seq<char>, alpha: bool) -> Seq<char>
    decreases s.len(),
{
    if s.len() == 0 {
        seq![]
    } else {
        normal_chars(s.drop_last(), alpha) + normal_char(s.last(), alpha)
    }
}

/// The digits of a text: decimal digits become ASCII, letters become keypad
/// digits when the text holds three letters or more, and the rest goes.
pub open spec fn normalized(s: Seq<char>) -> Seq<char> {
    normal_chars(s, letters(s) >= 3)
}

pub open spec fn normalized_option(s: Option<Seq<char>>) -> Option<Seq<char>> {
    match s {
        Some(v) => Some(normalized(v)),
        None => None,
    }
}

/// The end of the run of plus signs that starts at `i`.
pub open spec fn plus_end(s: Seq<char>, i: int) -> int
    decreases s.len() - i,
{
    if i < 0 || i >= s.len() || !plus_sign(s[i]) {
        i
    } else {
        plus_end(s, i + 1)
    }
}

/// The end of an international dialing prefix to strip: a match of the
/// region's pattern at the start that is not followed by `0`.
pub open spec fn idd_end(idd: Option<Seq<char>>, n: Seq<char>) -> Option<nat> {
    match idd {
        Some(p) => match start_match(p, n) {
            Some(e) => if e < n.len() && n[e as int] == '0' { None } else { Some(e) },
            None => None,
        },
        None => None,
    }
}

/// A recognized number after its leading `+` or dialing prefix is taken
/// off and it is normalized, with the source of its country code so far,
/// and its explicit country code (normalized) if it came with one.
pub open spec fn with_idd(idd: Option<Seq<char>>, r: Recognized) -> (Raw, Option<Seq<char>>) {
    match r.prefix {
        Some(p) => (
            Raw { source: Source::Plus, national: normalized(r.national), extension: normalized_option(r.extension), carrier: None },
            Some(normalized(p)),
        ),
        None => {
            let p = plus_end(r.national, 0);
            let source = if p > 0 { Source::Plus } else { Source::Default };
            let n1 = normalized(r.national.subrange(p, r.national.len() as int));
            let ext = normalized_option(r.extension);
            match idd_end(idd, n1) {
                Some(e) => (
                    Raw {
                        source: if source == Source::Plus { Source::Plus } else { Source::Idd },
                        national: n1.subrange(e as int, n1.len() as int),
                        extension: ext,
                        carrier: None,
                    },
                    None,
                ),
                None => (Raw { source, national: n1, extension: ext, carrier: None }, None),
            }
        },
    }
}

/// Whether a calling code is that of some record.
pub open spec fn known(db: Database, v: nat) -> bool {
    v <= 0xFFFF && with_code(db.records(), v as u16).len() > 0
}

/// The number of leading digits that form a known calling code: the
/// shortest of one, two or three.
pub open spec fn code_length(db: Database, n: Seq<char>) -> Option<nat> {
    let c1 = numeral(n.subrange(0, 1), 999);
    let c2 = numeral(n.subrange(0, 2), 999);
    let c3 = numeral(n.subrange(0, 3), 999);
    if n.len() >= 1 && c1 is Some && known(db, c1->Some_0) {
        Some(1)
    } else if n.len() >= 2 && c2 is Some && known(db, c2->Some_0) {
        Some(2)
    } else if n.len() >= 3 && c3 is Some && known(db, c3->Some_0) {
        Some(3)
    } else {
        None
    }
}

/// The record of the default region, if one is given and known.
pub open spec fn region_index(db: Database, region: Option<Id>) -> Option<int> {
    match region {
        Some(id) => db.index_of_id(id.text()),
        None => None,
    }
}

/// The country code of a recognized number, and the number without it.
pub open spec fn resolved(db: Database, region: Option<Id>, r: Recognized) -> Result<(Raw, u16), Parse> {
    let mi = region_index(db, region);
    let idd = match mi {
        Some(i) => match db.records()[i].international_prefix {
            Some(p) => Some(p@),
            None => None,
        },
        None => None,
    };
    let (n, prefix) = with_idd(idd, r);
    if n.source != Source::Default {
        if n.national.len() < MIN_LENGTH_FOR_NSN {
            Err(Parse::TooShortNsn)
        } else {
            match prefix {
                Some(p) => match numeral(p, 0xFFFF) {
                    None => Err(Parse::MalformedInteger),
                    Some(v) => if known(db, v) { Ok((n, v as u16)) } else { Err(Parse::InvalidCountryCode) },
                },
                None => if n.national[0] == '0' {
                    Err(Parse::InvalidCountryCode)
                } else {
                    match code_length(db, n.national) {
                        Some(len) => Ok((
                            Raw { national: n.national.subrange(len as int, n.national.len() as int), ..n },
                            numeral(n.national.subrange(0, len as int), 999)->Some_0 as u16,
                        )),
                        None => Err(Parse::InvalidCountryCode),
                    }
                },
            }
        }
    } else {
        match mi {
            None => Err(Parse::InvalidCountryCode),
            Some(i) => {
                let meta = db.records()[i];
                let code = decimal(meta.country_code as nat);
                if starts_with(n.national, code) && (!desc_match(meta.descriptors.general, n.national)
                    || !(length_class(meta, n.national.len(), Type::Unknown) is IsPossible
                        || length_class(meta, n.national.len(), Type::Unknown) is IsPossibleLocalOnly)) {
                    Ok((Raw {
                        source: Source::Number,
                        national: n.national.subrange(code.len() as int, n.national.len() as int),
                        ..n
                    }, meta.country_code))
                } else {
                    Ok((n, meta.country_code))
                }
            },
        }
    }
}

/// The last group of a match, when the pattern has groups of its own.
pub open spec fn last_group(groups: Seq<Option<Seq<char>>>) -> Option<Seq<char>> {
    if groups.len() > 1 { groups.last() } else { None }
}

/// The first group of a match, when the pattern has groups of its own.
pub open spec fn first_group(groups: Seq<Option<Seq<char>>>) -> Option<Seq<char>> {
    if groups.len() > 1 { groups[1] } else { None }
}

/// A number with its national prefix taken off, and its carrier code taken
/// out, by the rules of a region; unchanged where the rules do not apply.
/// A number rewritten by the transform rule is kept only if the rewrite
/// matches the general descriptor; a stripped one only if it does, or the
/// number did not match it before.
pub open spec fn stripped(meta: Metadata, n: Raw) -> Raw {
    match meta.national_prefix_for_parsing {
        None => match meta.national_prefix {
            Some(np) => if starts_with(n.national, np@) {
                Raw { national: n.national.subrange(np@.len() as int, n.national.len() as int), ..n }
            } else {
                n
            },
            None => n,
        },
        Some(p) => match start_groups(p@, n.national) {
            None => n,
            Some(groups) => if groups.len() == 0 || groups[0] is None || groups[0]->Some_0.len() > n.national.len() {
                n
            } else {
                let end = groups[0]->Some_0.len();
                let general = meta.descriptors.general;
                let viable = desc_match(general, n.national);
                let transform = meta.national_prefix_transform_rule;
                if transform is Some && last_group(groups) is Some {
                    let t = replace_of(p@, n.national, transform->Some_0@);
                    if !desc_match(general, t) {
                        n
                    } else {
                        Raw { national: t, carrier: first_group(groups), ..n }
                    }
                } else {
                    let rest = n.national.subrange(end as int, n.national.len() as int);
                    if viable && !desc_match(general, rest) {
                        n
                    } else {
                        Raw { national: rest, carrier: last_group(groups), ..n }
                    }
                }
            },
        },
    }
}

/// What the parser recognizes: RFC 3966 first, else natural notation.
pub open spec fn recognized(s: Seq<char>) -> Option<Recognized> {
    match rfc3966(s) {
        Some(r) => Some(r),
        None => natural(s),
    }
}

/// The number after the national prefix of the default region is stripped,
/// where stripping leaves it not too short.
pub open spec fn after_prefix(db: Database, region: Option<Id>, n: Raw) -> Raw {
    match region_index(db, region) {
        Some(i) => {
            let p = stripped(db.records()[i], n);
            if length_class(db.records()[i], p.national.len(), Type::Unknown) != Validation::TooShort { p } else { n }
        },
        None => n,
    }
}

/// The phone number that a text denotes, with an optional default region.
pub open spec fn parsed(db: Database, region: Option<Id>, s: Seq<char>) -> Result<PhoneNumberView, Parse> {
    match recognized(s) {
        None => Err(Parse::NoNumber),
        Some(r) => match resolved(db, region, r) {
            Err(e) => Err(e),
            Ok((n, code)) => {
                let n2 = after_prefix(db, region, n);
                if n2.national.len() < MIN_LENGTH_FOR_NSN {
                    Err(Parse::TooShortNsn)
                } else if n2.national.len() > MAX_LENGTH_FOR_NSN {
                    Err(Parse::TooLong)
                } else {
                    match numeral(n2.national, 0xFFFF_FFFF_FFFF_FFFF) {
                        None => Err(Parse::MalformedInteger),
                        Some(v) => Ok(PhoneNumberView {
                            code: Code { value: code, source: n2.source },
                            national: NationalNumber { value: v as u64, zeros: leading_zeros(n2.national) as u8 },
                            extension: n2.extension,
                            carrier: n2.carrier,
                        }),
                    }
                }
            },
        },
    }
}


/// A number between recognition and assembly.
pub struct Number {
    /// How the country code was found, so far.
    pub country: Source,
    /// The national part.
    pub national: Vec<char>,
    /// The extension.
    pub extension: Option<Vec<char>>,
    /// The carrier selection code.
    pub carrier: Option<Vec<char>>,
}

impl Number {
    pub open spec fn raw(self) -> Raw {
        Raw { source: self.country, national: self.national@, extension: opt_seq(self.extension), carrier: opt_seq(self.carrier) }
    }
}

/// The digits of a text: decimal digits become ASCII, letters become keypad
/// digits when the text holds three letters or more, and the rest goes.
pub fn normalize(s: &[char]) -> (r: Vec<char>)
    ensures
        r@ == normalized(s@),
{
    let mut count: usize = 0;
    let mut i: usize = 0;
    while i < s.len()
        invariant
            0 <= i <= s@.len(),
            count as nat == letters(s@.subrange(0, i as int)),
            count <= i,
        decreases s@.len() - i,
    {
        assert(s@.subrange(0, i + 1).drop_last() =~= s@.subrange(0, i as int));
        if is_ascii_letter(s[i]) {
            count = count + 1;
        }
        i = i + 1;
    }
    assert(s@.subrange(0, s@.len() as int) =~= s@);
    let alpha = count >= 3;
    let mut out: Vec<char> = Vec::new();
    let mut j: usize = 0;
    while j < s.len()
        invariant
            0 <= j <= s@.len(),
            alpha == (letters(s@) >= 3),
            out@ == normal_chars(s@.subrange(0, j as int), alpha),
        decreases s@.len() - j,
    {
        assert(s@.subrange(0, j + 1).drop_last() =~= s@.subrange(0, j as int));
        let c = s[j];
        match dec_digit_value(c) {
            Some(d) => {
                out.push(ascii_of(d));
            },
            None => {
                if alpha {
                    match keypad_digit(c) {
                        Some(k) => out.push(k),
                        None => {},
                    }
                }
            },
        }
        proof {
            let prev = normal_chars(s@.subrange(0, j as int), alpha);
            assert(out@ =~= prev + normal_char(c, alpha));
        }
        j = j + 1;
    }
    assert(s@.subrange(0, s@.len() as int) =~= s@);
    out
}

fn normalize_option(o: &Option<Vec<char>>) -> (r: Option<Vec<char>>)
    ensures
        opt_seq(r) == normalized_option(opt_seq(*o)),
{
    match o {
        Some(v) => Some(normalize(v.as_slice())),
        None => None,
    }
}

fn plus_count(s: &[char]) -> (r: usize)
    ensures
        r == plus_end(s@, 0),
        r <= s@.len(),
{
    let mut i: usize = 0;
    while i < s.len() && is_plus(s[i])
        invariant
            0 <= i <= s@.len(),
            plus_end(s@, i as int) == plus_end(s@, 0),
        decreases s@.len() - i,
    {
        i = i + 1;
    }
    i
}

/// Takes a leading `+` or international dialing prefix off a recognized
/// number, and normalizes it.
pub fn international_prefix(cache: &Cache, idd: &Option<String>, national: &[char], prefix: &Option<Vec<char>>, extension: &Option<Vec<char>>) -> (r: (Number, Option<Vec<char>>))
    requires
        match idd { Some(p) => compiles(p@), None => true },
    ensures
        (r.0.raw(), opt_seq(r.1)) == with_idd(
            match idd { Some(p) => Some(p@), None => None },
            Recognized { national: national@, prefix: opt_seq(*prefix), extension: opt_seq(*extension) },
        ),
{
    let ext = normalize_option(extension);
    match prefix {
        Some(p) => {
            return (Number { country: Source::Plus, national: normalize(national), extension: ext, carrier: None }, Some(normalize(p.as_slice())));
        },
        None => {},
    }
    let p = plus_count(national);
    let source = if p > 0 { Source::Plus } else { Source::Default };
    let rest = tail(national, p);
    let n1 = normalize(rest.as_slice());
    let end: Option<usize> = match idd {
        Some(pattern) => match cache.match_at_start(pattern.as_str(), n1.as_slice()) {
            Some(e) => if e < n1.len() && n1[e] == '0' { None } else { Some(e) },
            None => None,
        },
        None => None,
    };
    match end {
        Some(e) => {
            let stripped = tail(n1.as_slice(), e);
            let src = if p > 0 { Source::Plus } else { Source::Idd };
            (Number { country: src, national: stripped, extension: ext, carrier: None }, None)
        },
        None => (Number { country: source, national: n1, extension: ext, carrier: None }, None),
    }
}

fn known_code(db: &Database, v: u64) -> (r: bool)
    ensures
        r == known(*db, v as nat),
{
    v <= 0xFFFF && db.by_code(v as u16).is_some()
}

fn code_len(db: &Database, n: &[char]) -> (r: Option<usize>)
    ensures
        match r { Some(l) => code_length(*db, n@) == Some(l as nat) && 1 <= l <= 3, None => code_length(*db, n@) is None },
{
    if n.len() >= 1 {
        let h = head(n, 1);
        match parse_numeral(h.as_slice(), 999) {
            Some(v) => if known_code(db, v) { return Some(1); },
            None => {},
        }
    }
    if n.len() >= 2 {
        let h = head(n, 2);
        match parse_numeral(h.as_slice(), 999) {
            Some(v) => if known_code(db, v) { return Some(2); },
            None => {},
        }
    }
    if n.len() >= 3 {
        let h = head(n, 3);
        match parse_numeral(h.as_slice(), 999) {
            Some(v) => if known_code(db, v) { return Some(3); },
            None => {},
        }
    }
    None
}

/// Finds the country code of a recognized number and takes it off.
pub fn country_code(database: &Database, region: Option<Id>, national: &[char], prefix: &Option<Vec<char>>, extension: &Option<Vec<char>>) -> (r: Result<(Number, u16), Parse>)
    requires
        database.wf(),
    ensures
        match r {
            Ok((n, code)) => resolved(*database, region,
                Recognized { national: national@, prefix: opt_seq(*prefix), extension: opt_seq(*extension) }) == Ok::<(Raw, u16), Parse>((n.raw(), code)),
            Err(e) => resolved(*database, region,
                Recognized { national: national@, prefix: opt_seq(*prefix), extension: opt_seq(*extension) }) == Err::<(Raw, u16), Parse>(e),
        },
{
    let meta: Option<&Metadata> = match region {
        Some(id) => database.by_id(id.as_str()),
        None => None,
    };
    proof {
        crate::database::lemma_first_with_id(database.records(), match region { Some(id) => id.text(), None => seq![] });
        match region_index(*database, region) {
            Some(i) => { assert(database.records()[i].compiled()); },
            None => {},
        }
    }
    let none: Option<String> = None;
    let idd: &Option<String> = match meta {
        Some(m) => &m.international_prefix,
        None => &none,
    };
    let (n, code_text) = international_prefix(database.cache(), idd, national, prefix, extension);
    match n.country {
        Source::Default => {},
        _ => {
            if n.national.len() < MIN_LENGTH_FOR_NSN {
                return Err(Parse::TooShortNsn);
            }
            match code_text {
                Some(p) => {
                    return match parse_numeral(p.as_slice(), 0xFFFF) {
                        None => Err(Parse::MalformedInteger),
                        Some(v) => if known_code(database, v) { Ok((n, v as u16)) } else { Err(Parse::InvalidCountryCode) },
                    };
                },
                None => {
                    if n.national[0] == '0' {
                        return Err(Parse::InvalidCountryCode);
                    }
                    return match code_len(database, n.national.as_slice()) {
                        Some(len) => {
                            let h = head(n.national.as_slice(), len);
                            let v = parse_numeral(h.as_slice(), 999);
                            let rest = tail(n.national.as_slice(), len);
                            match v {
                                Some(v) => Ok((Number { country: n.country, national: rest, extension: n.extension, carrier: n.carrier }, v as u16)),
                                None => Err(Parse::InvalidCountryCode),
                            }
                        },
                        None => Err(Parse::InvalidCountryCode),
                    };
                },
            }
        },
    }
    let m = match meta {
        Some(m) => m,
        None => return Err(Parse::InvalidCountryCode),
    };
    let code = decimal_chars(m.country_code as u64);
    if has_prefix(n.national.as_slice(), code.as_slice())
        && (!m.descriptors.general.is_match(database.cache(), n.national.as_slice())
            || !length(m, n.national.as_slice(), Type::Unknown).is_possible()) {
        let rest = tail(n.national.as_slice(), code.len());
        Ok((Number { country: Source::Number, national: rest, extension: n.extension, carrier: n.carrier }, m.country_code))
    } else {
        Ok((n, m.country_code))
    }
}

/// Takes the national prefix off a number, and its carrier code out, by the
/// rules of a region.
pub fn national_number(cache: &Cache, meta: &Metadata, n: Number) -> (r: Number)
    requires
        meta.compiled(),
    ensures
        r.raw() == stripped(*meta, n.raw()),
{
    let pattern = match &meta.national_prefix_for_parsing {
        Some(p) => p,
        None => {
            return match &meta.national_prefix {
                Some(np) => {
                    let npc = chars_of(np.as_str());
                    if has_prefix(n.national.as_slice(), npc.as_slice()) {
                        let rest = tail(n.national.as_slice(), npc.len());
                        Number { country: n.country, national: rest, extension: n.extension, carrier: n.carrier }
                    } else {
                        n
                    }
                },
                None => n,
            };
        },
    };
    let groups = match cache.groups_at_start(pattern.as_str(), n.national.as_slice()) {
        Some(g) => g,
        None => return n,
    };
    if groups.len() == 0 {
        return n;
    }
    let whole = match &groups[0] {
        Some(m) => chars_of(m.as_str()),
        None => return n,
    };
    if whole.len() > n.national.len() {
        return n;
    }
    let end = whole.len();
    let general = &meta.descriptors.general;
    let viable = general.is_match(cache, n.national.as_slice());
    let count = groups.len();
    let last: Option<Vec<char>> = if count > 1 {
        match &groups[count - 1] {
            Some(g) => Some(chars_of(g.as_str())),
            None => None,
        }
    } else {
        None
    };
    let first: Option<Vec<char>> = if count > 1 {
        match &groups[1] {
            Some(g) => Some(chars_of(g.as_str())),
            None => None,
        }
    } else {
        None
    };
    proof {
        assert(opt_seq(last) == last_group(groups.deep_view()));
        assert(opt_seq(first) == first_group(groups.deep_view()));
    }
    match &meta.national_prefix_transform_rule {
        Some(rule) => {
            if last.is_some() {
                let national_text = text_of(n.national.as_slice());
                let t = chars_of(replace(cache, pattern.as_str(), national_text.as_str(), rule.as_str()).as_str());
                if !general.is_match(cache, t.as_slice()) {
                    return n;
                }
                return Number { country: n.country, national: t, extension: n.extension, carrier: first };
            }
        },
        None => {},
    }
    let rest = tail(n.national.as_slice(), end);
    if viable && !general.is_match(cache, rest.as_slice()) {
        n
    } else {
        Number { country: n.country, national: rest, extension: n.extension, carrier: last }
    }
}

/// Parses a phone number with a database, and an optional default region.
pub fn parse_with(database: &Database, country: Option<Id>, string: &str) -> (r: Result<PhoneNumber, Parse>)
    requires
        database.wf(),
    ensures
        match r {
            Ok(n) => parsed(*database, country, string@) == Ok::<PhoneNumberView, Parse>(n@),
            Err(e) => parsed(*database, country, string@) == Err::<PhoneNumberView, Parse>(e),
        },
{
    let s = chars_of(string);
    let (national, prefix, extension) = match crate::rfc3966::phone_number(s.as_slice()) {
        Some(t) => t,
        None => match crate::natural::phone_number(database.cache(), s.as_slice()) {
            Some((national, extension)) => (national, None, extension),
            None => return Err(Parse::NoNumber),
        },
    };
    let (number, code) = match country_code(database, country, national.as_slice(), &prefix, &extension) {
        Ok(t) => t,
        Err(e) => return Err(e),
    };
    let meta: Option<&Metadata> = match country {
        Some(id) => database.by_id(id.as_str()),
        None => None,
    };
    let number = match meta {
        Some(m) => {
            proof {
                crate::database::lemma_first_with_id(database.records(), match country { Some(id) => id.text(), None => seq![] });
                let i = region_index(*database, country)->Some_0;
                assert(database.records()[i].compiled());
            }
            let ghost before = number.raw();
            assert(number.national@.subrange(0, number.national@.len() as int) =~= number.national@);
            let kept = Number { country: number.country, national: tail(number.national.as_slice(), 0), extension: clone_option(&number.extension), carrier: clone_option(&number.carrier) };
            assert(kept.raw() == before);
            let potential = national_number(database.cache(), m, number);
            if length(m, potential.national.as_slice(), Type::Unknown) != Validation::TooShort {
                potential
            } else {
                kept
            }
        },
        None => number,
    };
    if number.national.len() < MIN_LENGTH_FOR_NSN {
        return Err(Parse::TooShortNsn);
    }
    if number.national.len() > MAX_LENGTH_FOR_NSN {
        return Err(Parse::TooLong);
    }
    let value = match parse_numeral(number.national.as_slice(), 0xFFFF_FFFF_FFFF_FFFF) {
        Some(v) => v,
        None => return Err(Parse::MalformedInteger),
    };
    let zeros = count_leading_zeros(number.national.as_slice());
    proof { crate::decimal::lemma_leading_zeros_bound(number.national@); }
    let extension = match number.extension {
        Some(e) => Some(Extension(text_of(e.as_slice()))),
        None => None,
    };
    let carrier = match number.carrier {
        Some(c) => Some(Carrier(text_of(c.as_slice()))),
        None => None,
    };
    Ok(PhoneNumber {
        code: Code { value: code, source: number.country },
        national: NationalNumber { value, zeros: zeros as u8 },
        extension,
        carrier,
    })
}

fn clone_option(o: &Option<Vec<char>>) -> (r: Option<Vec<char>>)
    ensures
        opt_seq(r) == opt_seq(*o),
{
    match o {
        Some(v) => {
            assert(v@.subrange(0, v@.len() as int) =~= v@);
            Some(tail(v.as_slice(), 0))
        },
        None => None,
    }
}

} // verus!
