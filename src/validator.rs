//! Validation: length classes, number types, and the validity of numbers.

use vstd::prelude::*;
use crate::database::{first_with_code, with_code, Database};
use crate::metadata::{Descriptor, Metadata};
use crate::phone_number::{PhoneNumber, Type};
use crate::chars::{ascii_digit, ascii_letter, chars_of, is_ascii_digit, is_ascii_letter, is_plus, is_punctuation, punctuation};
use crate::parser::plus_end;
use crate::regex::{compiles, start_match, Cache};

verus! {

/// How the length of a number compares with the lengths of its region.
#[derive(Copy, Clone, Eq, PartialEq, Structural, Debug)]
pub enum Validation {
    /// The length is that of valid numbers of the region.
    IsPossible,
    /// The length is that of numbers that can only be dialled locally.
    IsPossibleLocalOnly,
    /// The country calling code is invalid.
    InvalidCountryCode,
    /// The number is shorter than all valid numbers of the region.
    TooShort,
    /// The length lies between the shortest and the longest, but is no possible length.
    InvalidLength,
    /// The number is longer than all valid numbers of the region.
    TooLong,
}

impl Validation {
    /// Whether it is a possible number.
    pub fn is_possible(&self) -> (r: bool)
        ensures
            r == (*self is IsPossible || *self is IsPossibleLocalOnly),
    {
        match *self {
            Validation::IsPossible | Validation::IsPossibleLocalOnly => true,
            _ => false,
        }
    }

    /// Whether it is an invalid number.
    pub fn is_invalid(&self) -> (r: bool)
        ensures
            r == (*self is InvalidCountryCode || *self is TooShort || *self is InvalidLength || *self is TooLong),
    {
        match *self {
            Validation::InvalidCountryCode | Validation::TooShort | Validation::InvalidLength | Validation::TooLong => true,
            _ => false,
        }
    }

    /// Whether the length is invalid.
    pub fn is_invalid_length(&self) -> (r: bool)
        ensures
            r == (*self is TooShort || *self is InvalidLength || *self is TooLong),
    {
        match *self {
            Validation::TooShort | Validation::InvalidLength | Validation::TooLong => true,
            _ => false,
        }
    }
}

/// Whether a list of lengths holds a length.
pub open spec fn holds(s: Seq<u16>, n: nat) -> bool {
    exists|i: int| 0 <= i < s.len() && s[i] == n
}

/// The length class of a national number of `len` digits, for a type.
pub open spec fn length_class(meta: Metadata, len: nat, kind: Type) -> Validation {
    match meta.descriptors.of(kind) {
        None => Validation::InvalidLength,
        Some(desc) => {
            let possible = if desc.possible_length@.len() > 0 {
                desc.possible_length@
            } else {
                meta.descriptors.general.possible_length@
            };
            let local = desc.possible_local_length@;
            if possible.len() == 0 {
                Validation::InvalidLength
            } else if holds(local, len) {
                Validation::IsPossibleLocalOnly
            } else if len == possible[0] {
                Validation::IsPossible
            } else if len < possible[0] {
                Validation::TooShort
            } else if len > possible.last() {
                Validation::TooLong
            } else if holds(possible, len) {
                Validation::IsPossible
            } else {
                Validation::InvalidLength
            }
        },
    }
}

/// Whether a national number matches a descriptor: a possible length (any,
/// where the descriptor lists none), and its pattern from the start.
pub open spec fn desc_match(d: Descriptor, v: Seq<char>) -> bool {
    &&& (d.possible_length@.len() == 0 || holds(d.possible_length@, v.len()))
    &&& start_match(d.national_number@, v) is Some
}

pub open spec fn optional_match(d: Option<Descriptor>, v: Seq<char>) -> bool {
    match d {
        Some(d) => desc_match(d, v),
        None => false,
    }
}

/// Whether the fixed-line and mobile descriptors have the same pattern.
pub open spec fn same_pattern(a: Option<Descriptor>, b: Option<Descriptor>) -> bool {
    match (a, b) {
        (Some(x), Some(y)) => x.national_number@ == y.national_number@,
        (None, None) => true,
        _ => false,
    }
}

/// The type of a national number under a region's metadata.
pub open spec fn type_of(meta: Metadata, v: Seq<char>) -> Type {
    let d = meta.descriptors;
    if !desc_match(d.general, v) {
        Type::Unknown
    } else if optional_match(d.premium_rate, v) {
        Type::PremiumRate
    } else if optional_match(d.toll_free, v) {
        Type::TollFree
    } else if optional_match(d.shared_cost, v) {
        Type::SharedCost
    } else if optional_match(d.voip, v) {
        Type::Voip
    } else if optional_match(d.personal_number, v) {
        Type::PersonalNumber
    } else if optional_match(d.pager, v) {
        Type::Pager
    } else if optional_match(d.uan, v) {
        Type::Uan
    } else if optional_match(d.voicemail, v) {
        Type::Voicemail
    } else if optional_match(d.fixed_line, v) {
        if same_pattern(d.fixed_line, d.mobile) || optional_match(d.mobile, v) {
            Type::FixedLineOrMobile
        } else {
            Type::FixedLine
        }
    } else if optional_match(d.mobile, v) {
        Type::Mobile
    } else {
        Type::Unknown
    }
}

/// Whether a record fits a national number among the regions of its code:
/// its leading-digits pattern matches from the start, or, without one, the
/// number has a type under it.
pub open spec fn fits(m: Metadata, national: Seq<char>) -> bool {
    match m.leading_digits {
        Some(ld) => start_match(ld@, national) is Some,
        None => type_of(m, national) != Type::Unknown,
    }
}

/// The index of the first record of a code that fits a national number.
pub open spec fn first_fit(s: Seq<Metadata>, code: u16, national: Seq<char>) -> Option<int>
    decreases s.len(),
{
    if s.len() == 0 {
        None
    } else {
        match first_fit(s.drop_last(), code, national) {
            Some(i) => Some(i),
            None => if s.last().country_code == code && fits(s.last(), national) {
                Some(s.len() - 1)
            } else {
                None
            },
        }
    }
}

pub proof fn lemma_first_fit(s: Seq<Metadata>, code: u16, national: Seq<char>)
    ensures
        match first_fit(s, code, national) {
            Some(k) => 0 <= k < s.len() && s[k].country_code == code && fits(s[k], national)
                && forall|j: int| 0 <= j < k ==> !((#[trigger] s[j]).country_code == code && fits(s[j], national)),
            None => forall|j: int| 0 <= j < s.len() ==> !((#[trigger] s[j]).country_code == code && fits(s[j], national)),
        },
    decreases s.len(),
{
    if s.len() > 0 {
        let t = s.drop_last();
        lemma_first_fit(t, code, national);
        assert forall|j: int| 0 <= j < s.len() - 1 implies s[j] == #[trigger] t[j] by {}
        match first_fit(t, code, national) {
            Some(k) => {
                assert forall|j: int| 0 <= j < k implies !((#[trigger] s[j]).country_code == code && fits(s[j], national)) by {
                    assert(s[j] == t[j]);
                }
            },
            None => {
                assert forall|j: int| 0 <= j < s.len() - 1 implies !((#[trigger] s[j]).country_code == code && fits(s[j], national)) by {
                    assert(s[j] == t[j]);
                }
            },
        }
    }
}

/// The record that applies to a national number with a calling code: the
/// only record of the code, or else the first that fits the number.
pub open spec fn chosen(s: Seq<Metadata>, code: u16, national: Seq<char>) -> Option<int> {
    let n = with_code(s, code).len();
    if n == 0 {
        None
    } else if n == 1 {
        first_with_code(s, code)
    } else {
        first_fit(s, code, national)
    }
}

pub proof fn lemma_chosen(s: Seq<Metadata>, code: u16, national: Seq<char>)
    ensures
        chosen(s, code, national) matches Some(i) ==> 0 <= i < s.len() && s[i].country_code == code,
{
    lemma_first_fit(s, code, national);
    crate::database::lemma_first_with_code(s, code);
}

/// Whether a number is valid: it has a type under the record that applies to it.
pub open spec fn valid(db: Database, n: PhoneNumber) -> bool {
    number_type_of(db, n) != Type::Unknown
}

/// The type of a number under the record that applies to it.
pub open spec fn number_type_of(db: Database, n: PhoneNumber) -> Type {
    match chosen(db.records(), n.code.value, n.national.text()) {
        Some(i) => type_of(db.records()[i], n.national.text()),
        None => Type::Unknown,
    }
}

fn holds_length(s: &Vec<u16>, n: usize) -> (r: bool)
    ensures
        r == holds(s@, n as nat),
{
    let mut i: usize = 0;
    while i < s.len()
        invariant
            0 <= i <= s@.len(),
            forall|k: int| 0 <= k < i ==> s@[k] != n,
        decreases s@.len() - i,
    {
        if s[i] as usize == n {
            return true;
        }
        i = i + 1;
    }
    false
}

/// The length class of a national number for a type.
pub fn length(meta: &Metadata, national: &[char], kind: Type) -> (r: Validation)
    ensures
        r == length_class(*meta, national@.len(), kind),
{
    let desc = match meta.descriptors.get(kind) {
        Some(desc) => desc,
        None => return Validation::InvalidLength,
    };
    let len = national.len();
    let possible = if desc.possible_length.len() > 0 {
        &desc.possible_length
    } else {
        &meta.descriptors.general.possible_length
    };
    if possible.len() == 0 {
        return Validation::InvalidLength;
    }
    let minimum = possible[0];
    if holds_length(&desc.possible_local_length, len) {
        Validation::IsPossibleLocalOnly
    } else if len == minimum as usize {
        Validation::IsPossible
    } else if len < minimum as usize {
        Validation::TooShort
    } else if len > possible[possible.len() - 1] as usize {
        Validation::TooLong
    } else if holds_length(possible, len) {
        Validation::IsPossible
    } else {
        Validation::InvalidLength
    }
}

impl Descriptor {
    /// Whether a national number has a possible length and matches the
    /// pattern from its start.
    pub fn is_match(&self, cache: &Cache, value: &[char]) -> (r: bool)
        requires
            compiles(self.national_number@),
        ensures
            r == desc_match(*self, value@),
    {
        if self.possible_length.len() > 0 && !holds_length(&self.possible_length, value.len()) {
            return false;
        }
        cache.match_at_start(self.national_number.as_str(), value).is_some()
    }
}

fn optional_is_match(cache: &Cache, d: &Option<Descriptor>, value: &[char]) -> (r: bool)
    requires
        match d { Some(d) => compiles(d.national_number@), None => true },
    ensures
        r == optional_match(*d, value@),
{
    match d {
        Some(d) => d.is_match(cache, value),
        None => false,
    }
}

fn same_source(a: &Option<Descriptor>, b: &Option<Descriptor>) -> (r: bool)
    ensures
        r == same_pattern(*a, *b),
{
    match (a, b) {
        (Some(x), Some(y)) => crate::database::same_text(x.national_number.as_str(), y.national_number.as_str()),
        (None, None) => true,
        _ => false,
    }
}

/// The type of a national number under a region's metadata.
pub fn number_type(cache: &Cache, meta: &Metadata, value: &[char]) -> (r: Type)
    requires
        meta.compiled(),
    ensures
        r == type_of(*meta, value@),
{
    let d = &meta.descriptors;
    if !d.general.is_match(cache, value) {
        Type::Unknown
    } else if optional_is_match(cache, &d.premium_rate, value) {
        Type::PremiumRate
    } else if optional_is_match(cache, &d.toll_free, value) {
        Type::TollFree
    } else if optional_is_match(cache, &d.shared_cost, value) {
        Type::SharedCost
    } else if optional_is_match(cache, &d.voip, value) {
        Type::Voip
    } else if optional_is_match(cache, &d.personal_number, value) {
        Type::PersonalNumber
    } else if optional_is_match(cache, &d.pager, value) {
        Type::Pager
    } else if optional_is_match(cache, &d.uan, value) {
        Type::Uan
    } else if optional_is_match(cache, &d.voicemail, value) {
        Type::Voicemail
    } else if optional_is_match(cache, &d.fixed_line, value) {
        if same_source(&d.fixed_line, &d.mobile) || optional_is_match(cache, &d.mobile, value) {
            Type::FixedLineOrMobile
        } else {
            Type::FixedLine
        }
    } else if optional_is_match(cache, &d.mobile, value) {
        Type::Mobile
    } else {
        Type::Unknown
    }
}

fn fits_number(cache: &Cache, m: &Metadata, national: &[char]) -> (r: bool)
    requires
        m.compiled(),
    ensures
        r == fits(*m, national@),
{
    match &m.leading_digits {
        Some(ld) => cache.match_at_start(ld.as_str(), national).is_some(),
        None => number_type(cache, m, national) != Type::Unknown,
    }
}

/// The record that applies to a national number with a calling code.
pub fn source_for<'a>(database: &'a Database, code: u16, national: &[char]) -> (r: Option<&'a Metadata>)
    requires
        database.wf(),
    ensures
        match r {
            Some(m) => chosen(database.records(), code, national@) matches Some(i) && database.records()[i] == *m,
            None => chosen(database.records(), code, national@) is None,
        },
{
    let regions = match database.by_code(code) {
        Some(v) => v,
        None => return None,
    };
    if regions.len() == 1 {
        return database.main_by_code(code);
    }
    let ghost s = database.records();
    let mut i: usize = 0;
    while i < database.len()
        invariant
            0 <= i <= s.len(),
            s == database.records(),
            database.wf(),
            with_code(s, code).len() >= 2,
            forall|j: int| 0 <= j < i ==> !((#[trigger] s[j]).country_code == code && fits(s[j], national@)),
        decreases s.len() - i,
    {
        let m = database.record(i);
        if m.country_code == code && fits_number(database.cache(), m, national) {
            proof {
                lemma_first_fit(s, code, national@);
                match first_fit(s, code, national@) {
                    Some(k) => {
                        if k < i {
                            assert(!(s[k].country_code == code && fits(s[k], national@)));
                        }
                        if k > i {
                            assert(s[i as int] == *m);
                        }
                    },
                    None => {},
                }
            }
            return Some(m);
        }
        i = i + 1;
    }
    proof { lemma_first_fit(s, code, national@); }
    None
}

/// Whether a number is valid: it has a type under the record that applies to it.
pub fn is_valid_with(database: &Database, number: &PhoneNumber) -> (r: bool)
    requires
        database.wf(),
    ensures
        r == valid(*database, *number),
{
    number.number_type(database) != Type::Unknown
}

/// The country of a phone number.
pub struct Country<'a> {
    pub number: &'a PhoneNumber,
}

impl<'a> Country<'a> {
    /// The country calling code.
    pub fn code(&self) -> (r: u16)
        ensures
            r == self.number.code.value,
    {
        self.number.code.value
    }

    /// The identifier of the region whose record applies to the number.
    pub fn id<'d>(&self, database: &'d Database) -> (r: Option<&'d str>)
        requires
            database.wf(),
        ensures
            match r {
                Some(id) => chosen(database.records(), self.number.code.value, self.number.national.text()) matches Some(i)
                    && database.records()[i].id@ == id@,
                None => chosen(database.records(), self.number.code.value, self.number.national.text()) is None,
            },
    {
        match self.number.metadata(database) {
            Some(m) => Some(m.id.as_str()),
            None => None,
        }
    }
}

impl PhoneNumber {
    /// The country of this number.
    pub fn country(&self) -> (r: Country<'_>)
        ensures
            *r.number == *self,
    {
        Country { number: self }
    }

    /// The record that applies to this number.
    pub fn metadata<'a>(&self, database: &'a Database) -> (r: Option<&'a Metadata>)
        requires
            database.wf(),
        ensures
            match r {
                Some(m) => chosen(database.records(), self.code.value, self.national.text()) matches Some(i)
                    && database.records()[i] == *m,
                None => chosen(database.records(), self.code.value, self.national.text()) is None,
            },
    {
        let national = self.national.digits();
        source_for(database, self.code.value, national.as_slice())
    }

    /// Whether the number is valid.
    pub fn is_valid_with(&self, database: &Database) -> (r: bool)
        requires
            database.wf(),
        ensures
            r == valid(*database, *self),
    {
        is_valid_with(database, self)
    }

    /// The type of the number.
    pub fn number_type(&self, database: &Database) -> (r: Type)
        requires
            database.wf(),
        ensures
            r == number_type_of(*database, *self),
    {
        let national = self.national.digits();
        match source_for(database, self.code.value, national.as_slice()) {
            Some(meta) => {
                proof {
                    lemma_chosen(database.records(), self.code.value, self.national.text());
                    let i = chosen(database.records(), self.code.value, self.national.text())->Some_0;
                    assert(database.records()[i].compiled());
                }
                number_type(database.cache(), meta, national.as_slice())
            },
            None => Type::Unknown,
        }
    }
}

/// The end of the run of punctuation and `*` that starts at `i`.
pub open spec fn punctuation_end(s: Seq<char>, i: int) -> int
    decreases s.len() - i,
{
    if i < 0 || i >= s.len() || !(punctuation(s[i]) || s[i] == '*') {
        i
    } else {
        punctuation_end(s, i + 1)
    }
}

/// Whether a text could be a phone number: two ASCII digits alone; or plus
/// signs, punctuation or `*`, three ASCII digits, then only digits, letters,
/// punctuation and `*`.
pub open spec fn viable(s: Seq<char>) -> bool {
    ||| (s.len() == 2 && ascii_digit(s[0]) && ascii_digit(s[1]))
    ||| {
        let b = punctuation_end(s, plus_end(s, 0));
        &&& 0 <= b
        &&& b + 3 <= s.len()
        &&& ascii_digit(s[b]) && ascii_digit(s[b + 1]) && ascii_digit(s[b + 2])
        &&& forall|i: int| b + 3 <= i < s.len() ==> {
            let c = #[trigger] s[i];
            punctuation(c) || c == '*' || ascii_digit(c) || ascii_letter(c)
        }
    }
}

pub proof fn lemma_punctuation_end_bounds(s: Seq<char>, i: int)
    requires
        0 <= i <= s.len(),
    ensures
        i <= punctuation_end(s, i) <= s.len(),
    decreases s.len() - i,
{
    if i < s.len() && (punctuation(s[i]) || s[i] == '*') {
        lemma_punctuation_end_bounds(s, i + 1);
    }
}

pub proof fn lemma_plus_end_bounds(s: Seq<char>, i: int)
    requires
        0 <= i <= s.len(),
    ensures
        i <= plus_end(s, i) <= s.len(),
    decreases s.len() - i,
{
    if i < s.len() && crate::chars::plus_sign(s[i]) {
        lemma_plus_end_bounds(s, i + 1);
    }
}

/// Whether a text could be a phone number.
pub fn is_viable(string: &str) -> (r: bool)
    ensures
        r == viable(string@),
{
    let s = chars_of(string);
    if s.len() == 2 && is_ascii_digit(s[0]) && is_ascii_digit(s[1]) {
        return true;
    }
    proof {
        lemma_plus_end_bounds(s@, 0);
        lemma_punctuation_end_bounds(s@, plus_end(s@, 0));
    }
    let mut a: usize = 0;
    while a < s.len() && is_plus(s[a])
        invariant
            0 <= a <= s@.len(),
            plus_end(s@, a as int) == plus_end(s@, 0),
            s@ == string@,
        decreases s@.len() - a,
    {
        a = a + 1;
    }
    let mut b = a;
    while b < s.len() && (is_punctuation(s[b]) || s[b] == '*')
        invariant
            a <= b <= s@.len(),
            punctuation_end(s@, b as int) == punctuation_end(s@, plus_end(s@, 0)),
            a == plus_end(s@, 0),
            s@ == string@,
        decreases s@.len() - b,
    {
        b = b + 1;
    }
    if s.len() - b < 3 || !(is_ascii_digit(s[b]) && is_ascii_digit(s[b + 1]) && is_ascii_digit(s[b + 2])) {
        return false;
    }
    let mut i = b + 3;
    while i < s.len()
        invariant
            b + 3 <= i <= s@.len(),
            b == punctuation_end(s@, plus_end(s@, 0)),
            s@ == string@,
            forall|k: int| b + 3 <= k < i ==> {
                let c = #[trigger] s@[k];
                punctuation(c) || c == '*' || ascii_digit(c) || ascii_letter(c)
            },
        decreases s@.len() - i,
    {
        let c = s[i];
        if !(is_punctuation(c) || c == '*' || is_ascii_digit(c) || is_ascii_letter(c)) {
            return false;
        }
        i = i + 1;
    }
    true
}

} // verus!
