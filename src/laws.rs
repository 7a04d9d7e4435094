//! Properties that hold across the parser, the validator and the database.

use vstd::prelude::*;
use crate::chars::plus_sign;
use crate::country::{Id, Source};
use crate::database::{with_code, Database, EXTENSION};
use crate::decimal::{all_ascii_digits, decimal, leading_zeros, lemma_decimal_length, lemma_value_lower, lemma_value_upper, lemma_value_without_zeros, value_of};
use crate::metadata::Metadata;
use crate::natural::{extracted, lemma_first_second_bounds, natural, start_of, trimmed_end};
use crate::parser::{idd_end, normalized, after_prefix, parsed, recognized, region_index, resolved, stripped, with_idd, plus_end, Raw};
use crate::phone_number::{PhoneNumber, Type};
use crate::regex::captures_of;
use crate::rfc3966::{rfc3966, lemma_span_bounds, Class};
use crate::text::starts_with;
use crate::validator::{number_type_of, valid};

verus! {

/// A number is valid exactly when its type is not `Unknown`.
pub proof fn law_valid_iff_typed(db: Database, n: PhoneNumber)
    ensures
        valid(db, n) <==> number_type_of(db, n) != Type::Unknown,
{
}

/// A code that a record carries has records in the `by_code` index.
pub proof fn lemma_record_code(s: Seq<Metadata>, i: int)
    requires
        0 <= i < s.len(),
    ensures
        with_code(s, s[i].country_code).len() > 0,
    decreases s.len(),
{
    if i < s.len() - 1 {
        lemma_record_code(s.drop_last(), i);
        assert(s.drop_last()[i] == s[i]);
    }
}

/// The country code of every parsed number is a key of the `by_code` index.
pub proof fn law_code_is_known(db: Database, region: Option<Id>, s: Seq<char>)
    requires
        parsed(db, region, s) is Ok,
    ensures
        with_code(db.records(), parsed(db, region, s)->Ok_0.code.value).len() > 0,
{
    let r = recognized(s)->Some_0;
    let (n, code) = resolved(db, region, r)->Ok_0;
    match region_index(db, region) {
        Some(i) => {
            crate::database::lemma_first_with_id(db.records(), region->Some_0.text());
            lemma_record_code(db.records(), i);
        },
        None => {},
    }
}

/// Stripping the national prefix keeps the source of the country code.
pub proof fn lemma_stripped_source(meta: Metadata, n: Raw)
    ensures
        stripped(meta, n).source == n.source,
{
}

/// Where the natural reading of a text puts the text's first character at
/// the head of its national part (the start and extension patterns, which
/// Verus does not see into, leave it there).
pub open spec fn natural_keeps_first(s: Seq<char>) -> bool {
    natural(s) matches Some(r) ==> r.national.len() > 0 && r.national[0] == s[0]
}

/// A number written with a leading plus sign has its country code from the plus.
pub proof fn law_plus_source(db: Database, region: Option<Id>, s: Seq<char>)
    requires
        s.len() > 0,
        plus_sign(s[0]),
        natural_keeps_first(s),
        parsed(db, region, s) is Ok,
    ensures
        parsed(db, region, s)->Ok_0.code.source == Source::Plus,
{
    let r = recognized(s)->Some_0;
    match rfc3966(s) {
        Some(x) => {
            assert(!crate::rfc3966::has_scheme(s));
            lemma_span_bounds(s, 0, Class::Number);
            assert(x.prefix is Some);
        },
        None => {
            assert(r.national.len() > 0 && plus_sign(r.national[0]));
            crate::validator::lemma_plus_end_bounds(r.national, 1);
            assert(plus_end(r.national, 0) > 0);
        },
    }
    match region {
        Some(id) => { crate::database::lemma_first_with_id(db.records(), id.text()); },
        None => {},
    }
    let idd = match region_index(db, region) {
        Some(i) => match db.records()[i].international_prefix { Some(p) => Some(p@), None => None },
        None => None,
    };
    assert(with_idd(idd, r).0.source == Source::Plus);
    let (n, code) = resolved(db, region, r)->Ok_0;
    assert(n.source == Source::Plus);
    match region_index(db, region) {
        Some(i) => { lemma_stripped_source(db.records()[i], n); },
        None => {},
    }
    assert(after_prefix(db, region, n).source == Source::Plus);
}

/// The candidate number is a run of the text.
proof fn lemma_extracted_run(s: Seq<char>)
    requires
        extracted(s) is Some,
    ensures
        start_of(s) is Some,
        0 <= start_of(s)->Some_0,
        start_of(s)->Some_0 + extracted(s)->Some_0.len() <= s.len(),
        extracted(s)->Some_0 == s.subrange(start_of(s)->Some_0, start_of(s)->Some_0 + extracted(s)->Some_0.len()),
{
    let start = start_of(s)->Some_0;
    let t = s.subrange(start, s.len() as int);
    let r1 = trimmed_end(t);
    assert(r1.len() <= t.len() && r1 == t.subrange(0, r1.len() as int)) by {
        if r1 != t {
            assert(starts_with(t, r1));
        } else {
            assert(t.subrange(0, t.len() as int) =~= t);
        }
    }
    lemma_first_second_bounds(r1, 0);
    let e = extracted(s)->Some_0;
    assert(e =~= s.subrange(start, start + e.len()));
}

/// A text without plus signs, read with no explicit country code, has a
/// national part that begins with no plus sign.
proof fn lemma_no_plus_head(s: Seq<char>)
    requires
        forall|i: int| 0 <= i < s.len() ==> !plus_sign(#[trigger] s[i]),
        rfc3966(s) matches Some(x) ==> x.prefix is None,
        recognized(s) is Some,
    ensures
        recognized(s)->Some_0.prefix is None,
        plus_end(recognized(s)->Some_0.national, 0) == 0,
{
    let r = recognized(s)->Some_0;
    assert(r.prefix is None);
    assert(r.national.len() == 0 || !plus_sign(r.national[0])) by {
        match rfc3966(s) {
            Some(x) => {
                let i0: int = if crate::rfc3966::has_scheme(s) { 4 } else { 0 };
                if i0 < s.len() {
                    assert(!plus_sign(s[i0]));
                }
                lemma_span_bounds(s, i0, Class::Number);
                if r.national.len() > 0 {
                    assert(r.national[0] == s[i0]);
                }
            },
            None => {
                lemma_extracted_run(s);
                let e = extracted(s)->Some_0;
                let start = start_of(s)->Some_0;
                if r.national.len() > 0 {
                    match captures_of(EXTENSION@, e) {
                        Some((pre, groups)) => {
                            assert(starts_with(e, pre));
                            assert(e.subrange(0, pre.len() as int)[0] == e[0]);
                        },
                        None => {},
                    }
                    assert(e.len() > 0);
                    assert(r.national[0] == e[0]);
                    assert(e[0] == s.subrange(start, start + e.len())[0]);
                    assert(!plus_sign(s[start]));
                }
            },
        }
    }
    assert(plus_end(r.national, 0) == 0);
}

/// A number written without plus signs, with a default region and no
/// explicit country code, has the code of that region, read from the
/// default region or from the leading digits; or else it was dialled with
/// the region's international dialing prefix.
pub proof fn law_default_region_code(db: Database, id: Id, s: Seq<char>)
    requires
        db.index_of_id(id.text()) is Some,
        forall|i: int| 0 <= i < s.len() ==> !plus_sign(#[trigger] s[i]),
        rfc3966(s) matches Some(x) ==> x.prefix is None,
        parsed(db, Some(id), s) is Ok,
    ensures
        ({
            let n = parsed(db, Some(id), s)->Ok_0;
            let code = db.records()[db.index_of_id(id.text())->Some_0].country_code;
            ||| n.code.source == Source::Idd
            ||| ((n.code.source == Source::Default || n.code.source == Source::Number) && n.code.value == code)
        }),
{
    let region = Some(id);
    crate::database::lemma_first_with_id(db.records(), id.text());
    lemma_no_plus_head(s);
    let r = recognized(s)->Some_0;
    let (n, code) = resolved(db, region, r)->Ok_0;
    let i = region_index(db, region)->Some_0;
    lemma_stripped_source(db.records()[i], n);
    assert(after_prefix(db, region, n).source == n.source);
}

/// The national number of every parsed number has from 2 to 17 digits,
/// counting its leading zeros. (A value of zero is written with one digit
/// of its own, so a national number of seventeen zeros counts eighteen.)
pub proof fn law_national_length(db: Database, region: Option<Id>, s: Seq<char>)
    requires
        parsed(db, region, s) is Ok,
    ensures
        ({
            let n = parsed(db, region, s)->Ok_0;
            n.national.value > 0 || n.national.zeros <= 16 ==> 2 <= decimal(n.national.value as nat).len() + n.national.zeros <= 17
        }),
{
    let r = recognized(s)->Some_0;
    let (m, code) = resolved(db, region, r)->Ok_0;
    let t = after_prefix(db, region, m).national;
    let n = parsed(db, region, s)->Ok_0;
    assert(2 <= t.len() <= 17);
    assert(all_ascii_digits(t));
    assert(n.national.value as nat == value_of(t));
    lemma_value_without_zeros(t);
    let z = leading_zeros(t);
    assert(n.national.zeros as nat == z);
    let rest = t.subrange(z as int, t.len() as int);
    if n.national.value > 0 {
        if rest.len() == 0 {
            assert(value_of(rest) == 0);
        }
        assert(rest.len() > 0);
        assert(rest[0] == t[z as int]);
        assert(all_ascii_digits(rest)) by {
            assert forall|i: int| 0 <= i < rest.len() implies crate::chars::ascii_digit(#[trigger] rest[i]) by {
                assert(rest[i] == t[z + i]);
            }
        }
        lemma_value_lower(rest);
        lemma_value_upper(rest);
        lemma_decimal_length(value_of(rest), rest.len());
    } else {
        if rest.len() > 0 {
            assert(rest[0] == t[z as int]);
            assert(all_ascii_digits(rest)) by {
                assert forall|i: int| 0 <= i < rest.len() implies crate::chars::ascii_digit(#[trigger] rest[i]) by {
                    assert(rest[i] == t[z + i]);
                }
            }
            lemma_value_lower(rest);
            crate::decimal::lemma_pow10_positive((rest.len() - 1) as nat);
        }
        assert(z == t.len());
        assert(decimal(0).len() == 1);
    }
}

/// A number written without plus signs, with a default region and no
/// explicit country code, whose digits do not begin with the region's
/// international dialing prefix, has the code of that region, read from
/// the default region or from its leading digits.
pub proof fn law_default_region_code_without_idd(db: Database, id: Id, s: Seq<char>)
    requires
        db.index_of_id(id.text()) is Some,
        forall|i: int| 0 <= i < s.len() ==> !plus_sign(#[trigger] s[i]),
        rfc3966(s) matches Some(x) ==> x.prefix is None,
        recognized(s) matches Some(r) ==> idd_end(
            match db.records()[db.index_of_id(id.text())->Some_0].international_prefix {
                Some(p) => Some(p@),
                None => None,
            },
            normalized(r.national),
        ) is None,
        parsed(db, Some(id), s) is Ok,
    ensures
        ({
            let n = parsed(db, Some(id), s)->Ok_0;
            let code = db.records()[db.index_of_id(id.text())->Some_0].country_code;
            &&& n.code.source == Source::Default || n.code.source == Source::Number
            &&& n.code.value == code
        }),
{
    law_default_region_code(db, id, s);
    let region = Some(id);
    crate::database::lemma_first_with_id(db.records(), id.text());
    let r = recognized(s)->Some_0;
    lemma_no_plus_head(s);
    assert(r.national.subrange(0, r.national.len() as int) =~= r.national);
    let (n, code) = resolved(db, region, r)->Ok_0;
    let i = region_index(db, region)->Some_0;
    lemma_stripped_source(db.records()[i], n);
}

} // verus!
