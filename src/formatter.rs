//! Formatting a phone number in E.164, international, national or RFC 3966 form.

use vstd::prelude::*;
use crate::chars::{ascii_digit, chars_of, is_ascii_digit, text_of};
use crate::database::Database;
use crate::decimal::{decimal, decimal_chars};
use crate::metadata::{Format, Metadata};
use crate::phone_number::PhoneNumber;
use crate::regex::{compiles, replace, replace_of, start_match, Cache};
use crate::text::{collapse, collapse_punctuation, concat, head, replace_all, replace_text, tail};

verus! {

/// The form of the output.
#[derive(Copy, Clone, Eq, PartialEq, Structural, Debug)]
pub enum Mode {
    /// `+` and the digits, with no spacing.
    E164,
    /// The country code and the number grouped by the rules of its region.
    International,
    /// The number grouped by the rules of its region, without country code.
    National,
    /// A `tel:` URI.
    Rfc3966,
}

/// Whether a format applies to a national number: its last leading-digits
/// pattern (if any) matches from the start, and its pattern matches all of it.
pub open spec fn eligible(f: Format, national: Seq<char>) -> bool {
    &&& (f.leading_digits@.len() == 0 || start_match(f.leading_digits@.last()@, national) is Some)
    &&& start_match(f.pattern@, national) == Some(national.len())
}

/// The index of the first format that applies to a national number.
pub open spec fn pick(formats: Seq<Format>, national: Seq<char>) -> Option<int>
    decreases formats.len(),
{
    if formats.len() == 0 {
        None
    } else {
        match pick(formats.drop_last(), national) {
            Some(i) => Some(i),
            None => if eligible(formats.last(), national) { Some(formats.len() - 1) } else { None },
        }
    }
}

pub proof fn lemma_pick(formats: Seq<Format>, national: Seq<char>)
    ensures
        match pick(formats, national) {
            Some(k) => 0 <= k < formats.len() && eligible(formats[k], national)
                && forall|j: int| 0 <= j < k ==> !eligible(#[trigger] formats[j], national),
            None => forall|j: int| 0 <= j < formats.len() ==> !eligible(#[trigger] formats[j], national),
        },
    decreases formats.len(),
{
    if formats.len() > 0 {
        let t = formats.drop_last();
        lemma_pick(t, national);
        assert forall|j: int| 0 <= j < formats.len() - 1 implies formats[j] == #[trigger] t[j] by {}
        match pick(t, national) {
            Some(k) => {
                assert forall|j: int| 0 <= j < k implies !eligible(#[trigger] formats[j], national) by {
                    assert(formats[j] == t[j]);
                }
            },
            None => {
                assert forall|j: int| 0 <= j < formats.len() - 1 implies !eligible(#[trigger] formats[j], national) by {
                    assert(formats[j] == t[j]);
                }
            },
        }
    }
}

/// The position of the first group reference (`$` and an ASCII digit).
pub open spec fn first_reference(s: Seq<char>) -> Option<int>
    decreases s.len(),
{
    if s.len() < 2 {
        None
    } else {
        match first_reference(s.drop_last()) {
            Some(i) => Some(i),
            None => if s[s.len() - 2] == '$' && ascii_digit(s.last()) { Some(s.len() - 2) } else { None },
        }
    }
}

/// The template that a rule gives for a national number: the format itself,
/// or, with a rule for the prefix or carrier, the format whose first group
/// reference is replaced by that rule, in which `$NP` stands for the national
/// prefix, `$FG` for the first group reference and `$CC` for the carrier code.
pub open spec fn template(meta: Metadata, f: Format, rule: Option<Seq<char>>, carrier: Seq<char>) -> Seq<char> {
    match rule {
        None => f.format@,
        Some(t) => match first_reference(f.format@) {
            None => f.format@,
            Some(i) => {
                let fg = f.format@.subrange(i, i + 2);
                let np = match meta.national_prefix { Some(p) => p@, None => seq![] };
                let t1 = replace_all(t, "$NP"@, np);
                let t2 = replace_all(t1, "$FG"@, fg);
                let t3 = replace_all(t2, "$CC"@, carrier);
                f.format@.subrange(0, i) + t3 + f.format@.subrange(i + 2, f.format@.len() as int)
            },
        },
    }
}

/// The national number rewritten by a format's pattern and template.
pub open spec fn rewrite(meta: Metadata, f: Format, rule: Option<Seq<char>>, carrier: Seq<char>, national: Seq<char>) -> Seq<char> {
    replace_of(f.pattern@, national, template(meta, f, rule, carrier))
}

/// The national form of a number under a format: with the domestic carrier
/// rule when the number has a carrier code, else with the national prefix rule.
pub open spec fn national_form(meta: Metadata, f: Format, carrier: Option<Seq<char>>, national: Seq<char>) -> Seq<char> {
    match (carrier, f.domestic_carrier) {
        (Some(c), Some(t)) => rewrite(meta, f, Some(t@), c, national),
        _ => match f.national_prefix {
            Some(t) => rewrite(meta, f, Some(t@), seq![], national),
            None => rewrite(meta, f, None, seq![], national),
        },
    }
}

/// The text of a number in a mode, with an optional format to use; `None`
/// when no record has its calling code.
pub open spec fn formatted(db: Database, n: PhoneNumber, mode: Mode, given: Option<Format>) -> Option<Seq<char>> {
    match db.index_of_code(n.code.value) {
        None => None,
        Some(i) => {
            let meta = db.records()[i];
            let national = n.national.text();
            let formats = if meta.international_formats@.len() == 0 || mode == Mode::National {
                meta.formats@
            } else {
                meta.international_formats@
            };
            let rule = match given {
                Some(f) => Some(f),
                None => match pick(formats, national) {
                    Some(k) => Some(formats[k]),
                    None => None,
                },
            };
            let code = decimal(n.code.value as nat);
            let ext_prefix = match meta.preferred_extension_prefix { Some(p) => p@, None => " ext. "@ };
            let ext = match n@.extension { Some(e) => ext_prefix + e, None => seq![] };
            let international = match rule {
                Some(f) => rewrite(meta, f, None, seq![], national),
                None => national,
            };
            let domestic = match rule {
                Some(f) => national_form(meta, f, n@.carrier, national),
                None => national,
            };
            let uri = match rule {
                Some(f) => collapse(rewrite(meta, f, None, seq![], national)),
                None => national,
            };
            let uri_ext = match n@.extension {
                Some(e) => ";ext="@ + e,
                None => seq![],
            };
            Some(match mode {
                Mode::E164 => seq!['+'] + code + national,
                Mode::International => seq!['+'] + code + seq![' '] + international + ext,
                Mode::National => domestic + ext,
                Mode::Rfc3966 => "tel:+"@ + code + seq!['-'] + uri + uri_ext,
            })
        },
    }
}

/// The first format that applies to a national number.
fn pick_format<'a>(cache: &Cache, formats: &'a Vec<Format>, national: &[char]) -> (r: Option<&'a Format>)
    requires
        forall|i: int| 0 <= i < formats@.len() ==> (#[trigger] formats@[i]).compiled(),
    ensures
        match r {
            Some(f) => pick(formats@, national@) matches Some(k) && formats@[k] == *f,
            None => pick(formats@, national@) is None,
        },
{
    let mut i: usize = 0;
    while i < formats.len()
        invariant
            0 <= i <= formats@.len(),
            forall|k: int| 0 <= k < formats@.len() ==> (#[trigger] formats@[k]).compiled(),
            forall|j: int| 0 <= j < i ==> !eligible(#[trigger] formats@[j], national@),
        decreases formats@.len() - i,
    {
        let f = &formats[i];
        assert(f.compiled());
        let leading_ok = if f.leading_digits.len() == 0 {
            true
        } else {
            let last = f.leading_digits.len() - 1;
            assert(compiles(f.leading_digits@[last as int]@));
            cache.match_at_start(f.leading_digits[last].as_str(), national).is_some()
        };
        if leading_ok {
            match cache.match_at_start(f.pattern.as_str(), national) {
                Some(n) => {
                    if n == national.len() {
                        proof {
                            lemma_pick(formats@, national@);
                            match pick(formats@, national@) {
                                Some(k) => {
                                    if k < i {
                                        assert(!eligible(formats@[k], national@));
                                    }
                                    if k > i {
                                        assert(eligible(formats@[i as int], national@));
                                    }
                                },
                                None => {
                                    assert(eligible(formats@[i as int], national@));
                                },
                            }
                        }
                        return Some(f);
                    }
                },
                None => {},
            }
        }
        i = i + 1;
    }
    proof { lemma_pick(formats@, national@); }
    None
}

/// The position of the first group reference.
fn find_reference(s: &[char]) -> (r: Option<usize>)
    ensures
        match r {
            Some(i) => first_reference(s@) == Some(i as int),
            None => first_reference(s@) is None,
        },
{
    if s.len() < 2 {
        return None;
    }
    let mut i: usize = 0;
    while i < s.len() && i + 1 < s.len()
        invariant
            0 <= i,
            i + 1 <= s@.len(),
            s@.len() >= 2,
            first_reference(s@.subrange(0, (i + 1) as int)) is None,
        decreases s@.len() - i,
    {
        let ghost pre = s@.subrange(0, (i + 2) as int);
        assert(pre.drop_last() =~= s@.subrange(0, (i + 1) as int));
        assert(pre[pre.len() - 2] == s@[i as int]);
        assert(pre.last() == s@[i + 1]);
        if s[i] == '$' && is_ascii_digit(s[i + 1]) {
            proof { lemma_reference_prefix(s@, i as int + 2); }
            return Some(i);
        }
        i = i + 1;
    }
    assert(s@.subrange(0, s@.len() as int) =~= s@);
    None
}

pub proof fn lemma_first_reference(s: Seq<char>)
    ensures
        first_reference(s) matches Some(i) ==> 0 <= i && i + 2 <= s.len() && s[i] == '$' && ascii_digit(s[i + 1]),
    decreases s.len(),
{
    if s.len() >= 2 {
        lemma_first_reference(s.drop_last());
    }
}

/// A reference found in a prefix is the first reference of the whole.
proof fn lemma_reference_prefix(s: Seq<char>, n: int)
    requires
        2 <= n <= s.len(),
        first_reference(s.subrange(0, n)) is Some,
    ensures
        first_reference(s) == first_reference(s.subrange(0, n)),
    decreases s.len() - n,
{
    if n < s.len() {
        assert(s.subrange(0, n + 1).drop_last() =~= s.subrange(0, n));
        lemma_reference_prefix(s, n + 1);
    } else {
        assert(s.subrange(0, n) =~= s);
    }
}

fn template_of(meta: &Metadata, f: &Format, rule: Option<&str>, carrier: &[char]) -> (r: Vec<char>)
    ensures
        r@ == template(*meta, *f, match rule { Some(t) => Some(t@), None => None }, carrier@),
{
    let format = chars_of(f.format.as_str());
    match rule {
        None => format,
        Some(t) => match find_reference(format.as_slice()) {
            None => format,
            Some(i) => {
                proof { lemma_first_reference(format@); }
                let fg = head(tail(format.as_slice(), i).as_slice(), 2);
                assert(fg@ =~= format@.subrange(i as int, i + 2));
                let np = match &meta.national_prefix {
                    Some(p) => chars_of(p.as_str()),
                    None => Vec::new(),
                };
                proof {
                    reveal_strlit("$NP");
                    reveal_strlit("$FG");
                    reveal_strlit("$CC");
                }
                let t0 = chars_of(t);
                let t1 = replace_text(t0.as_slice(), chars_of("$NP").as_slice(), np.as_slice());
                let t2 = replace_text(t1.as_slice(), chars_of("$FG").as_slice(), fg.as_slice());
                let t3 = replace_text(t2.as_slice(), chars_of("$CC").as_slice(), carrier);
                let before = head(format.as_slice(), i);
                let flen = format.len();
                assert(i + 2 <= flen);
                let after = tail(format.as_slice(), i + 2);
                let mid = concat(before.as_slice(), t3.as_slice());
                concat(mid.as_slice(), after.as_slice())
            },
        },
    }
}

fn rewrite_with(cache: &Cache, meta: &Metadata, f: &Format, rule: Option<&str>, carrier: &[char], national: &[char]) -> (r: Vec<char>)
    requires
        compiles(f.pattern@),
    ensures
        r@ == rewrite(*meta, *f, match rule { Some(t) => Some(t@), None => None }, carrier@, national@),
{
    let t = template_of(meta, f, rule, carrier);
    let template_text = text_of(t.as_slice());
    let national_text = text_of(national);
    let out = replace(cache, f.pattern.as_str(), national_text.as_str(), template_text.as_str());
    chars_of(out.as_str())
}

fn national_grouped(cache: &Cache, meta: &Metadata, f: &Format, n: &PhoneNumber, national: &[char]) -> (r: Vec<char>)
    requires
        compiles(f.pattern@),
    ensures
        r@ == national_form(*meta, *f, n@.carrier, national@),
{
    if let Some(c) = &n.carrier {
        if let Some(t) = &f.domestic_carrier {
            let cc = chars_of(c.0.as_str());
            return rewrite_with(cache, meta, f, Some(t.as_str()), cc.as_slice(), national);
        }
    }
    let r = match &f.national_prefix {
        Some(t) => rewrite_with(cache, meta, f, Some(t.as_str()), Vec::<char>::new().as_slice(), national),
        None => rewrite_with(cache, meta, f, None, Vec::<char>::new().as_slice(), national),
    };
    assert(Seq::<char>::empty() =~= seq![]);
    r
}

/// A number prepared for formatting: the database, the mode, and an
/// optional format to use in place of the region's own.
pub struct Formatter<'n, 'd, 'f> {
    pub number: &'n PhoneNumber,
    pub database: &'d Database,
    pub mode: Mode,
    pub format: Option<&'f Format>,
}

/// Prepares a number for formatting with a database, in E.164 mode.
pub fn format_with<'d, 'n>(database: &'d Database, number: &'n PhoneNumber) -> (r: Formatter<'n, 'd, 'static>)
    ensures
        *r.number == *number,
        *r.database == *database,
        r.mode == Mode::E164,
        r.format is None,
{
    Formatter { number, database, mode: Mode::E164, format: None }
}

impl PhoneNumber {
    /// Prepares this number for formatting with a database, in E.164 mode.
    pub fn format_with<'n, 'd>(&'n self, database: &'d Database) -> (r: Formatter<'n, 'd, 'static>)
        ensures
            *r.number == *self,
            *r.database == *database,
            r.mode == Mode::E164,
            r.format is None,
    {
        format_with(database, self)
    }
}

impl<'n, 'd, 'f> Formatter<'n, 'd, 'f> {
    /// The same formatter with another database.
    pub fn database<'a>(self, database: &'a Database) -> (r: Formatter<'n, 'a, 'f>)
        ensures
            *r.number == *self.number,
            *r.database == *database,
            r.mode == self.mode,
            r.format == self.format,
    {
        Formatter { number: self.number, database, mode: self.mode, format: self.format }
    }

    /// The same formatter in another mode.
    pub fn mode(self, mode: Mode) -> (r: Formatter<'n, 'd, 'f>)
        ensures
            *r.number == *self.number,
            *r.database == *self.database,
            r.mode == mode,
            r.format == self.format,
    {
        Formatter { number: self.number, database: self.database, mode, format: self.format }
    }

    /// The same formatter with a format of its own.
    pub fn with<'a>(self, format: &'a Format) -> (r: Formatter<'n, 'd, 'a>)
        ensures
            *r.number == *self.number,
            *r.database == *self.database,
            r.mode == self.mode,
            r.format matches Some(f) && *f == *format,
    {
        Formatter { number: self.number, database: self.database, mode: self.mode, format: Some(format) }
    }

    /// The formatted number; `None` when no region has its calling code.
    pub fn to_string(&self) -> (r: Option<String>)
        requires
            self.database.wf(),
            self.format matches Some(f) ==> f.compiled(),
        ensures
            match r {
                Some(s) => formatted(*self.database, *self.number, self.mode,
                    match self.format { Some(f) => Some(*f), None => None }) == Some(s@),
                None => formatted(*self.database, *self.number, self.mode,
                    match self.format { Some(f) => Some(*f), None => None }) is None,
            },
    {
        match render(self.database, self.number, self.mode, self.format) {
            Some(v) => Some(text_of(v.as_slice())),
            None => None,
        }
    }
}

fn render(db: &Database, n: &PhoneNumber, mode: Mode, given: Option<&Format>) -> (r: Option<Vec<char>>)
    requires
        db.wf(),
        given matches Some(f) ==> f.compiled(),
    ensures
        match r {
            Some(v) => formatted(*db, *n, mode, match given { Some(f) => Some(*f), None => None }) == Some(v@),
            None => formatted(*db, *n, mode, match given { Some(f) => Some(*f), None => None }) is None,
        },
{
    let meta = match db.main_by_code(n.code.value) {
        Some(m) => m,
        None => return None,
    };
    proof {
        crate::database::lemma_first_with_code(db.records(), n.code.value);
        let i = db.index_of_code(n.code.value)->Some_0;
        assert(db.records()[i].compiled());
    }
    let cache = db.cache();
    let national = n.national.digits();
    let formats = if meta.international_formats.len() == 0 || mode == Mode::National {
        &meta.formats
    } else {
        &meta.international_formats
    };
    let rule = match given {
        Some(f) => Some(f),
        None => pick_format(cache, formats, national.as_slice()),
    };
    proof {
        crate::formatter::lemma_pick(formats@, national@);
    }
    let ghost spec_rule: Option<Format> = match given {
        Some(f) => Some(*f),
        None => match pick(formats@, national@) {
            Some(k) => Some(formats@[k]),
            None => None,
        },
    };
    assert(match rule { Some(f) => spec_rule == Some(*f), None => spec_rule is None });
    proof {
        crate::formatter::lemma_pick(formats@, national@);
    }
    let code = decimal_chars(n.code.value as u64);
    proof { reveal_strlit(" ext. "); reveal_strlit("tel:+"); reveal_strlit(";ext="); }
    let ext: Vec<char> = match &n.extension {
        Some(e) => {
            let p = match &meta.preferred_extension_prefix {
                Some(p) => chars_of(p.as_str()),
                None => chars_of(" ext. "),
            };
            concat(p.as_slice(), chars_of(e.0.as_str()).as_slice())
        },
        None => Vec::new(),
    };
    let ghost meta_v = *meta;
    let ghost nat_v = national@;
    let ghost ext_prefix_v = match meta_v.preferred_extension_prefix { Some(p) => p@, None => " ext. "@ };
    let ghost ext_v = match n@.extension {
        Some(e) => ext_prefix_v + e,
        None => seq![],
    };
    assert(ext@ == ext_v);
    let ghost international = match spec_rule {
        Some(f) => rewrite(meta_v, f, None, seq![], nat_v),
        None => nat_v,
    };
    let ghost domestic = match spec_rule {
        Some(f) => national_form(meta_v, f, n@.carrier, nat_v),
        None => nat_v,
    };
    let ghost uri = match spec_rule {
        Some(f) => collapse(rewrite(meta_v, f, None, seq![], nat_v)),
        None => nat_v,
    };
    let ghost uri_ext = match n@.extension {
        Some(e) => ";ext="@ + e,
        None => seq![],
    };
    let body: Vec<char> = match mode {
        Mode::E164 => {
            let mut v: Vec<char> = Vec::new();
            v.push('+');
            let v = concat(v.as_slice(), code.as_slice());
            concat(v.as_slice(), national.as_slice())
        },
        Mode::International => {
            let mut v: Vec<char> = Vec::new();
            v.push('+');
            let mut v = concat(v.as_slice(), code.as_slice());
            v.push(' ');
            let grouped = match rule {
                Some(f) => rewrite_with(cache, meta, f, None, Vec::<char>::new().as_slice(), national.as_slice()),
                None => tail(national.as_slice(), 0),
            };
            assert(grouped@ == international);
            let v = concat(v.as_slice(), grouped.as_slice());
            concat(v.as_slice(), ext.as_slice())
        },
        Mode::National => {
            let grouped = match rule {
                Some(f) => national_grouped(cache, meta, f, n, national.as_slice()),
                None => tail(national.as_slice(), 0),
            };
            assert(grouped@ == domestic);
            concat(grouped.as_slice(), ext.as_slice())
        },
        Mode::Rfc3966 => {
            let v = chars_of("tel:+");
            let mut v = concat(v.as_slice(), code.as_slice());
            v.push('-');
            let grouped = match rule {
                Some(f) => {
                    let g = rewrite_with(cache, meta, f, None, Vec::<char>::new().as_slice(), national.as_slice());
                    collapse_punctuation(g.as_slice())
                },
                None => tail(national.as_slice(), 0),
            };
            assert(grouped@ == uri);
            let v = concat(v.as_slice(), grouped.as_slice());
            match &n.extension {
                Some(e) => {
                    let x = concat(chars_of(";ext=").as_slice(), chars_of(e.0.as_str()).as_slice());
                    concat(v.as_slice(), x.as_slice())
                },
                None => v,
            }
        },
    };
    proof {
        let i = db.index_of_code(n.code.value)->Some_0;
        assert(db.records()[i] == *meta);
    }
    Some(body)
}

} // verus!
