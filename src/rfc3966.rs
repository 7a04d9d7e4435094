//! The RFC 3966 sub-parser: `[tel:][+code]national[;key=value]*`.

use vstd::prelude::*;
use crate::chars::{ascii_digit, ascii_letter, is_ascii_digit, is_ascii_letter};
use crate::text::{head, tail};

verus! {

/// The classes of characters that the grammar scans over.
#[derive(Copy, Clone, Eq, PartialEq, Structural)]
pub enum Class {
    /// Hex digits and separators: the national part.
    Number,
    /// Anything but a separator: the country code after `+`.
    NotSeparator,
    /// Letters, digits and `-`: a parameter name.
    Name,
    /// The characters of a parameter value (`%` for percent-encoding).
    Value,
    /// Spaces.
    Space,
}

pub open spec fn separator(c: char) -> bool {
    c == '-' || c == '.' || c == '(' || c == ')'
}

pub open spec fn hex_digit(c: char) -> bool {
    ascii_digit(c) || ('a' <= c <= 'f') || ('A' <= c <= 'F')
}

pub open spec fn mark(c: char) -> bool {
    c == '-' || c == '_' || c == '.' || c == '!' || c == '~' || c == '*' || c == '\'' || c == '(' || c == ')'
}

pub open spec fn in_class(c: char, k: Class) -> bool {
    match k {
        Class::Number => hex_digit(c) || separator(c),
        Class::NotSeparator => !separator(c),
        Class::Name => ascii_letter(c) || ascii_digit(c) || c == '-',
        Class::Value => {
            ||| c == '[' || c == ']' || c == '/' || c == ':' || c == '&' || c == '+' || c == '$' || c == '%'
            ||| ascii_letter(c) || ascii_digit(c) || mark(c)
        },
        Class::Space => c == ' ',
    }
}

fn class_has(c: char, k: Class) -> (r: bool)
    ensures
        r == in_class(c, k),
{
    let sep = c == '-' || c == '.' || c == '(' || c == ')';
    match k {
        Class::Number => is_ascii_digit(c) || ('a' <= c && c <= 'f') || ('A' <= c && c <= 'F') || sep,
        Class::NotSeparator => !sep,
        Class::Name => is_ascii_letter(c) || is_ascii_digit(c) || c == '-',
        Class::Value => c == '[' || c == ']' || c == '/' || c == ':' || c == '&' || c == '+' || c == '$' || c == '%'
            || is_ascii_letter(c) || is_ascii_digit(c) || c == '-' || c == '_' || c == '.' || c == '!'
            || c == '~' || c == '*' || c == '\'' || c == '(' || c == ')',
        Class::Space => c == ' ',
    }
}

/// The end of the run of characters of a class that starts at `i`.
pub open spec fn span(s: Seq<char>, i: int, k: Class) -> int
    decreases s.len() - i,
{
    if i < 0 || i >= s.len() || !in_class(s[i], k) {
        i
    } else {
        span(s, i + 1, k)
    }
}

pub proof fn lemma_span_bounds(s: Seq<char>, i: int, k: Class)
    requires
        0 <= i <= s.len(),
    ensures
        i <= span(s, i, k) <= s.len(),
        span(s, i, k) < s.len() ==> !in_class(s[span(s, i, k)], k),
    decreases s.len() - i,
{
    if i < s.len() && in_class(s[i], k) {
        lemma_span_bounds(s, i + 1, k);
    }
}

/// The end of the run of characters of a class that starts at `i`.
pub fn scan(s: &[char], i: usize, k: Class) -> (r: usize)
    requires
        i <= s@.len(),
    ensures
        r == span(s@, i as int, k),
        i <= r <= s@.len(),
{
    proof { lemma_span_bounds(s@, i as int, k); }
    let mut j = i;
    while j < s.len() && class_has(s[j], k)
        invariant
            i <= j <= s@.len(),
            span(s@, j as int, k) == span(s@, i as int, k),
        decreases s@.len() - j,
    {
        j = j + 1;
    }
    j
}

/// A parameter `;name=value` at `k`: its name, its value, and where it ends.
pub open spec fn parameter_at(s: Seq<char>, k: int) -> Option<(Seq<char>, Seq<char>, int)> {
    if 0 <= k < s.len() && s[k] == ';' {
        let e1 = span(s, k + 1, Class::Name);
        if e1 < s.len() && s[e1] == '=' {
            let e2 = span(s, e1 + 1, Class::Value);
            Some((s.subrange(k + 1, e1), s.subrange(e1 + 1, e2), e2))
        } else {
            None
        }
    } else {
        None
    }
}

/// The value of the last parameter named `key` among the parameters from `k` on.
pub open spec fn parameter_value(s: Seq<char>, k: int, key: Seq<char>) -> Option<Seq<char>>
    decreases s.len() - k,
{
    match parameter_at(s, k) {
        Some((name, value, e)) => if k < e <= s.len() {
            match parameter_value(s, e, key) {
                Some(v) => Some(v),
                None => if name == key { Some(value) } else { None },
            }
        } else {
            None
        },
        None => None,
    }
}

/// Where the parameters from `k` on end.
pub open spec fn parameters_end(s: Seq<char>, k: int) -> int
    decreases s.len() - k,
{
    match parameter_at(s, k) {
        Some((_name, _value, e)) => if k < e <= s.len() { parameters_end(s, e) } else { k },
        None => k,
    }
}

/// Whether the text begins with `tel:`, in any case.
pub open spec fn has_scheme(s: Seq<char>) -> bool {
    &&& s.len() >= 4
    &&& (s[0] == 't' || s[0] == 'T')
    &&& (s[1] == 'e' || s[1] == 'E')
    &&& (s[2] == 'l' || s[2] == 'L')
    &&& s[3] == ':'
}

/// The characters of an optional vector.
pub open spec fn opt_seq(o: Option<Vec<char>>) -> Option<Seq<char>> {
    match o {
        Some(v) => Some(v@),
        None => None,
    }
}

pub open spec fn strip_plus(v: Seq<char>) -> Seq<char> {
    if v.len() > 0 && v[0] == '+' { v.drop_first() } else { v }
}

/// What a sub-parser recognizes: the national part, an explicit country
/// code (from `+` or a phone context), and an extension.
pub struct Recognized {
    pub national: Seq<char>,
    pub prefix: Option<Seq<char>>,
    pub extension: Option<Seq<char>>,
}

/// What the RFC 3966 grammar recognizes in a whole text. The country code comes from a `+`
/// before the national part, or else from a non-empty `phone-context`
/// (without its leading `+`).
pub open spec fn rfc3966(s: Seq<char>) -> Option<Recognized> {
    let i0: int = if has_scheme(s) { 4 } else { 0 };
    let plus = i0 < s.len() && s[i0] == '+' && span(s, i0 + 1, Class::NotSeparator) > i0 + 1;
    let pos = if plus { span(s, i0 + 1, Class::NotSeparator) } else { i0 };
    let k = span(s, pos, Class::Number);
    if k == pos || !(k == s.len() || s[k] == ';') || parameters_end(s, k) != s.len() {
        None
    } else {
        let context = parameter_value(s, k, "phone-context"@);
        Some(Recognized {
            national: s.subrange(pos, k),
            prefix: if plus {
                Some(s.subrange(i0 + 1, pos))
            } else {
                match context {
                    Some(v) => if strip_plus(v).len() > 0 { Some(strip_plus(v)) } else { None },
                    None => None,
                }
            },
            extension: parameter_value(s, k, "ext"@),
        })
    }
}

/// The text of `s` between two positions.
pub fn slice(s: &[char], from: usize, to: usize) -> (r: Vec<char>)
    requires
        from <= to <= s@.len(),
    ensures
        r@ == s@.subrange(from as int, to as int),
{
    let h = head(s, to);
    let r = tail(h.as_slice(), from);
    assert(r@ =~= s@.subrange(from as int, to as int));
    r
}

fn parameter(s: &[char], k: usize) -> (r: Option<(Vec<char>, Vec<char>, usize)>)
    requires
        k <= s@.len(),
    ensures
        match r {
            Some((name, value, e)) => parameter_at(s@, k as int) == Some((name@, value@, e as int)) && k < e <= s@.len(),
            None => parameter_at(s@, k as int) is None,
        },
{
    if k < s.len() && s[k] == ';' {
        let e1 = scan(s, k + 1, Class::Name);
        if e1 < s.len() && s[e1] == '=' {
            let e2 = scan(s, e1 + 1, Class::Value);
            Some((slice(s, k + 1, e1), slice(s, e1 + 1, e2), e2))
        } else {
            None
        }
    } else {
        None
    }
}

fn same_chars(a: &[char], b: &[char]) -> (r: bool)
    ensures
        r == (a@ == b@),
{
    if a.len() != b.len() {
        return false;
    }
    let mut i: usize = 0;
    while i < a.len()
        invariant
            0 <= i <= a@.len(),
            a@.len() == b@.len(),
            forall|j: int| 0 <= j < i ==> a@[j] == b@[j],
        decreases a@.len() - i,
    {
        if a[i] != b[i] {
            assert(a@[i as int] != b@[i as int]);
            return false;
        }
        i = i + 1;
    }
    assert(a@ =~= b@);
    true
}

/// The values of the last `phone-context` and `ext` parameters from `k` on,
/// and where the parameters end.
fn parameters(s: &[char], k: usize) -> (r: (Option<Vec<char>>, Option<Vec<char>>, usize))
    requires
        k <= s@.len(),
    ensures
        opt_seq(r.0) == parameter_value(s@, k as int, "phone-context"@),
        opt_seq(r.1) == parameter_value(s@, k as int, "ext"@),
        r.2 == parameters_end(s@, k as int),
{
    proof {
        reveal_strlit("phone-context");
        reveal_strlit("ext");
    }
    let context_key = crate::chars::chars_of("phone-context");
    let ext_key = crate::chars::chars_of("ext");
    let mut context: Option<Vec<char>> = None;
    let mut ext: Option<Vec<char>> = None;
    let mut at = k;
    loop
        invariant
            k <= at <= s@.len(),
            parameters_end(s@, k as int) == parameters_end(s@, at as int),
            context_key@ == "phone-context"@,
            ext_key@ == "ext"@,
            parameter_value(s@, k as int, "phone-context"@) == match parameter_value(s@, at as int, "phone-context"@) {
                Some(v) => Some(v),
                None => opt_seq(context),
            },
            parameter_value(s@, k as int, "ext"@) == match parameter_value(s@, at as int, "ext"@) {
                Some(v) => Some(v),
                None => opt_seq(ext),
            },
        decreases s@.len() - at,
    {
        proof {
            reveal_strlit("phone-context");
            reveal_strlit("ext");
            assert("phone-context"@.len() != "ext"@.len());
        }
        match parameter(s, at) {
            Some((name, value, e)) => {
                assert(parameter_value(s@, at as int, "phone-context"@) == match parameter_value(s@, e as int, "phone-context"@) {
                    Some(v) => Some(v),
                    None => if name@ == "phone-context"@ { Some(value@) } else { None },
                });
                assert(parameter_value(s@, at as int, "ext"@) == match parameter_value(s@, e as int, "ext"@) {
                    Some(v) => Some(v),
                    None => if name@ == "ext"@ { Some(value@) } else { None },
                });
                if same_chars(name.as_slice(), context_key.as_slice()) {
                    context = Some(value);
                } else if same_chars(name.as_slice(), ext_key.as_slice()) {
                    ext = Some(value);
                }
                at = e;
            },
            None => {
                return (context, ext, at);
            },
        }
    }
}

/// What the RFC 3966 grammar recognizes at the start of a text.
pub fn phone_number(s: &[char]) -> (r: Option<(Vec<char>, Option<Vec<char>>, Option<Vec<char>>)>)
    ensures
        match r {
            Some((national, prefix, extension)) => rfc3966(s@) == Some(Recognized {
                national: national@,
                prefix: opt_seq(prefix),
                extension: opt_seq(extension),
            }),
            None => rfc3966(s@) is None,
        },
{
    let scheme = s.len() >= 4 && (s[0] == 't' || s[0] == 'T') && (s[1] == 'e' || s[1] == 'E')
        && (s[2] == 'l' || s[2] == 'L') && s[3] == ':';
    let i0: usize = if scheme { 4 } else { 0 };
    let plus = i0 < s.len() && s[i0] == '+' && scan(s, i0 + 1, Class::NotSeparator) > i0 + 1;
    let pos = if plus { scan(s, i0 + 1, Class::NotSeparator) } else { i0 };
    let k = scan(s, pos, Class::Number);
    if k == pos || !(k == s.len() || s[k] == ';') {
        return None;
    }
    let (context, extension, end) = parameters(s, k);
    if end != s.len() {
        return None;
    }
    let prefix = if plus {
        Some(slice(s, i0 + 1, pos))
    } else {
        match context {
            Some(v) => {
                let code = if v.len() > 0 && v[0] == '+' {
                    let t = tail(v.as_slice(), 1);
                    assert(t@ =~= v@.drop_first());
                    t
                } else {
                    v
                };
                if code.len() > 0 { Some(code) } else { None }
            },
            None => None,
        }
    };
    Some((slice(s, pos, k), prefix, extension))
}

} // verus!
