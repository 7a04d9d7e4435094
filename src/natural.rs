//! The natural-notation sub-parser: the number is extracted from the text,
//! and a trailing extension split off.

use vstd::prelude::*;
use crate::chars::{chars_of, text_of};
use crate::database::{EXTENSION, UNWANTED_END, VALID_START};
use crate::regex::{captures, captures_of, compiles, Cache};
use crate::rfc3966::{scan, span, Class, Recognized};
use crate::text::{head, starts_with, tail};

verus! {

/// Where the candidate number starts in a text: at the first character
/// that may begin a number.
pub open spec fn start_of(s: Seq<char>) -> Option<int> {
    match captures_of(VALID_START@, s) {
        Some((pre, _groups)) => if pre.len() < s.len() { Some(pre.len() as int) } else { None },
        None => None,
    }
}

/// The text without its trailing run of characters that are neither
/// letters, nor numbers, nor `#`. (The text before a match always begins
/// the text.)
pub open spec fn trimmed_end(r: Seq<char>) -> Seq<char> {
    match captures_of(UNWANTED_END@, r) {
        Some((pre, _groups)) => if starts_with(r, pre) { pre } else { r },
        None => r,
    }
}

/// Whether a second number starts at `i`: `\` or `/`, spaces, then `x`.
pub open spec fn second_at(s: Seq<char>, i: int) -> bool {
    &&& 0 <= i < s.len()
    &&& (s[i] == '\\' || s[i] == '/')
    &&& span(s, i + 1, Class::Space) < s.len()
    &&& s[span(s, i + 1, Class::Space)] == 'x'
}

/// The position of the first second number from `i` on.
pub open spec fn first_second(s: Seq<char>, i: int) -> int
    decreases s.len() - i,
{
    if i < 0 || i >= s.len() {
        s.len() as int
    } else if second_at(s, i) {
        i
    } else {
        first_second(s, i + 1)
    }
}

/// The candidate number in a text: from its first possible start, without
/// trailing punctuation, and cut before a second number.
pub open spec fn extracted(s: Seq<char>) -> Option<Seq<char>> {
    match start_of(s) {
        None => None,
        Some(start) => {
            let r1 = trimmed_end(s.subrange(start, s.len() as int));
            let r2 = r1.subrange(0, first_second(r1, 0));
            if r2.len() == 0 { None } else { Some(r2) }
        },
    }
}

/// The extension among the groups of a match of the extension pattern: the
/// first of its three digit groups (after `;ext=`, after a word or symbol,
/// or between a dash or space and `#`) that took part in the match.
pub open spec fn extension_group(groups: Seq<Option<Seq<char>>>) -> Option<Seq<char>> {
    if groups.len() > 1 && groups[1] is Some {
        groups[1]
    } else if groups.len() > 2 && groups[2] is Some {
        groups[2]
    } else if groups.len() > 3 {
        groups[3]
    } else {
        None
    }
}

/// What the natural sub-parser recognizes in a text: the candidate number,
/// with the digits of a trailing extension split off. (The text before a
/// match always begins the candidate.)
pub open spec fn natural(s: Seq<char>) -> Option<Recognized> {
    match extracted(s) {
        None => None,
        Some(e) => match captures_of(EXTENSION@, e) {
            None => Some(Recognized { national: e, prefix: None, extension: None }),
            Some((pre, groups)) => if starts_with(e, pre) {
                Some(Recognized { national: pre, prefix: None, extension: extension_group(groups) })
            } else {
                None
            },
        },
    }
}

pub proof fn lemma_first_second_bounds(s: Seq<char>, i: int)
    requires
        0 <= i <= s.len(),
    ensures
        i <= first_second(s, i) <= s.len(),
    decreases s.len() - i,
{
    if i < s.len() && !second_at(s, i) {
        lemma_first_second_bounds(s, i + 1);
    }
}

fn second_here(s: &[char], i: usize) -> (r: bool)
    requires
        i < s@.len(),
    ensures
        r == second_at(s@, i as int),
{
    if s[i] == '\\' || s[i] == '/' {
        let j = scan(s, i + 1, Class::Space);
        j < s.len() && s[j] == 'x'
    } else {
        false
    }
}

/// The head of a text that the leftmost-first match of a pattern leaves
/// before it, if the pattern matches.
fn head_before(cache: &Cache, pattern: &str, s: &[char]) -> (r: Option<Vec<char>>)
    requires
        compiles(pattern@),
    ensures
        match r {
            Some(h) => captures_of(pattern@, s@) matches Some((pre, _g)) && pre == h@ && starts_with(s@, pre),
            None => captures_of(pattern@, s@) is None,
        },
{
    let text = text_of(s);
    match captures(cache, pattern, text.as_str()) {
        Some((pre, groups)) => {
            proof {
                let m = groups@[0]->Some_0@;
                assert(s@.subrange(0, pre@.len() as int) =~= s@.subrange(0, (pre@.len() + m.len()) as int).subrange(0, pre@.len() as int));
                assert((pre@ + m).subrange(0, pre@.len() as int) =~= pre@);
            }
            Some(chars_of(pre.as_str()))
        },
        None => None,
    }
}

/// The candidate number in a text.
pub fn extract(cache: &Cache, s: &[char]) -> (r: Option<Vec<char>>)
    requires
        compiles(VALID_START@),
        compiles(UNWANTED_END@),
    ensures
        match r {
            Some(v) => extracted(s@) == Some(v@),
            None => extracted(s@) is None,
        },
{
    let start = match head_before(cache, VALID_START, s) {
        Some(pre) => if pre.len() < s.len() { pre.len() } else { return None },
        None => return None,
    };
    let r0 = tail(s, start);
    let r1 = match head_before(cache, UNWANTED_END, r0.as_slice()) {
        Some(pre) => pre,
        None => r0,
    };
    let mut cut: usize = 0;
    while cut < r1.len() && !second_here(r1.as_slice(), cut)
        invariant
            0 <= cut <= r1@.len(),
            first_second(r1@, cut as int) == first_second(r1@, 0),
        decreases r1@.len() - cut,
    {
        cut = cut + 1;
    }
    let r2 = head(r1.as_slice(), cut);
    if r2.len() == 0 {
        None
    } else {
        Some(r2)
    }
}

/// What the natural sub-parser recognizes in a text: its national part and
/// extension.
pub fn phone_number(cache: &Cache, s: &[char]) -> (r: Option<(Vec<char>, Option<Vec<char>>)>)
    requires
        compiles(EXTENSION@),
        compiles(VALID_START@),
        compiles(UNWANTED_END@),
    ensures
        match r {
            Some((national, extension)) => natural(s@) == Some(Recognized {
                national: national@,
                prefix: None,
                extension: match extension { Some(e) => Some(e@), None => None },
            }),
            None => natural(s@) is None,
        },
{
    let e = match extract(cache, s) {
        Some(e) => e,
        None => return None,
    };
    let text = crate::chars::text_of(e.as_slice());
    match captures(cache, EXTENSION, text.as_str()) {
        None => Some((e, None)),
        Some((pre, groups)) => {
            proof {
                let m = groups@[0]->Some_0@;
                assert(e@.subrange(0, pre@.len() as int) =~= e@.subrange(0, (pre@.len() + m.len()) as int).subrange(0, pre@.len() as int));
                assert((pre@ + m).subrange(0, pre@.len() as int) =~= pre@);
                assert(starts_with(e@, pre@));
            }
            let n = groups.len();
            let chosen: Option<&String> = if n > 1 && groups[1].is_some() {
                groups[1].as_ref()
            } else if n > 2 && groups[2].is_some() {
                groups[2].as_ref()
            } else if n > 3 {
                groups[3].as_ref()
            } else {
                None
            };
            let extension = match chosen {
                Some(g) => Some(chars_of(g.as_str())),
                None => None,
            };
            Some((chars_of(pre.as_str()), extension))
        },
    }
}

} // verus!
