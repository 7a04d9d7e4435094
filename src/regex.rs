//! Regular expressions over metadata patterns, compiled in verbose mode
//! (whitespace ignored) and shared through one cache.

use std::sync::{Arc, Mutex};
use vstd::prelude::*;
use vstd::string::StrSliceExecFns;
use crate::chars::text_of;

verus! {

#[verifier::external_type_specification]
#[verifier::external_body]
pub struct ExRegexCache(regex_cache::RegexCache);

#[verifier::external_type_specification]
#[verifier::external_body]
pub struct ExRegexError(regex::Error);

#[verifier::external_type_specification]
#[verifier::external_body]
#[verifier::reject_recursive_types(T)]
pub struct ExMutex<T: ?Sized>(Mutex<T>);

/// Whether a pattern compiles, in verbose mode (whitespace ignored), with
/// the regex crate's default limits.
pub uninterp spec fn compiles(pattern: Seq<char>) -> bool;

/// The text before the leftmost-first match of a pattern in a text, and the
/// text of each capturing group of that match (group 0 being the whole match).
pub uninterp spec fn captures_of(pattern: Seq<char>, text: Seq<char>) -> Option<(Seq<char>, Seq<Option<Seq<char>>>)>;

/// The text with the leftmost-first match of a pattern replaced by a template.
pub uninterp spec fn replace_of(pattern: Seq<char>, text: Seq<char>, template: Seq<char>) -> Seq<char>;

/// A shared cache of compiled patterns.
pub struct Cache {
    inner: Arc<Mutex<regex_cache::RegexCache>>,
}

/// The length of the leftmost-first match of a pattern, when that match
/// starts at the beginning of the text.
pub open spec fn start_match(pattern: Seq<char>, text: Seq<char>) -> Option<nat> {
    match captures_of(pattern, text) {
        Some((pre, groups)) => if pre.len() == 0 && groups.len() >= 1 && groups[0] is Some {
            Some(groups[0]->Some_0.len())
        } else {
            None
        },
        None => None,
    }
}

/// The groups of the leftmost-first match of a pattern, when that match
/// starts at the beginning of the text.
pub open spec fn start_groups(pattern: Seq<char>, text: Seq<char>) -> Option<Seq<Option<Seq<char>>>> {
    match captures_of(pattern, text) {
        Some((pre, groups)) => if pre.len() == 0 { Some(groups) } else { None },
        None => None,
    }
}

/// Relies on regex_cache::RegexCache::new: an empty cache holding at most
/// `capacity` compiled patterns.
#[verifier::external_body]
fn new_cache(capacity: usize) -> (r: Arc<Mutex<regex_cache::RegexCache>>) {
    Arc::new(Mutex::new(regex_cache::RegexCache::new(capacity)))
}

/// Whether a pattern compiles in verbose mode; a caller tests a pattern
/// with this before handing it to the matching functions.
pub fn pattern_compiles(pattern: &str) -> (r: bool)
    ensures
        r == compiles(pattern@),
{
    check(pattern).is_ok()
}

impl Cache {
    /// An empty cache.
    pub fn new() -> (r: Cache) {
        Cache { inner: new_cache(100) }
    }

    /// The length of the leftmost-first match of `pattern` in `text`, if that
    /// match starts at the beginning of the text.
    pub fn match_at_start(&self, pattern: &str, text: &[char]) -> (r: Option<usize>)
        requires
            compiles(pattern@),
        ensures
            r matches Some(n) ==> start_match(pattern@, text@) == Some(n as nat),
            r is None ==> start_match(pattern@, text@) is None,
            r matches Some(n) ==> n <= text@.len(),
    {
        let t = text_of(text);
        match captures(self, pattern, t.as_str()) {
            Some((pre, groups)) => {
                if pre.as_str().is_empty() && groups.len() >= 1 {
                    match &groups[0] {
                        Some(m) => Some(m.as_str().unicode_len()),
                        None => None,
                    }
                } else {
                    None
                }
            },
            None => None,
        }
    }

    /// `None` when `pattern` does not compile; else the length of its
    /// leftmost-first match in `text`, if that match starts the text.
    pub fn checked_match_at_start(&self, pattern: &str, text: &[char]) -> (r: Option<Option<usize>>)
        ensures
            r is None <==> !compiles(pattern@),
            r matches Some(Some(n)) ==> start_match(pattern@, text@) == Some(n as nat),
            r matches Some(None) ==> start_match(pattern@, text@) is None,
    {
        if pattern_compiles(pattern) {
            Some(self.match_at_start(pattern, text))
        } else {
            None
        }
    }

    /// `None` when `pattern` does not compile; else the groups of its
    /// leftmost-first match in `text`, if that match starts the text.
    pub fn checked_groups_at_start(&self, pattern: &str, text: &[char]) -> (r: Option<Option<Vec<Option<String>>>>)
        ensures
            r is None <==> !compiles(pattern@),
            r matches Some(g) ==> g.deep_view() == start_groups(pattern@, text@),
    {
        if pattern_compiles(pattern) {
            Some(self.groups_at_start(pattern, text))
        } else {
            None
        }
    }

    /// The groups of the leftmost-first match of `pattern` in `text`, if that
    /// match starts at the beginning of the text.
    pub fn groups_at_start(&self, pattern: &str, text: &[char]) -> (r: Option<Vec<Option<String>>>)
        requires
            compiles(pattern@),
        ensures
            r.deep_view() == start_groups(pattern@, text@),
    {
        let t = text_of(text);
        match captures(self, pattern, t.as_str()) {
            Some((pre, groups)) => {
                if pre.as_str().is_empty() {
                    Some(groups)
                } else {
                    None
                }
            },
            None => None,
        }
    }
}

/// Relies on regex::RegexBuilder::build with ignore_whitespace: whether the
/// pattern compiles depends on the pattern alone. The cache compiles with
/// the same options (regex_cache's defaults equal the regex crate's).
#[verifier::external_body]
pub(crate) fn check(pattern: &str) -> (r: Result<(), regex::Error>)
    ensures
        r is Ok <==> compiles(pattern@),
{
    regex::RegexBuilder::new(pattern).ignore_whitespace(true).build().map(|_| ())
}

/// Relies on regex_cache::CachedRegex::captures, built with ignore_whitespace:
/// the leftmost-first match depends on the pattern and the text alone; group
/// 0 is always present, and the text before the match and the match itself
/// begin the text. It compiles the pattern on a miss, which cannot fail
/// for a pattern that compiles.
#[verifier::external_body]
pub(crate) fn captures(cache: &Cache, pattern: &str, text: &str) -> (r: Option<(String, Vec<Option<String>>)>)
    requires
        compiles(pattern@),
    ensures
        r.deep_view() == captures_of(pattern@, text@),
        r matches Some((pre, groups)) ==> {
            &&& groups@.len() >= 1
            &&& groups@[0] is Some
            &&& pre@.len() + groups@[0]->Some_0@.len() <= text@.len()
            &&& text@.subrange(0, (pre@.len() + groups@[0]->Some_0@.len()) as int) == pre@ + groups@[0]->Some_0@
        },
{
    let re = regex_cache::CachedRegexBuilder::new(cache.inner.clone(), pattern).ignore_whitespace(true).build_unchecked();
    re.captures(text).map(|c| (
        text[..c.get(0).unwrap().start()].to_string(),
        c.iter().map(|g| g.map(|m| m.as_str().to_string())).collect(),
    ))
}

/// Relies on regex_cache::CachedRegex::replace, built with ignore_whitespace:
/// the result (the first match replaced by the expanded template) depends on
/// the pattern, the text and the template alone.
#[verifier::external_body]
pub(crate) fn replace(cache: &Cache, pattern: &str, text: &str, template: &str) -> (r: String)
    requires
        compiles(pattern@),
    ensures
        r@ == replace_of(pattern@, text@, template@),
{
    let re = regex_cache::CachedRegexBuilder::new(cache.inner.clone(), pattern).ignore_whitespace(true).build_unchecked();
    re.replace(text, template).into_owned()
}

} // verus!
