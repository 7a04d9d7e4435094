//! The database of region metadata, indexed by region and calling code.

use vstd::prelude::*;
use crate::chars::chars_of;
use crate::error::LoadMetadata;
use crate::metadata::Metadata;
use crate::regex::{check, compiles, Cache};

verus! {

/// The pattern of an extension at the end of a number: `;ext=` and digits,
/// a word such as "ext", "extension", "xtn", "int" or "anexo" (and their
/// full-width or accented forms) before digits, or digits between a dash or
/// space and `#`. Written for verbose mode, case-insensitive.
pub const EXTENSION: &'static str = r"(?i)(?:;ext=(\p{Nd}{0,7})|[\x20\x{00A0}\t,]*(?:e?xt(?:ensi(?:o\x{0301}?|\x{00F3}))?n?|\x{FF45}?\x{FF58}\x{FF54}\x{FF4E}?|[,;x\x{FF58}\#\x{FF03}~\x{FF5E}]|int|anexo|\x{FF49}\x{FF4E}\x{FF54})[:\.\x{FF0E}]?[\x20\x{00A0}\t,\-]*(\p{Nd}{0,7})\#?|[\-\x20]+(\p{Nd}{1,5})\#)$";

/// The index of the first record of a region identifier.
pub open spec fn first_with_id(s: Seq<Metadata>, key: Seq<char>) -> Option<int>
    decreases s.len(),
{
    if s.len() == 0 {
        None
    } else {
        match first_with_id(s.drop_last(), key) {
            Some(i) => Some(i),
            None => if s.last().id@ == key { Some(s.len() - 1) } else { None },
        }
    }
}

/// The index of the first record of a calling code.
pub open spec fn first_with_code(s: Seq<Metadata>, key: u16) -> Option<int>
    decreases s.len(),
{
    if s.len() == 0 {
        None
    } else {
        match first_with_code(s.drop_last(), key) {
            Some(i) => Some(i),
            None => if s.last().country_code == key { Some(s.len() - 1) } else { None },
        }
    }
}


/// The records whose main-country flag is `main`, in order.
pub open spec fn with_main(s: Seq<Metadata>, main: bool) -> Seq<Metadata>
    decreases s.len(),
{
    if s.len() == 0 {
        seq![]
    } else if s.last().main_country_for_code == main {
        with_main(s.drop_last(), main).push(s.last())
    } else {
        with_main(s.drop_last(), main)
    }
}

/// The records of a calling code, in order.
pub open spec fn with_code(s: Seq<Metadata>, code: u16) -> Seq<Metadata>
    decreases s.len(),
{
    if s.len() == 0 {
        seq![]
    } else if s.last().country_code == code {
        with_code(s.drop_last(), code).push(s.last())
    } else {
        with_code(s.drop_last(), code)
    }
}

pub proof fn lemma_first_with_id(s: Seq<Metadata>, key: Seq<char>)
    ensures
        match first_with_id(s, key) {
            Some(k) => 0 <= k < s.len() && s[k].id@ == key && forall|j: int| 0 <= j < k ==> (#[trigger] s[j]).id@ != key,
            None => forall|j: int| 0 <= j < s.len() ==> (#[trigger] s[j]).id@ != key,
        },
    decreases s.len(),
{
    if s.len() > 0 {
        let t = s.drop_last();
        lemma_first_with_id(t, key);
        assert forall|j: int| 0 <= j < s.len() - 1 implies s[j] == #[trigger] t[j] by {}
        match first_with_id(t, key) {
            Some(k) => {
                assert forall|j: int| 0 <= j < k implies (#[trigger] s[j]).id@ != key by {
                    assert(s[j] == t[j]);
                }
            },
            None => {
                assert forall|j: int| 0 <= j < s.len() - 1 implies (#[trigger] s[j]).id@ != key by {
                    assert(s[j] == t[j]);
                }
            },
        }
    }
}

pub proof fn lemma_first_with_id_at(s: Seq<Metadata>, key: Seq<char>, i: int)
    requires
        0 <= i < s.len(),
        s[i].id@ == key,
        forall|j: int| 0 <= j < i ==> (#[trigger] s[j]).id@ != key,
    ensures
        first_with_id(s, key) == Some(i),
{
    lemma_first_with_id(s, key);
}

pub proof fn lemma_first_with_code(s: Seq<Metadata>, key: u16)
    ensures
        match first_with_code(s, key) {
            Some(k) => 0 <= k < s.len() && s[k].country_code == key && forall|j: int| 0 <= j < k ==> (#[trigger] s[j]).country_code != key,
            None => forall|j: int| 0 <= j < s.len() ==> (#[trigger] s[j]).country_code != key,
        },
    decreases s.len(),
{
    if s.len() > 0 {
        let t = s.drop_last();
        lemma_first_with_code(t, key);
        assert forall|j: int| 0 <= j < s.len() - 1 implies s[j] == #[trigger] t[j] by {}
        match first_with_code(t, key) {
            Some(k) => {
                assert forall|j: int| 0 <= j < k implies (#[trigger] s[j]).country_code != key by {
                    assert(s[j] == t[j]);
                }
            },
            None => {
                assert forall|j: int| 0 <= j < s.len() - 1 implies (#[trigger] s[j]).country_code != key by {
                    assert(s[j] == t[j]);
                }
            },
        }
    }
}

pub proof fn lemma_first_with_code_at(s: Seq<Metadata>, key: u16, i: int)
    requires
        0 <= i < s.len(),
        s[i].country_code == key,
        forall|j: int| 0 <= j < i ==> (#[trigger] s[j]).country_code != key,
    ensures
        first_with_code(s, key) == Some(i),
{
    lemma_first_with_code(s, key);
}


/// Whether two texts are equal.
pub fn same_text(a: &str, b: &str) -> (r: bool)
    ensures
        r == (a@ == b@),
{
    let x = chars_of(a);
    let y = chars_of(b);
    assert(x@ == a@ && y@ == b@);
    if x.len() != y.len() {
        return false;
    }
    let mut i: usize = 0;
    while i < x.len()
        invariant
            0 <= i <= x@.len(),
            x@.len() == y@.len(),
            forall|k: int| 0 <= k < i ==> x@[k] == y@[k],
            x@ == a@,
            y@ == b@,
        decreases x@.len() - i,
    {
        let (c, d) = (x[i], y[i]);
        if c != d {
            assert(x@[i as int] != y@[i as int]);
            assert(a@ != b@) by {
                if a@ == b@ {
                    assert(x@ == y@);
                }
            }
            return false;
        }
        i = i + 1;
    }
    assert(x@ =~= y@);
    true
}

/// The characters that may begin a number: a plus sign or a decimal digit.
pub const VALID_START: &'static str = r"[+\x{FF0B}\p{Nd}]";

/// A trailing run of characters that are neither letters, nor numbers, nor
/// `#`. Written for verbose mode.
pub const UNWANTED_END: &'static str = r"[[\P{N}&&\P{L}]&&[^\#]]+$";

/// The fixed patterns of the parser compile.
pub open spec fn fixed_patterns_compile() -> bool {
    &&& compiles(EXTENSION@)
    &&& compiles(VALID_START@)
    &&& compiles(UNWANTED_END@)
}

/// Metadata of every region, indexed by region identifier and calling code.
pub struct Database {
    cache: Cache,
    records: Vec<Metadata>,
}

impl Database {
    /// The records, the main region of each calling code first.
    pub closed spec fn records(self) -> Seq<Metadata> {
        self.records@
    }

    /// Every pattern of the database compiles.
    pub open spec fn wf(self) -> bool {
        &&& fixed_patterns_compile()
        &&& forall|i: int| 0 <= i < self.records().len() ==> (#[trigger] self.records()[i]).compiled()
    }

    /// The record of a region identifier.
    pub open spec fn index_of_id(self, id: Seq<char>) -> Option<int> {
        first_with_id(self.records(), id)
    }

    /// The main record of a calling code.
    pub open spec fn index_of_code(self, code: u16) -> Option<int> {
        first_with_code(self.records(), code)
    }

    /// Builds a database from records, compiling every pattern: fails on
    /// the first that does not compile. The main region of each calling code
    /// goes before the others of its code.
    pub fn from(meta: Vec<Metadata>) -> (r: Result<Database, LoadMetadata>)
        ensures
            r is Ok <==> (fixed_patterns_compile() && forall|i: int| 0 <= i < meta@.len() ==> (#[trigger] meta@[i]).compiled()),
            r matches Ok(db) ==> db.wf() && db.records() == with_main(meta@, true) + with_main(meta@, false),
            r matches Err(e) ==> e is Regex,
    {
        let mut i: usize = 0;
        while i < meta.len()
            invariant
                0 <= i <= meta@.len(),
                forall|k: int| 0 <= k < i ==> (#[trigger] meta@[k]).compiled(),
            decreases meta@.len() - i,
        {
            match meta[i].check() {
                Ok(()) => {},
                Err(e) => return Err(LoadMetadata::Regex(e)),
            }
            i = i + 1;
        }
        match check(EXTENSION) {
            Ok(()) => {},
            Err(e) => return Err(LoadMetadata::Regex(e)),
        }
        match check(VALID_START) {
            Ok(()) => {},
            Err(e) => return Err(LoadMetadata::Regex(e)),
        }
        match check(UNWANTED_END) {
            Ok(()) => {},
            Err(e) => return Err(LoadMetadata::Regex(e)),
        }
        let ghost all = meta@;
        assert(all.len() <= usize::MAX);
        let mut rest = meta;
        let mut mains: Vec<Metadata> = Vec::new();
        let mut others: Vec<Metadata> = Vec::new();
        let mut k: usize = 0;
        while rest.len() > 0
            invariant
                k + rest@.len() == all.len(),
                all.len() <= usize::MAX,
                rest@ == all.subrange(k as int, all.len() as int),
                mains@ == with_main(all.subrange(0, k as int), true),
                others@ == with_main(all.subrange(0, k as int), false),
            decreases rest@.len(),
        {
            let m = rest.remove(0);
            assert(all.subrange(0, k + 1).drop_last() =~= all.subrange(0, k as int));
            if m.main_country_for_code {
                mains.push(m);
            } else {
                others.push(m);
            }
            k = k + 1;
            assert(rest@ =~= all.subrange(k as int, all.len() as int));
        }
        assert(all.subrange(0, all.len() as int) =~= all);
        let ghost ordered = mains@ + others@;
        mains.append(&mut others);
        let db = Database { cache: Cache::new(), records: mains };
        proof {
            assert forall|j: int| 0 <= j < db.records().len() implies (#[trigger] db.records()[j]).compiled() by {
                if j < with_main(all, true).len() {
                    lemma_with_main_members(all, true, j);
                    assert(db.records()[j] == with_main(all, true)[j]);
                } else {
                    lemma_with_main_members(all, false, j - with_main(all, true).len());
                    assert(db.records()[j] == with_main(all, false)[j - with_main(all, true).len()]);
                }
            }
        }
        Ok(db)
    }

    /// The number of records.
    pub fn len(&self) -> (r: usize)
        ensures
            r == self.records().len(),
    {
        self.records.len()
    }

    /// The record at an index.
    pub fn record(&self, i: usize) -> (r: &Metadata)
        requires
            i < self.records().len(),
        ensures
            *r == self.records()[i as int],
    {
        &self.records[i]
    }

    /// The cache of compiled patterns.
    pub fn cache(&self) -> (r: &Cache) {
        &self.cache
    }

    /// The record of a region identifier.
    pub fn by_id(&self, id: &str) -> (r: Option<&Metadata>)
        ensures
            match r {
                Some(m) => self.index_of_id(id@) matches Some(i) && self.records()[i] == *m,
                None => self.index_of_id(id@) is None,
            },
    {
        let mut i: usize = 0;
        while i < self.records.len()
            invariant
                0 <= i <= self.records@.len(),
                forall|j: int| 0 <= j < i ==> (#[trigger] self.records@[j]).id@ != id@,
            decreases self.records@.len() - i,
        {
            if same_text(self.records[i].id.as_str(), id) {
                proof { lemma_first_with_id_at(self.records@, id@, i as int); }
                return Some(&self.records[i]);
            }
            i = i + 1;
        }
        proof { lemma_first_with_id(self.records@, id@); }
        None
    }

    /// The main record of a calling code.
    pub fn main_by_code(&self, code: u16) -> (r: Option<&Metadata>)
        ensures
            match r {
                Some(m) => self.index_of_code(code) matches Some(i) && self.records()[i] == *m,
                None => self.index_of_code(code) is None,
            },
    {
        let mut i: usize = 0;
        while i < self.records.len()
            invariant
                0 <= i <= self.records@.len(),
                forall|j: int| 0 <= j < i ==> (#[trigger] self.records@[j]).country_code != code,
            decreases self.records@.len() - i,
        {
            if self.records[i].country_code == code {
                proof { lemma_first_with_code_at(self.records@, code, i as int); }
                return Some(&self.records[i]);
            }
            i = i + 1;
        }
        proof { lemma_first_with_code(self.records@, code); }
        None
    }

    /// The records of a calling code, the main one first.
    pub fn by_code(&self, code: u16) -> (r: Option<Vec<&Metadata>>)
        ensures
            match r {
                Some(v) => v@.len() > 0 && v@.len() == with_code(self.records(), code).len()
                    && forall|i: int| 0 <= i < v@.len() ==> *v@[i] == with_code(self.records(), code)[i],
                None => with_code(self.records(), code).len() == 0,
            },
    {
        let mut v: Vec<&Metadata> = Vec::new();
        let mut i: usize = 0;
        while i < self.records.len()
            invariant
                0 <= i <= self.records@.len(),
                v@.len() == with_code(self.records@.subrange(0, i as int), code).len(),
                forall|k: int| 0 <= k < v@.len() ==> *v@[k] == with_code(self.records@.subrange(0, i as int), code)[k],
            decreases self.records@.len() - i,
        {
            assert(self.records@.subrange(0, i + 1).drop_last() =~= self.records@.subrange(0, i as int));
            if self.records[i].country_code == code {
                v.push(&self.records[i]);
            }
            i = i + 1;
        }
        assert(self.records@.subrange(0, self.records@.len() as int) =~= self.records@);
        if v.len() == 0 {
            None
        } else {
            Some(v)
        }
    }

    /// The region identifiers of a calling code, the main one first.
    pub fn region(&self, code: u16) -> (r: Option<Vec<&str>>)
        ensures
            match r {
                Some(v) => v@.len() > 0 && v@.len() == with_code(self.records(), code).len()
                    && forall|i: int| 0 <= i < v@.len() ==> v@[i]@ == with_code(self.records(), code)[i].id@,
                None => with_code(self.records(), code).len() == 0,
            },
    {
        let mut v: Vec<&str> = Vec::new();
        let mut i: usize = 0;
        while i < self.records.len()
            invariant
                0 <= i <= self.records@.len(),
                v@.len() == with_code(self.records@.subrange(0, i as int), code).len(),
                forall|k: int| 0 <= k < v@.len() ==> v@[k]@ == with_code(self.records@.subrange(0, i as int), code)[k].id@,
            decreases self.records@.len() - i,
        {
            assert(self.records@.subrange(0, i + 1).drop_last() =~= self.records@.subrange(0, i as int));
            if self.records[i].country_code == code {
                v.push(self.records[i].id.as_str());
            }
            i = i + 1;
        }
        assert(self.records@.subrange(0, self.records@.len() as int) =~= self.records@);
        if v.len() == 0 {
            None
        } else {
            Some(v)
        }
    }
}

/// Each record kept by `with_main` is a record of the sequence.
pub proof fn lemma_with_main_members(s: Seq<Metadata>, main: bool, j: int)
    requires
        0 <= j < with_main(s, main).len(),
    ensures
        exists|i: int| 0 <= i < s.len() && s[i] == #[trigger] with_main(s, main)[j],
    decreases s.len(),
{
    if s.len() > 0 {
        let prev = with_main(s.drop_last(), main);
        if j < prev.len() {
            lemma_with_main_members(s.drop_last(), main, j);
            let i = choose|i: int| 0 <= i < s.drop_last().len() && s.drop_last()[i] == #[trigger] with_main(s.drop_last(), main)[j];
            assert(s[i] == with_main(s, main)[j]);
        } else {
            assert(s[s.len() - 1] == with_main(s, main)[j]);
        }
    }
}

} // verus!
