//! Text as a sequence of characters: scanning for a mark, looking for a
//! pattern, and taking the characters out of a string.

use vstd::prelude::*;
use vstd::std_specs::iter::IteratorSpec;
use vstd::string::*;

verus! {

broadcast use vstd::string::group_string_axioms;

/// What a scan stops at.
#[derive(Clone, Copy, Debug)]
pub enum Mark {
    /// The given character.
    Is(char),
    /// Any white space.
    Space,
    /// Anything but white space.
    NonSpace,
    /// A `/` or any white space.
    SlashOrSpace,
}

/// Whether `c` is white space: the characters that carry the Unicode property
/// `White_Space`.
pub open spec fn is_space(c: char) -> bool {
    let u = c as u32;
    ||| 0x09 <= u <= 0x0D
    ||| u == 0x20
    ||| u == 0x85
    ||| u == 0xA0
    ||| u == 0x1680
    ||| 0x2000 <= u <= 0x200A
    ||| u == 0x2028
    ||| u == 0x2029
    ||| u == 0x202F
    ||| u == 0x205F
    ||| u == 0x3000
}

/// Whether a scan for `mark` stops at `c`.
pub open spec fn stops(mark: Mark, c: char) -> bool {
    match mark {
        Mark::Is(wanted) => c == wanted,
        Mark::Space => is_space(c),
        Mark::NonSpace => !is_space(c),
        Mark::SlashOrSpace => c == '/' || is_space(c),
    }
}

/// The first position at or after `from` at which a scan for `mark` stops;
/// the length of `s` where there is none.
pub open spec fn next(s: Seq<char>, from: int, mark: Mark) -> int
    decreases s.len() - from,
{
    if from < 0 || from >= s.len() {
        s.len() as int
    } else if stops(mark, s[from]) {
        from
    } else {
        next(s, from + 1, mark)
    }
}

/// Whether `pat` stands in `s` at position `at`.
pub open spec fn occurs_at(s: Seq<char>, pat: Seq<char>, at: int) -> bool {
    &&& 0 <= at
    &&& at + pat.len() <= s.len()
    &&& s.subrange(at, at + pat.len()) == pat
}

/// The first position at or after `from` at which `pat` stands in `s`; the
/// length of `s` where there is none.
pub open spec fn first_occurrence(s: Seq<char>, pat: Seq<char>, from: int) -> int
    decreases s.len() - from,
{
    if from < 0 || from >= s.len() || from + pat.len() > s.len() {
        s.len() as int
    } else if occurs_at(s, pat, from) {
        from
    } else {
        first_occurrence(s, pat, from + 1)
    }
}

/// `next` returns the least stopping position: it lies between `from` and the
/// end, nothing before it stops the scan, and it stops the scan unless it is
/// the end.
pub proof fn lemma_next(s: Seq<char>, from: int, mark: Mark)
    requires
        0 <= from <= s.len(),
    ensures
        from <= next(s, from, mark) <= s.len(),
        forall|i: int| from <= i < next(s, from, mark) ==> !stops(mark, #[trigger] s[i]),
        next(s, from, mark) < s.len() ==> stops(mark, s[next(s, from, mark)]),
    decreases s.len() - from,
{
    if from < s.len() && !stops(mark, s[from]) {
        lemma_next(s, from + 1, mark);
    }
}

/// `first_occurrence` returns the least position at which the pattern
/// stands, and the length only where it stands nowhere from `from` on.
pub proof fn lemma_first_occurrence(s: Seq<char>, pat: Seq<char>, from: int)
    requires
        0 <= from,
    ensures
        ({
            let at = first_occurrence(s, pat, from);
            &&& at <= s.len()
            &&& forall|i: int| from <= i < at ==> !occurs_at(s, pat, i)
            &&& at < s.len() ==> from <= at && occurs_at(s, pat, at)
            &&& pat.len() > 0 && at == s.len() ==> forall|i: int| from <= i ==> !occurs_at(s, pat, i)
        }),
    decreases s.len() - from,
{
    if from < s.len() && from + pat.len() <= s.len() && !occurs_at(s, pat, from) {
        lemma_first_occurrence(s, pat, from + 1);
    }
}

/// Whether `c` is white space.
pub fn is_whitespace(c: char) -> (r: bool)
    ensures
        r == is_space(c),
{
    let u: u32 = c as u32;
    (0x09 <= u && u <= 0x0D) || u == 0x20 || u == 0x85 || u == 0xA0 || u == 0x1680 || (0x2000 <= u
        && u <= 0x200A) || u == 0x2028 || u == 0x2029 || u == 0x202F || u == 0x205F || u == 0x3000
}

impl Mark {
    /// Whether a scan for this mark stops at `c`.
    pub fn stops_at(&self, c: char) -> (r: bool)
        ensures
            r == stops(*self, c),
    {
        match self {
            Mark::Is(wanted) => c == *wanted,
            Mark::Space => is_whitespace(c),
            Mark::NonSpace => !is_whitespace(c),
            Mark::SlashOrSpace => c == '/' || is_whitespace(c),
        }
    }
}

/// The characters of `s`, in order.
pub fn chars_of(s: &str) -> (out: Vec<char>)
    ensures
        out@ == s@,
{
    let mut out: Vec<char> = Vec::new();
    let mut it = s.chars();
    loop
        invariant
            it.obeys_prophetic_iter_laws(),
            out@ + it.remaining() == s@,
            it.decrease() is Some,
        decreases it.decrease()->0,
    {
        match it.next() {
            Some(c) => {
                out.push(c);
            },
            None => {
                assert(out@ + it.remaining() =~= out@);
                return out;
            },
        }
    }
}

/// Scans `s` from `from` for `mark`.
pub fn seek(s: &[char], from: usize, mark: Mark) -> (at: usize)
    ensures
        at == next(s@, from as int, mark),
{
    let mut at: usize = from;
    while at < s.len() && !mark.stops_at(s[at])
        invariant
            from <= at,
            next(s@, at as int, mark) == next(s@, from as int, mark),
        decreases s.len() - at,
    {
        at = at + 1;
    }
    if at > s.len() {
        s.len()
    } else {
        at
    }
}

/// Whether `pat` stands in `s` at position `at`.
pub fn stands_at(s: &[char], pat: &[char], at: usize) -> (r: bool)
    ensures
        r == occurs_at(s@, pat@, at as int),
{
    if pat.len() > s.len() || at > s.len() - pat.len() {
        return false;
    }
    let mut k: usize = 0;
    while k < pat.len()
        invariant
            at + pat.len() <= s.len(),
            k <= pat.len(),
            forall|j: int| 0 <= j < k ==> s@[at + j] == pat@[j],
        decreases pat.len() - k,
    {
        if s[at + k] != pat[k] {
            assert(s@.subrange(at as int, at + pat@.len())[k as int] != pat@[k as int]);
            return false;
        }
        k = k + 1;
    }
    assert(s@.subrange(at as int, at + pat@.len()) =~= pat@);
    true
}

/// Whether `a` and `b` hold the same characters.
pub fn same(a: &[char], b: &[char]) -> (r: bool)
    ensures
        r == (a@ == b@),
{
    if a.len() != b.len() {
        return false;
    }
    let r = stands_at(a, b, 0);
    assert(a@.subrange(0, a@.len() as int) =~= a@);
    r
}

/// Looks in `s`, from `from` on, for the first place at which `pat` stands.
pub fn find(s: &[char], pat: &[char], from: usize) -> (at: usize)
    ensures
        at == first_occurrence(s@, pat@, from as int),
{
    let mut at: usize = from;
    while at < s.len() && pat.len() <= s.len() - at
        invariant
            from <= at,
            first_occurrence(s@, pat@, at as int) == first_occurrence(s@, pat@, from as int),
        decreases s.len() - at,
    {
        if stands_at(s, pat, at) {
            return at;
        }
        at = at + 1;
    }
    s.len()
}

} // verus!
