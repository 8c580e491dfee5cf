use vstd::prelude::*;
use vstd::std_specs::iter::IteratorSpec;

verus! {

/// The characters of the text, in order.
pub fn chars_of(s: &str) -> (r: Vec<char>)
    ensures
        r@ == s@,
{
    broadcast use vstd::string::group_string_axioms, vstd::string::next_postcondition;
    let mut it = s.chars();
    let mut out: Vec<char> = Vec::new();
    loop
        invariant
            out@ + it.remaining() == s@,
            it.obeys_prophetic_iter_laws(),
            it.decrease() is Some,
        decreases it.decrease()->0,
    {
        match it.next() {
            Some(c) => {
                out.push(c);
                assert(out@ + it.remaining() =~= s@);
            },
            None => {
                assert(out@ =~= s@);
                return out;
            },
        }
    }
}

/// Relies on `String: FromIterator<char>`: the text made of these characters, in order.
#[verifier::external_body]
pub(crate) fn string_of(v: &[char]) -> (r: String)
    ensures
        r@ == v@,
{
    v.iter().collect()
}

/// Position of the first `c` at or after `from`, or -1 when there is none.
pub open spec fn find_char_from(s: Seq<char>, c: char, from: int) -> int
    decreases s.len() - from,
{
    if from < 0 || from >= s.len() {
        -1
    } else if s[from] == c {
        from
    } else {
        find_char_from(s, c, from + 1)
    }
}

/// Position of the last `c` before `to`, or -1 when there is none.
pub open spec fn rfind_char_before(s: Seq<char>, c: char, to: int) -> int
    decreases to,
{
    if to <= 0 || to > s.len() {
        -1
    } else if s[to - 1] == c {
        to - 1
    } else {
        rfind_char_before(s, c, to - 1)
    }
}

pub proof fn lemma_find_char_range(s: Seq<char>, c: char, from: int)
    ensures
        find_char_from(s, c, from) == -1 || (from <= find_char_from(s, c, from) < s.len()
            && s[find_char_from(s, c, from)] == c),
    decreases s.len() - from,
{
    if 0 <= from < s.len() && s[from] != c {
        lemma_find_char_range(s, c, from + 1);
    }
}

pub proof fn lemma_rfind_char_range(s: Seq<char>, c: char, to: int)
    ensures
        rfind_char_before(s, c, to) == -1 || (0 <= rfind_char_before(s, c, to) < to
            && s[rfind_char_before(s, c, to)] == c),
    decreases to,
{
    if 0 < to <= s.len() && s[to - 1] != c {
        lemma_rfind_char_range(s, c, to - 1);
    }
}

/// Finds the first `c` in `s` at or after `from`.
pub fn find_char(s: &Vec<char>, c: char, from: usize) -> (r: Option<usize>)
    ensures
        match r {
            Some(i) => find_char_from(s@, c, from as int) == i as int,
            None => find_char_from(s@, c, from as int) == -1,
        },
{
    let mut i = from;
    if i >= s.len() {
        return None;
    }
    while i < s.len()
        invariant
            from <= i <= s.len(),
            find_char_from(s@, c, from as int) == find_char_from(s@, c, i as int),
        decreases s.len() - i,
    {
        if s[i] == c {
            return Some(i);
        }
        i = i + 1;
    }
    None
}

/// Finds the last `c` in `s` before `to`.
pub fn rfind_char(s: &Vec<char>, c: char, to: usize) -> (r: Option<usize>)
    ensures
        match r {
            Some(i) => rfind_char_before(s@, c, to as int) == i as int,
            None => rfind_char_before(s@, c, to as int) == -1,
        },
{
    if to > s.len() {
        return None;
    }
    let mut i = to;
    while i > 0
        invariant
            i <= to <= s.len(),
            rfind_char_before(s@, c, to as int) == rfind_char_before(s@, c, i as int),
        decreases i,
    {
        if s[i - 1] == c {
            return Some(i - 1);
        }
        i = i - 1;
    }
    None
}

/// The characters of `s` from `from` up to `to`, as a `String`.
pub fn slice_string(s: &Vec<char>, from: usize, to: usize) -> (r: String)
    requires
        from <= to <= s.len(),
    ensures
        r@ == s@.subrange(from as int, to as int),
{
    let mut part: Vec<char> = Vec::new();
    let mut i = from;
    while i < to
        invariant
            from <= i <= to <= s.len(),
            part@ == s@.subrange(from as int, i as int),
        decreases to - i,
    {
        part.push(s[i]);
        i = i + 1;
        assert(part@ =~= s@.subrange(from as int, i as int));
    }
    string_of(part.as_slice())
}

/// Whether `s` ends with `suffix`.
pub open spec fn ends_with(s: Seq<char>, suffix: Seq<char>) -> bool {
    suffix.len() <= s.len() && s.subrange(s.len() - suffix.len(), s.len() as int) == suffix
}

/// Whether `s` begins with `prefix`.
pub open spec fn starts_with(s: Seq<char>, prefix: Seq<char>) -> bool {
    prefix.len() <= s.len() && s.subrange(0, prefix.len() as int) == prefix
}

/// Whether `pat` occurs in `s` at position `at`.
pub open spec fn occurs_at(s: Seq<char>, pat: Seq<char>, at: int) -> bool {
    0 <= at && at + pat.len() <= s.len() && s.subrange(at, at + pat.len()) == pat
}

/// Whether the characters of `s` from `at` equal those of `pat`.
pub fn matches_at(s: &Vec<char>, pat: &Vec<char>, at: usize) -> (r: bool)
    ensures
        r == occurs_at(s@, pat@, at as int),
{
    if at > s.len() || pat.len() > s.len() - at {
        return false;
    }
    let mut k: usize = 0;
    while k < pat.len()
        invariant
            at + pat.len() <= s.len(),
            k <= pat.len(),
            forall|j: int| 0 <= j < k ==> s@[at + j] == pat@[j],
        decreases pat.len() - k,
    {
        if s[at + k] != pat[k] {
            assert(s@.subrange(at as int, at + pat.len())[k as int] != pat@[k as int]);
            return false;
        }
        k = k + 1;
    }
    assert(s@.subrange(at as int, at + pat.len()) =~= pat@);
    true
}

/// Whether `s` ends with `suffix`.
pub fn has_suffix(s: &Vec<char>, suffix: &Vec<char>) -> (r: bool)
    ensures
        r == ends_with(s@, suffix@),
{
    if suffix.len() > s.len() {
        return false;
    }
    matches_at(s, suffix, s.len() - suffix.len())
}

} // verus!

verus! {

pub proof fn lemma_rfind_char_at_least(s: Seq<char>, c: char, i: int, to: int)
    requires
        0 <= i < to <= s.len(),
        s[i] == c,
    ensures
        i <= rfind_char_before(s, c, to) < to,
    decreases to,
{
    if s[to - 1] != c {
        lemma_rfind_char_at_least(s, c, i, to - 1);
    }
}

} // verus!

verus! {

/// Two texts that agree before `k` have the same first `c` from `from` where one
/// of them has it before `k`; else both look on from `k`.
pub proof fn lemma_find_char_agree(s1: Seq<char>, s2: Seq<char>, c: char, from: int, k: int)
    requires
        0 <= from <= k,
        k <= s1.len(),
        k <= s2.len(),
        forall|i: int| 0 <= i < k ==> s1[i] == s2[i],
    ensures
        from <= find_char_from(s1, c, from) < k ==> find_char_from(s2, c, from) == find_char_from(s1, c, from),
        !(from <= find_char_from(s1, c, from) < k) ==> find_char_from(s1, c, from) == find_char_from(s1, c, k)
            && find_char_from(s2, c, from) == find_char_from(s2, c, k),
    decreases k - from,
{
    if from < k {
        assert(s1[from] == s2[from]);
        lemma_find_char_range(s1, c, from + 1);
        lemma_find_char_agree(s1, s2, c, from + 1, k);
    }
}

/// The last `c` before `to` is at `j` when nothing after `j` before `to` is a `c`.
pub proof fn lemma_rfind_char_is(s: Seq<char>, c: char, j: int, to: int)
    requires
        0 <= j < to <= s.len(),
        s[j] == c,
        forall|i: int| j < i < to ==> s[i] != c,
    ensures
        rfind_char_before(s, c, to) == j,
    decreases to - j,
{
    if to - 1 > j {
        lemma_rfind_char_is(s, c, j, to - 1);
    }
}

/// The first `c` from `from` is at `j` when nothing from `from` before `j` is a `c`.
pub proof fn lemma_find_char_is(s: Seq<char>, c: char, from: int, j: int)
    requires
        0 <= from <= j < s.len(),
        s[j] == c,
        forall|i: int| from <= i < j ==> s[i] != c,
    ensures
        find_char_from(s, c, from) == j,
    decreases j - from,
{
    if from < j {
        lemma_find_char_is(s, c, from + 1, j);
    }
}

/// No `c` from `from` on gives -1.
pub proof fn lemma_find_char_none(s: Seq<char>, c: char, from: int)
    requires
        0 <= from,
        forall|i: int| from <= i < s.len() ==> s[i] != c,
    ensures
        find_char_from(s, c, from) == -1,
    decreases s.len() - from,
{
    if from < s.len() {
        lemma_find_char_none(s, c, from + 1);
    }
}

} // verus!
