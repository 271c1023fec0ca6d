//! Small string utilities shared by the pages.
use vstd::prelude::*;

verus! {

/// The abstract contents of a list of strings.
pub open spec fn strings_view(v: Seq<String>) -> Seq<Seq<char>> {
    v.map_values(|s: String| s@)
}

/// Whether the list `v` holds a string equal to `s`.
pub fn contains_string(v: &Vec<String>, s: &str) -> (found: bool)
    ensures
        found == strings_view(v@).contains(s@),
{
    let needle = s.to_owned();
    let mut i: usize = 0;
    while i < v.len()
        invariant
            i <= v.len(),
            needle@ == s@,
            forall|k: int| 0 <= k < i ==> v@[k]@ != s@,
        decreases v.len() - i,
    {
        if v[i] == needle {
            assert(strings_view(v@)[i as int] == s@);
            return true;
        }
        i = i + 1;
    }
    assert forall|k: int| 0 <= k < strings_view(v@).len() implies strings_view(v@)[k] != s@ by {
        assert(strings_view(v@)[k] == v@[k]@);
    }
    false
}

/// The first index at or after `start` at which `s` holds `x`, if any.
pub open spec fn first_index_from(s: Seq<Seq<char>>, x: Seq<char>, start: int) -> Option<int>
    decreases s.len() - start,
{
    if start < 0 || start >= s.len() {
        None
    } else if s[start] == x {
        Some(start)
    } else {
        first_index_from(s, x, start + 1)
    }
}

/// The first index at which `s` holds `x`, if any.
pub open spec fn first_index_of(s: Seq<Seq<char>>, x: Seq<char>) -> Option<int> {
    first_index_from(s, x, 0)
}

/// Where `x` is at `i` and nowhere in `start..i`, the search from `start`
/// finds `i`.
pub proof fn lemma_first_index_reaches(s: Seq<Seq<char>>, x: Seq<char>, start: int, i: int)
    requires
        0 <= start <= i < s.len(),
        s[i] == x,
        forall|j: int| start <= j < i ==> s[j] != x,
    ensures
        first_index_from(s, x, start) == Some(i),
    decreases i - start,
{
    if start < i {
        lemma_first_index_reaches(s, x, start + 1, i);
    }
}

/// The position of the first string of `v` equal to `s`, if any.
pub fn position_of_string(v: &Vec<String>, s: &str) -> (pos: Option<usize>)
    ensures
        pos matches Some(p) ==> p < v.len(),
        match pos {
            Some(p) => first_index_of(strings_view(v@), s@) == Some(p as int),
            None => first_index_of(strings_view(v@), s@) is None,
        },
{
    let needle = s.to_owned();
    let ghost sv = strings_view(v@);
    let mut i: usize = 0;
    while i < v.len()
        invariant
            i <= v.len(),
            needle@ == s@,
            sv == strings_view(v@),
            first_index_of(sv, s@) == first_index_from(sv, s@, i as int),
        decreases v.len() - i,
    {
        if v[i] == needle {
            assert(sv[i as int] == s@);
            return Some(i);
        }
        assert(sv[i as int] != s@);
        i = i + 1;
    }
    None
}

/// The search finds the first index that holds `x`: at the index found
/// `s` holds `x` and no earlier index does; when nothing is found, `s`
/// does not hold `x` at all.
pub proof fn lemma_first_index_of_is_first(s: Seq<Seq<char>>, x: Seq<char>)
    ensures
        first_index_of(s, x) matches Some(i) ==> 0 <= i < s.len() && s[i] == x && forall|j: int|
            0 <= j < i ==> s[j] != x,
        first_index_of(s, x) is None ==> !s.contains(x),
{
    lemma_first_index_from_is_first(s, x, 0);
}

proof fn lemma_first_index_from_is_first(s: Seq<Seq<char>>, x: Seq<char>, start: int)
    requires
        0 <= start,
    ensures
        first_index_from(s, x, start) matches Some(i) ==> start <= i < s.len() && s[i] == x
            && forall|j: int| start <= j < i ==> s[j] != x,
        first_index_from(s, x, start) is None ==> forall|j: int| start <= j < s.len() ==> s[j] != x,
    decreases s.len() - start,
{
    if start < s.len() && s[start] != x {
        lemma_first_index_from_is_first(s, x, start + 1);
    }
}

} // verus!
