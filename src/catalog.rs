use vstd::prelude::*;

use crate::text::{ci_eq, eq_ignore_ascii_case, is_white_space, lower_code, trim_end, trim_start, trimmed};

verus! {

/// The views of a sequence of string slices.
pub open spec fn str_views(v: Seq<&str>) -> Seq<Seq<char>> {
    Seq::new(v.len(), |i: int| v[i]@)
}

/// A closed vocabulary of named values in a fixed declaration order.
///
/// Each entry has one or more accepted spellings; the first is its display name.
pub trait Catalog: Sized {
    /// Number of entries.
    spec fn spec_count() -> nat;

    /// The entry at position `i` of the declaration order.
    spec fn spec_entry(i: int) -> Self;

    /// The accepted spellings of this entry, display name first.
    spec fn spec_names(&self) -> Seq<Seq<char>>;

    /// Whether spellings are compared without regard to ASCII case.
    spec fn spec_ignores_case() -> bool;

    fn count() -> (r: usize)
        ensures
            r == Self::spec_count(),
    ;

    fn entry(i: usize) -> (r: Self)
        requires
            i < Self::spec_count(),
        ensures
            r == Self::spec_entry(i as int),
    ;

    fn names(&self) -> (r: Vec<&'static str>)
        ensures
            str_views(r@) == self.spec_names(),
    ;

    fn ignores_case() -> (r: bool)
        ensures
            r == Self::spec_ignores_case(),
    ;
}

/// `s` is the spelling `n`, up to ASCII case where the catalog ignores it.
pub open spec fn spelled_as<C: Catalog>(n: Seq<char>, s: Seq<char>) -> bool {
    if C::spec_ignores_case() {
        ci_eq(n, s)
    } else {
        n == s
    }
}

/// One of the spellings of `e` matches `s`.
pub open spec fn entry_matches<C: Catalog>(e: C, s: Seq<char>) -> bool {
    exists|k: int| 0 <= k < e.spec_names().len() && spelled_as::<C>(#[trigger] e.spec_names()[k], s)
}

/// One of the first five spellings of `e` matches `s`.
pub open spec fn first_five_match<C: Catalog>(e: C, s: Seq<char>) -> bool {
    let n = e.spec_names();
    ||| n.len() > 0 && spelled_as::<C>(n[0], s)
    ||| n.len() > 1 && spelled_as::<C>(n[1], s)
    ||| n.len() > 2 && spelled_as::<C>(n[2], s)
    ||| n.len() > 3 && spelled_as::<C>(n[3], s)
    ||| n.len() > 4 && spelled_as::<C>(n[4], s)
}

pub proof fn lemma_first_five_match<C: Catalog>(e: C, s: Seq<char>)
    requires
        e.spec_names().len() <= 5,
    ensures
        entry_matches(e, s) <==> first_five_match(e, s),
{
    if entry_matches(e, s) {
        let k = choose|k: int| 0 <= k < e.spec_names().len() && spelled_as::<C>(#[trigger] e.spec_names()[k], s);
        assert(k == 0 || k == 1 || k == 2 || k == 3 || k == 4);
    }
    if first_five_match(e, s) {
        if e.spec_names().len() > 0 && spelled_as::<C>(e.spec_names()[0], s) {
            assert(spelled_as::<C>(e.spec_names()[0], s));
        } else if e.spec_names().len() > 1 && spelled_as::<C>(e.spec_names()[1], s) {
            assert(spelled_as::<C>(e.spec_names()[1], s));
        } else if e.spec_names().len() > 2 && spelled_as::<C>(e.spec_names()[2], s) {
            assert(spelled_as::<C>(e.spec_names()[2], s));
        } else if e.spec_names().len() > 3 && spelled_as::<C>(e.spec_names()[3], s) {
            assert(spelled_as::<C>(e.spec_names()[3], s));
        } else {
            assert(spelled_as::<C>(e.spec_names()[4], s));
        }
    }
}

/// `i` is the position of the first entry, in declaration order, that `s` names.
pub open spec fn is_first_match<C: Catalog>(i: int, s: Seq<char>) -> bool {
    &&& 0 <= i < C::spec_count()
    &&& entry_matches(C::spec_entry(i), s)
    &&& forall|j: int| 0 <= j < i ==> !entry_matches(#[trigger] C::spec_entry(j), s)
}

/// The position of the first entry that `s` names, if any does.
pub open spec fn first_match<C: Catalog>(s: Seq<char>) -> Option<int> {
    if exists|i: int| is_first_match::<C>(i, s) {
        Some(choose|i: int| is_first_match::<C>(i, s))
    } else {
        None
    }
}

proof fn lemma_first_match_unique<C: Catalog>(i: int, j: int, s: Seq<char>)
    requires
        is_first_match::<C>(i, s),
        is_first_match::<C>(j, s),
    ensures
        i == j,
{
    if i < j {
        assert(!entry_matches(C::spec_entry(i), s));
    } else if j < i {
        assert(!entry_matches(C::spec_entry(j), s));
    }
}

/// The first match is the only entry that `s` names when no other entry shares a spelling with it.
pub proof fn lemma_first_match_of_sole<C: Catalog>(i: int, s: Seq<char>)
    requires
        0 <= i < C::spec_count(),
        entry_matches(C::spec_entry(i), s),
        forall|j: int|
            0 <= j < C::spec_count() && entry_matches(#[trigger] C::spec_entry(j), s) ==> j == i,
    ensures
        first_match::<C>(s) == Some(i),
{
    assert(is_first_match::<C>(i, s));
    let c = choose|c: int| is_first_match::<C>(c, s);
    lemma_first_match_unique::<C>(c, i, s);
}

fn spelled(n: &str, s: &str, ignore_case: bool) -> (r: bool)
    ensures
        r == (if ignore_case {
            ci_eq(n@, s@)
        } else {
            n@ == s@
        }),
{
    if ignore_case {
        eq_ignore_ascii_case(n, s)
    } else {
        let a = String::from_str(n);
        let b = String::from_str(s);
        a == b
    }
}

/// Whether one of the spellings of `e` matches `s`.
pub fn matches_entry<C: Catalog>(e: &C, s: &str) -> (r: bool)
    ensures
        r == entry_matches(*e, s@),
{
    let names = e.names();
    let ignore_case = C::ignores_case();
    let mut k: usize = 0;
    while k < names.len()
        invariant
            str_views(names@) == e.spec_names(),
            ignore_case == C::spec_ignores_case(),
            k <= names@.len(),
            forall|m: int| 0 <= m < k ==> !spelled_as::<C>(#[trigger] e.spec_names()[m], s@),
        decreases names@.len() - k,
    {
        assert(e.spec_names()[k as int] == names@[k as int]@);
        if spelled(names[k], s, ignore_case) {
            return true;
        }
        k += 1;
    }
    false
}

/// The first entry, in declaration order, with a spelling that matches `s`.
pub fn find_entry<C: Catalog>(s: &str) -> (r: Option<C>)
    ensures
        r == (match first_match::<C>(s@) {
            Some(i) => Some(C::spec_entry(i)),
            None => None,
        }),
{
    let n = C::count();
    let mut i: usize = 0;
    while i < n
        invariant
            n == C::spec_count(),
            i <= n,
            forall|j: int| 0 <= j < i ==> !entry_matches(#[trigger] C::spec_entry(j), s@),
        decreases n - i,
    {
        let e = C::entry(i);
        if matches_entry(&e, s) {
            proof {
                assert(is_first_match::<C>(i as int, s@));
                let c = choose|c: int| is_first_match::<C>(c, s@);
                lemma_first_match_unique::<C>(c, i as int, s@);
            }
            return Some(e);
        }
        i += 1;
    }
    proof {
        if exists|c: int| is_first_match::<C>(c, s@) {
            let c = choose|c: int| is_first_match::<C>(c, s@);
            assert(!entry_matches(C::spec_entry(c), s@));
        }
    }
    None
}

/// All entries of a catalog, in declaration order.
pub fn entries<C: Catalog>() -> (r: Vec<C>)
    ensures
        r@.len() == C::spec_count(),
        forall|i: int| 0 <= i < r@.len() ==> r@[i] == C::spec_entry(i),
{
    let n = C::count();
    let mut r: Vec<C> = Vec::new();
    let mut i: usize = 0;
    while i < n
        invariant
            n == C::spec_count(),
            i <= n,
            r@.len() == i,
            forall|j: int| 0 <= j < i ==> r@[j] == C::spec_entry(j),
        decreases n - i,
    {
        r.push(C::entry(i));
        i += 1;
    }
    r
}

/// The display name of an entry: its first spelling.
pub fn display_name<C: Catalog>(e: &C) -> (r: String)
    requires
        e.spec_names().len() > 0,
    ensures
        r@ == e.spec_names()[0],
{
    let names = e.names();
    assert(e.spec_names()[0] == names@[0]@);
    String::from_str(names[0])
}

/// A printable ASCII character other than the space.
pub open spec fn is_graphic_ascii(c: char) -> bool {
    '!' <= c && c <= '~'
}

/// A spelling that starts and ends with a printable ASCII character.
pub open spec fn is_tidy(n: Seq<char>) -> bool {
    n.len() > 0 && is_graphic_ascii(n[0]) && is_graphic_ascii(n.last())
}

/// Text that equals a tidy spelling up to ASCII case is left unchanged by trimming.
pub proof fn lemma_tidy_is_trimmed(n: Seq<char>, s: Seq<char>)
    requires
        is_tidy(n),
        ci_eq(n, s),
    ensures
        trimmed(s) == s,
{
    assert(lower_code(n[0]) == lower_code(s[0]));
    let l = s.len() - 1;
    assert(lower_code(n[l]) == lower_code(s[l]));
    assert(!is_white_space(s[0]));
    assert(trim_start(s) == s);
    assert(!is_white_space(s.last()));
}

} // verus!
