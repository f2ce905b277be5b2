//! Filename allocation: derives a collision-free output name from an
//! identifier and a snapshot of the target directory's contents.

use vstd::prelude::*;
use vstd::seq_lib::*;
use vstd::set_lib::{lemma_int_range, lemma_len_subset, set_int_range};
use crate::numeral::{lemma_decimal_injective, lemma_decimal_len, spec_decimal};
use crate::text::{sanitize, spec_sanitize};

verus! {

/// Candidate number `n` for a stem: `<stem>.png` for 0, `<stem>_<n>.png` for
/// the collision suffixes, which start at 1 and increase by 1 without bound.
pub open spec fn spec_candidate(stem: Seq<char>, n: nat) -> Seq<char> {
    if n == 0 {
        stem + ".png"@
    } else {
        stem + "_"@ + spec_decimal(n) + ".png"@
    }
}

/// Whether `name` is present in the directory snapshot `existing`.
pub open spec fn taken(existing: Seq<Seq<char>>, name: Seq<char>) -> bool {
    exists|i: int| 0 <= i < existing.len() && existing[i] == name
}

/// `name` is the allocation for `stem` against `existing`: it is candidate
/// `n`, it is free, and every earlier candidate is taken.
pub open spec fn is_allocation(
    existing: Seq<Seq<char>>,
    stem: Seq<char>,
    name: Seq<char>,
    n: nat,
) -> bool {
    &&& name == spec_candidate(stem, n)
    &&& !taken(existing, name)
    &&& forall|m: nat| m < n ==> taken(existing, spec_candidate(stem, m))
}

/// Distinct candidate numbers give distinct names for the same stem.
pub proof fn lemma_candidate_injective(stem: Seq<char>, a: nat, b: nat)
    requires
        spec_candidate(stem, a) == spec_candidate(stem, b),
    ensures
        a == b,
{
    reveal_strlit(".png");
    reveal_strlit("_");
    lemma_decimal_len(a);
    lemma_decimal_len(b);
    if a == 0 && b == 0 {
    } else if a == 0 {
        assert(spec_candidate(stem, a).len() == stem.len() + 4);
        assert(spec_candidate(stem, b).len() == stem.len() + 1 + spec_decimal(b).len() + 4);
        assert(false);
    } else if b == 0 {
        assert(spec_candidate(stem, b).len() == stem.len() + 4);
        assert(spec_candidate(stem, a).len() == stem.len() + 1 + spec_decimal(a).len() + 4);
        assert(false);
    } else {
        let da = spec_decimal(a);
        let db = spec_decimal(b);
        assert(spec_candidate(stem, a).len() == stem.len() + 1 + da.len() + 4);
        assert(spec_candidate(stem, b).len() == stem.len() + 1 + db.len() + 4);
        let k = stem.len() as int + 1;
        assert(da =~= spec_candidate(stem, a).subrange(k, k + da.len()));
        assert(db =~= spec_candidate(stem, b).subrange(k, k + db.len()));
        lemma_decimal_injective(a, b);
    }
}

/// If the first `n` candidates are all taken, the directory holds at least
/// `n` entries: the candidates are pairwise distinct, so each needs its own
/// entry. This is what bounds the collision search.
pub proof fn lemma_all_taken_bounds(existing: Seq<Seq<char>>, stem: Seq<char>, n: nat)
    requires
        forall|m: nat| m < n ==> taken(existing, spec_candidate(stem, m)),
    ensures
        n <= existing.len(),
{
    let w = Seq::<int>::new(
        n,
        |m: int|
            choose|i: int| 0 <= i < existing.len() && existing[i] == spec_candidate(stem, m as nat),
    );
    assert forall|m: int| 0 <= m < n implies 0 <= w[m] < existing.len() && existing[w[m]]
        == spec_candidate(stem, m as nat) by {
        assert(taken(existing, spec_candidate(stem, m as nat)));
    };
    assert forall|m1: int, m2: int| 0 <= m1 < m2 < w.len() implies w[m1] != w[m2] by {
        if w[m1] == w[m2] {
            assert(spec_candidate(stem, m1 as nat) == spec_candidate(stem, m2 as nat));
            lemma_candidate_injective(stem, m1 as nat, m2 as nat);
        }
    };
    assert(w.no_duplicates());
    w.unique_seq_to_set();
    assert(w.to_set().subset_of(set_int_range(0, existing.len() as int)));
    lemma_int_range(0, existing.len() as int);
    lemma_len_subset(w.to_set(), set_int_range(0, existing.len() as int));
}

/// Allocation is a function of the directory snapshot and the stem alone:
/// re-querying an unchanged directory yields the same suffix number and the
/// same name.
pub proof fn lemma_allocation_unique(
    existing: Seq<Seq<char>>,
    stem: Seq<char>,
    name1: Seq<char>,
    n1: nat,
    name2: Seq<char>,
    n2: nat,
)
    requires
        is_allocation(existing, stem, name1, n1),
        is_allocation(existing, stem, name2, n2),
    ensures
        n1 == n2,
        name1 == name2,
{
    if n1 < n2 {
        assert(taken(existing, spec_candidate(stem, n1)));
        assert(false);
    }
    if n2 < n1 {
        assert(taken(existing, spec_candidate(stem, n2)));
        assert(false);
    }
}

/// Once an allocated name is actually written into the directory, it is never
/// handed out again: an allocation against the grown directory carries a
/// strictly larger candidate number, so the sequence of allocated names for
/// one stem steps forward through `<stem>.png`, `<stem>_1.png`, ….
pub proof fn lemma_allocation_advances(
    existing: Seq<Seq<char>>,
    stem: Seq<char>,
    name1: Seq<char>,
    n1: nat,
    name2: Seq<char>,
    n2: nat,
)
    requires
        is_allocation(existing, stem, name1, n1),
        is_allocation(existing.push(name1), stem, name2, n2),
    ensures
        n2 > n1,
{
    let grown = existing.push(name1);
    if n2 < n1 {
        assert(taken(existing, spec_candidate(stem, n2)));
        let i = choose|i: int|
            0 <= i < existing.len() && existing[i] == spec_candidate(stem, n2);
        assert(grown[i] == spec_candidate(stem, n2));
        assert(taken(grown, spec_candidate(stem, n2)));
        assert(false);
    }
    if n2 == n1 {
        assert(grown[existing.len() as int] == spec_candidate(stem, n2));
        assert(taken(grown, spec_candidate(stem, n2)));
        assert(false);
    }
}

/// Renders candidate number `n` for a stem.
pub fn make_candidate(stem: &String, n: u64) -> (r: String)
    ensures
        r@ == spec_candidate(stem@, n as nat),
{
    let mut r = stem.clone();
    if n == 0 {
        r.append(".png");
    } else {
        r.append("_");
        let d = crate::numeral::decimal_string(n);
        r.append(d.as_str());
        r.append(".png");
    }
    r
}

/// Whether `name` occurs among the directory entries.
fn contains_name(existing: &Vec<String>, name: &String) -> (r: bool)
    ensures
        r == taken(existing.deep_view(), name@),
{
    let n = existing.len();
    let mut i: usize = 0;
    while i < n
        invariant
            n == existing@.len(),
            i <= n,
            forall|j: int| 0 <= j < i ==> existing.deep_view()[j] != name@,
        decreases n - i,
    {
        if existing[i].eq(name) {
            proof {
                assert(existing.deep_view()[i as int] == name@);
            }
            return true;
        }
        i = i + 1;
    }
    proof {
        assert(!taken(existing.deep_view(), name@));
    }
    false
}

/// Derives the collision-free output file name for `identifier` against the
/// directory snapshot `existing`: the sanitized identifier is the stem, and
/// candidates are tried in strict sequence until one is not present. The
/// check is against a snapshot, not atomic with the later write; the caller
/// owns the check-then-act window this leaves open.
pub fn allocate(existing: &Vec<String>, identifier: &str) -> (r: String)
    requires
        existing@.len() < usize::MAX,
    ensures
        exists|n: nat|
            is_allocation(existing.deep_view(), spec_sanitize(identifier@), r@, n),
{
    let stem = sanitize(identifier);
    let ghost dv = existing.deep_view();
    let mut n: u64 = 0;
    loop
        invariant
            stem@ == spec_sanitize(identifier@),
            dv == existing.deep_view(),
            dv.len() == existing@.len(),
            existing@.len() < usize::MAX,
            n <= dv.len(),
            forall|m: nat| m < n ==> taken(dv, spec_candidate(stem@, m)),
        decreases existing@.len() + 1 - n,
    {
        let name = make_candidate(&stem, n);
        if !contains_name(existing, &name) {
            proof {
                assert(is_allocation(dv, stem@, name@, n as nat));
            }
            return name;
        }
        proof {
            assert(forall|m: nat| m < n + 1 ==> taken(dv, spec_candidate(stem@, m)));
            lemma_all_taken_bounds(dv, stem@, (n + 1) as nat);
        }
        n = n + 1;
    }
}

} // verus!
