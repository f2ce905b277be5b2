//! The loaded item list: turning sheet rows into test items.

use vstd::prelude::*;
use crate::text::{spec_trim, trim};

verus! {

/// One entry of the item source: a test-case code and its description. The
/// orchestrator consumes only the selected entry's code, as the capture
/// identifier.
#[derive(Clone, Debug, PartialEq, Eq)]
pub struct TestItem {
    pub code: String,
    pub description: String,
}

/// The items a row sequence yields, as (code, description) pairs: each row's
/// first cell trimmed is its code, rows whose code trims to nothing are
/// dropped, descriptions are kept as they are.
pub open spec fn spec_items_of(rows: Seq<(String, String)>) -> Seq<(Seq<char>, Seq<char>)>
    decreases rows.len(),
{
    if rows.len() == 0 {
        Seq::empty()
    } else {
        let code = spec_trim(rows[0].0@);
        let rest = spec_items_of(rows.drop_first());
        if code.len() == 0 {
            rest
        } else {
            seq![(code, rows[0].1@)] + rest
        }
    }
}

/// The item list of a whole sheet: the first row is the header and yields no
/// item; the rows after it yield items per `spec_items_of`.
pub open spec fn spec_sheet_items(rows: Seq<(String, String)>) -> Seq<(Seq<char>, Seq<char>)> {
    if rows.len() == 0 {
        Seq::empty()
    } else {
        spec_items_of(rows.drop_first())
    }
}

/// Splitting a row sequence splits its items.
pub proof fn lemma_items_of_concat(a: Seq<(String, String)>, b: Seq<(String, String)>)
    ensures
        spec_items_of(a + b) == spec_items_of(a) + spec_items_of(b),
    decreases a.len(),
{
    if a.len() == 0 {
        assert(a + b =~= b);
        assert(spec_items_of(a) + spec_items_of(b) =~= spec_items_of(b));
    } else {
        assert((a + b).drop_first() =~= a.drop_first() + b);
        assert((a + b)[0] == a[0]);
        lemma_items_of_concat(a.drop_first(), b);
        let head = seq![(spec_trim(a[0].0@), a[0].1@)];
        assert(head + (spec_items_of(a.drop_first()) + spec_items_of(b)) =~= (head
            + spec_items_of(a.drop_first())) + spec_items_of(b));
    }
}

/// Builds the item list from a sheet's rows, exactly as `spec_sheet_items`
/// states it.
pub fn parse_rows(rows: &Vec<(String, String)>) -> (r: Vec<TestItem>)
    ensures
        r@.len() == spec_sheet_items(rows@).len(),
        forall|i: int|
            0 <= i < r@.len() ==> r@[i].code@ == spec_sheet_items(rows@)[i].0 && r@[i].description@
                == spec_sheet_items(rows@)[i].1,
{
    let mut items: Vec<TestItem> = Vec::new();
    let n = rows.len();
    if n == 0 {
        return items;
    }
    let mut i: usize = 1;
    while i < n
        invariant
            1 <= i <= n,
            n == rows@.len(),
            items@.len() == spec_items_of(rows@.subrange(1, i as int)).len(),
            forall|k: int|
                0 <= k < items@.len() ==> items@[k].code@ == spec_items_of(
                    rows@.subrange(1, i as int),
                )[k].0 && items@[k].description@ == spec_items_of(rows@.subrange(1, i as int))[k].1,
        decreases n - i,
    {
        let row = &rows[i];
        let code = trim(row.0.as_str());
        let ghost prefix = rows@.subrange(1, i as int);
        let ghost single = seq![rows@[i as int]];
        proof {
            assert(rows@.subrange(1, i + 1) =~= prefix + single);
            lemma_items_of_concat(prefix, single);
            assert(single.drop_first() =~= Seq::<(String, String)>::empty());
            assert(single[0] == rows@[i as int]);
            assert(spec_items_of(Seq::<(String, String)>::empty()) == Seq::<(
                Seq<char>,
                Seq<char>,
            )>::empty());
            if spec_trim(rows@[i as int].0@).len() > 0 {
                assert(spec_items_of(single) =~= seq![
                    (spec_trim(rows@[i as int].0@), rows@[i as int].1@),
                ]);
            } else {
                assert(spec_items_of(single) =~= Seq::<(Seq<char>, Seq<char>)>::empty());
            }
        }
        if code.unicode_len() > 0 {
            let description = row.1.clone();
            items.push(TestItem { code, description });
        }
        proof {
            assert(spec_items_of(rows@.subrange(1, i + 1)) =~= spec_items_of(prefix)
                + spec_items_of(single));
        }
        i = i + 1;
    }
    proof {
        assert(rows@.subrange(1, n as int) =~= rows@.drop_first());
    }
    items
}

} // verus!
