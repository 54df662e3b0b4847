//! The rows of the process and application pages.
//!
//! The rows shown are the entries of the sorted list that match the search,
//! in list order. They are written over the previous rows in place: a row
//! is replaced only when it differs from the entry now at its position, new
//! rows are appended, and rows past the end are dropped.

use vstd::prelude::*;
use vstd::std_specs::cmp::PartialEqSpec;

verus! {

/// The entries of `items[..n]` whose `keep` flag is set, in order.
pub open spec fn kept_prefix<P>(items: Seq<P>, keep: Seq<bool>, n: int) -> Seq<P>
    decreases n,
{
    if n <= 0 {
        Seq::empty()
    } else if keep[n - 1] {
        kept_prefix(items, keep, n - 1).push(items[n - 1])
    } else {
        kept_prefix(items, keep, n - 1)
    }
}

/// The entries of `items` whose `keep` flag is set, in order.
pub open spec fn kept_items<P>(items: Seq<P>, keep: Seq<bool>) -> Seq<P> {
    kept_prefix(items, keep, items.len() as int)
}

proof fn lemma_kept_prefix_len<P>(items: Seq<P>, keep: Seq<bool>, n: int)
    requires
        0 <= n,
    ensures
        kept_prefix(items, keep, n).len() <= n,
    decreases n,
{
    if n > 0 {
        lemma_kept_prefix_len(items, keep, n - 1);
    }
}

/// Row `k` of `after` is the previous row of `before` or a clone of `target[k]`.
pub open spec fn row_from<P: Clone>(before: Seq<P>, after: Seq<P>, target: Seq<P>, k: int) -> bool {
    (k < before.len() && after[k] == before[k]) || cloned(target[k], after[k])
}

/// Row `k` was kept exactly when `==` reports the previous row equal to `target[k]`,
/// and otherwise replaced by a clone of `target[k]`.
pub open spec fn row_rule<P: PartialEq + Clone>(
    before: Seq<P>,
    after: Seq<P>,
    target: Seq<P>,
    k: int,
) -> bool {
    if k < before.len() && before[k].eq_spec(&target[k]) {
        after[k] == before[k]
    } else {
        cloned(target[k], after[k])
    }
}

/// The first `n` rows of `after` were refreshed from `before` towards `target`.
pub open spec fn rows_refreshed<P: PartialEq + Clone>(
    before: Seq<P>,
    after: Seq<P>,
    target: Seq<P>,
    n: int,
) -> bool {
    &&& forall|k: int| 0 <= k < n ==> #[trigger] row_from(before, after, target, k)
    &&& P::obeys_eq_spec() ==> forall|k: int| 0 <= k < n ==> #[trigger] row_rule(before, after, target, k)
}

/// Makes `content` hold the kept entries of `items`: position `k` ends up
/// with a clone of the `k`-th kept entry, unless its previous row compares
/// equal (`==`) to that entry, in which case the previous row stays.
pub fn refresh_content<P: PartialEq + Clone>(content: &mut Vec<P>, items: &Vec<P>, keep: &Vec<bool>)
    requires
        keep.len() == items.len(),
    ensures
        final(content)@.len() == kept_items(items@, keep@).len(),
        rows_refreshed(
            old(content)@,
            final(content)@,
            kept_items(items@, keep@),
            final(content)@.len() as int,
        ),
{
    let ghost orig = content@;
    let n = items.len();
    let mut i: usize = 0;
    let mut j: usize = 0;
    while j < n
        invariant
            n == items.len(),
            keep.len() == items.len(),
            j <= n,
            i as int == kept_prefix(items@, keep@, j as int).len(),
            i <= j,
            content@.len() == if orig.len() > i {
                orig.len()
            } else {
                i as nat
            },
            forall|k: int| i <= k < content@.len() ==> #[trigger] content@[k] == orig[k],
            rows_refreshed(orig, content@, kept_prefix(items@, keep@, j as int), i as int),
        decreases n - j,
    {
        let ghost prev = kept_prefix(items@, keep@, j as int);
        let ghost before = content@;
        proof {
            lemma_kept_prefix_len(items@, keep@, j as int);
        }
        if keep[j] {
            let ghost next = prev.push(items@[j as int]);
            assert(kept_prefix(items@, keep@, j + 1) == next);
            if i >= content.len() {
                content.push(items[j].clone());
            } else if content[i] != items[j] {
                content.set(i, items[j].clone());
            }
            proof {
                assert forall|k: int| 0 <= k < i + 1 implies #[trigger] row_from(
                    orig,
                    content@,
                    next,
                    k,
                ) by {
                    if k < i {
                        assert(row_from(orig, before, prev, k));
                    }
                }
                if P::obeys_eq_spec() {
                    assert forall|k: int| 0 <= k < i + 1 implies #[trigger] row_rule(
                        orig,
                        content@,
                        next,
                        k,
                    ) by {
                        if k < i {
                            assert(row_rule(orig, before, prev, k));
                        }
                    }
                }
            }
            i = i + 1;
        } else {
            assert(kept_prefix(items@, keep@, j + 1) == prev);
        }
        j = j + 1;
    }
    let ghost pre = content@;
    let ghost target = kept_items(items@, keep@);
    content.truncate(i);
    proof {
        assert(target == kept_prefix(items@, keep@, j as int));
        assert forall|k: int| 0 <= k < i implies #[trigger] row_from(orig, content@, target, k) by {
            assert(content@[k] == pre[k]);
            assert(row_from(orig, pre, target, k));
        }
        if P::obeys_eq_spec() {
            assert forall|k: int| 0 <= k < i implies #[trigger] row_rule(orig, content@, target, k) by {
                assert(content@[k] == pre[k]);
                assert(row_rule(orig, pre, target, k));
            }
        }
    }
}

/// When `==` and `clone` of the entries are exact (equal entries are the
/// same value, and a clone is the value itself), the refreshed rows are
/// exactly the kept entries of the list.
pub proof fn refreshed_rows_are_kept_items<P: PartialEq + Clone>(
    before: Seq<P>,
    after: Seq<P>,
    target: Seq<P>,
)
    requires
        after.len() == target.len(),
        rows_refreshed(before, after, target, after.len() as int),
        P::obeys_eq_spec(),
        forall|a: P, b: P| #[trigger] a.eq_spec(&b) ==> a == b,
        forall|a: P, b: P| #[trigger] cloned(a, b) ==> a == b,
    ensures
        after == target,
{
    assert forall|k: int| 0 <= k < after.len() implies after[k] == target[k] by {
        assert(row_rule(before, after, target, k));
        if k < before.len() && before[k].eq_spec(&target[k]) {
            assert(before[k] == target[k]);
        } else {
            assert(cloned(target[k], after[k]));
        }
    }
    assert(after =~= target);
}

/// When `==` and `clone` of the entries are exact, refreshing the rows a
/// second time from the same entries and flags changes nothing: the rows
/// after two refreshes are the rows after one.
pub proof fn refreshing_twice_is_refreshing_once<P: PartialEq + Clone>(
    before: Seq<P>,
    once: Seq<P>,
    twice: Seq<P>,
    items: Seq<P>,
    keep: Seq<bool>,
)
    requires
        once.len() == kept_items(items, keep).len(),
        rows_refreshed(before, once, kept_items(items, keep), once.len() as int),
        twice.len() == kept_items(items, keep).len(),
        rows_refreshed(once, twice, kept_items(items, keep), twice.len() as int),
        P::obeys_eq_spec(),
        forall|a: P, b: P| #[trigger] a.eq_spec(&b) ==> a == b,
        forall|a: P, b: P| #[trigger] cloned(a, b) ==> a == b,
    ensures
        twice == once,
        once == kept_items(items, keep),
{
    refreshed_rows_are_kept_items(before, once, kept_items(items, keep));
    refreshed_rows_are_kept_items(once, twice, kept_items(items, keep));
}

} // verus!
