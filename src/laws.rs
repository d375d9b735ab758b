//! Facts that relate the store's operations to one another.
use vstd::prelude::*;
use crate::store::{
    delete_outcome, first_with_path, has_name, has_path, index_of_name, is_first_with_path,
    names_distinct, resolve_outcome, set_outcome, ErrorKind, ErrorModel, PointModel,
};
use crate::text::{listing_text, EMPTY_HINT};

verus! {

/// Adding a point under a fresh name keeps the names distinct, and the new
/// point sits last.
proof fn lemma_push_fresh(s: Seq<PointModel>, n: Seq<char>, d: Seq<char>)
    requires
        names_distinct(s),
        !has_name(s, n),
    ensures
        names_distinct(s.push((n, d))),
        index_of_name(s.push((n, d)), n) == s.len(),
{
    let t = s.push((n, d));
    assert forall|i: int, j: int|
        0 <= i < t.len() && 0 <= j < t.len() && i != j implies #[trigger] t[i].0
        != #[trigger] t[j].0 by {
        if i < s.len() && j < s.len() {
            assert(s[i].0 != s[j].0);
        } else if i < s.len() {
            assert(s[i].0 != n);
        } else {
            assert(s[j].0 != n);
        }
    }
    assert(t[s.len() as int].0 == n);
    assert(has_name(t, n));
    let k = index_of_name(t, n);
    assert(t[k].0 == n);
}

/// Creating a point and then resolving its name gives back exactly the path
/// the point was made for.
pub proof fn lemma_set_then_resolve(s: Seq<PointModel>, n: Seq<char>, d: Seq<char>)
    requires
        names_distinct(s),
        set_outcome(s, n, d) is Ok,
    ensures
        resolve_outcome(set_outcome(s, n, d)->Ok_0, n) == Ok::<Seq<char>, ErrorModel>(d),
{
    lemma_push_fresh(s, n, d);
    assert(s.push((n, d))[s.len() as int].0 == n);
    assert(has_name(s.push((n, d)), n));
}

/// Creating a second point under a name already in use is refused as
/// `AlreadyExists`, naming the path of the first point, which stays as it was.
pub proof fn lemma_set_same_name_twice(
    s: Seq<PointModel>,
    n: Seq<char>,
    d1: Seq<char>,
    d2: Seq<char>,
)
    requires
        names_distinct(s),
        set_outcome(s, n, d1) is Ok,
    ensures
        ({
            let t = set_outcome(s, n, d1)->Ok_0;
            &&& set_outcome(t, n, d2) == Err::<Seq<PointModel>, ErrorModel>(
                ErrorModel::NameTaken { name: n, existing_path: d1 },
            )
            &&& set_outcome(t, n, d2)->Err_0.kind() == ErrorKind::AlreadyExists
            &&& resolve_outcome(t, n) == Ok::<Seq<char>, ErrorModel>(d1)
        }),
{
    lemma_set_then_resolve(s, n, d1);
}

/// Creating a second point for the same path under another, unused name is
/// refused as `AlreadyExists`, naming the first point.
pub proof fn lemma_set_same_path_twice(
    s: Seq<PointModel>,
    n1: Seq<char>,
    n2: Seq<char>,
    d: Seq<char>,
)
    requires
        names_distinct(s),
        set_outcome(s, n1, d) is Ok,
        n1 != n2,
        !has_name(s, n2),
    ensures
        ({
            let t = set_outcome(s, n1, d)->Ok_0;
            &&& set_outcome(t, n2, d) == Err::<Seq<PointModel>, ErrorModel>(
                ErrorModel::PathTaken { path: d, existing_name: n1 },
            )
            &&& set_outcome(t, n2, d)->Err_0.kind() == ErrorKind::AlreadyExists
        }),
{
    let t = s.push((n1, d));
    assert(!has_name(t, n2)) by {
        if has_name(t, n2) {
            let i = choose|i: int| 0 <= i < t.len() && #[trigger] t[i].0 == n2;
            if i < s.len() {
                assert(s[i].0 == n2);
            }
        }
    }
    let k = s.len() as int;
    assert(t[k].1 == d);
    assert(is_first_with_path(t, d, k)) by {
        assert forall|j: int| 0 <= j < k implies #[trigger] t[j].1 != d by {
            assert(s[j].1 != d);
        }
    }
    assert(has_path(t, d));
    let f = first_with_path(t, d);
    assert(is_first_with_path(t, d, f));
    if f < k {
        assert(t[f].1 != d);
    }
}

/// Deleting a name that no point has is refused as `NotFound`.
pub proof fn lemma_delete_missing(s: Seq<PointModel>, n: Seq<char>)
    requires
        !has_name(s, n),
    ensures
        delete_outcome(s, n) == Err::<Seq<PointModel>, ErrorModel>(ErrorModel::NotFound { name: n }),
        delete_outcome(s, n)->Err_0.kind() == ErrorKind::NotFound,
{
}

/// Once every point is deleted, a listing prints the hint that there are none.
pub proof fn lemma_cleared_store_lists_hint()
    ensures
        listing_text(Seq::<PointModel>::empty()) == EMPTY_HINT@ + "\n"@,
{
}

} // verus!
