//! Laws that relate the construction routines across calls and inputs.

use vstd::prelude::*;
use crate::fill::{
    all_ok, all_some, absent_first_at, can_produce_at, can_succeed_at, fails_first_at, fill_err,
    fill_none, fill_ok, fill_some, ok_values, some_values,
};

verus! {

/// A constructor that can never fail builds the whole slice: every outcome
/// that the contract of `alloc_slice_fill_with_result` admits for it is a
/// success, and the slice records a possible value of the constructor at
/// every index.
pub proof fn lemma_never_failing_fill_ok<T, E, F: Fn(usize) -> Result<T, E>>(
    f: F,
    len: usize,
    r: Result<Seq<T>, E>,
)
    requires
        forall|i: usize, out: Result<T, E>|
            i < len && #[trigger] call_ensures(f, (i,), out) ==> out is Ok,
        (r matches Ok(s) && fill_ok(f, len, s)) || (r matches Err(e) && fill_err(f, len, e)),
    ensures
        r is Ok,
        fill_ok(f, len, r->Ok_0),
{
    if r is Err {
        let e = r->Err_0;
        let k = choose|k: usize|
            {
                &&& k < len
                &&& #[trigger] call_ensures(f, (k,), Err::<T, E>(e))
                &&& forall|j: usize| j < k ==> #[trigger] can_succeed_at(f, j)
            };
        assert(call_ensures(f, (k,), Err::<T, E>(e)));
    }
}

/// A constructor that can never come up empty builds the whole slice: every
/// outcome that the contract of `alloc_slice_fill_with_option` admits for it
/// is a success, and the slice records a possible value of the constructor
/// at every index.
pub proof fn lemma_never_absent_fill_some<T, F: Fn(usize) -> Option<T>>(
    f: F,
    len: usize,
    r: Option<Seq<T>>,
)
    requires
        forall|i: usize, out: Option<T>|
            i < len && #[trigger] call_ensures(f, (i,), out) ==> out is Some,
        (r matches Some(s) && fill_some(f, len, s)) || (r is None && fill_none(f, len)),
    ensures
        r is Some,
        fill_some(f, len, r->Some_0),
{
    if r is None {
        let k = choose|k: usize|
            {
                &&& k < len
                &&& #[trigger] call_ensures(f, (k,), None::<T>)
                &&& forall|j: usize| j < k ==> #[trigger] can_produce_at(f, j)
            };
        assert(call_ensures(f, (k,), None::<T>));
    }
}

/// The first failure of a sequence stands at one position only and carries
/// one payload only: both are determined by the sequence itself.
pub proof fn lemma_first_failure_unique<T, E>(
    items: Seq<Result<T, E>>,
    k1: int,
    e1: E,
    k2: int,
    e2: E,
)
    requires
        fails_first_at(items, k1, e1),
        fails_first_at(items, k2, e2),
    ensures
        k1 == k2,
        e1 == e2,
{
    if k1 < k2 {
        assert(items[k1] is Ok);
    }
    if k2 < k1 {
        assert(items[k2] is Ok);
    }
    assert(items[k1] == Err::<T, E>(e1));
    assert(items[k1] == Err::<T, E>(e2));
}

/// The first absence of a sequence stands at one position only: it is
/// determined by the sequence itself.
pub proof fn lemma_first_absence_unique<T>(items: Seq<Option<T>>, k1: int, k2: int)
    requires
        absent_first_at(items, k1),
        absent_first_at(items, k2),
    ensures
        k1 == k2,
{
    if k1 < k2 {
        assert(items[k1] is Some);
    }
    if k2 < k1 {
        assert(items[k2] is Some);
    }
}

/// Round trip: a source made of successes only is reproduced exactly, in
/// order, with no reordering, duplication or omission, by the slice that
/// `alloc_slice_fill_iter_result` builds from it.
pub proof fn lemma_iter_result_round_trip<T, E>(vs: Seq<T>)
    ensures
        all_ok(vs.map_values(|v: T| Ok::<T, E>(v))),
        ok_values(vs.map_values(|v: T| Ok::<T, E>(v))) == vs,
{
    assert(ok_values(vs.map_values(|v: T| Ok::<T, E>(v))) =~= vs);
}

/// Round trip: a source made of present values only is reproduced exactly,
/// in order, with no reordering, duplication or omission, by the slice that
/// `alloc_slice_fill_iter_option` builds from it.
pub proof fn lemma_iter_option_round_trip<T>(vs: Seq<T>)
    ensures
        all_some(vs.map_values(|v: T| Some::<T>(v))),
        some_values(vs.map_values(|v: T| Some::<T>(v))) == vs,
{
    assert(some_values(vs.map_values(|v: T| Some::<T>(v))) =~= vs);
}

} // verus!
