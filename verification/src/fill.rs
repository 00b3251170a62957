//! Fallible, index-driven bulk construction of slices inside a bump arena.
//!
//! The core primitive builds a slice of `len` elements one at a time, in
//! index order, from a per-index constructor that may fail. Construction
//! stops at the first failure, which is returned to the caller unchanged;
//! on success the caller receives an exclusive view of a fully initialized
//! slice that lives as long as the arena.

use vstd::prelude::*;
use crate::arena;

verus! {

/// Every item of the sequence is a success.
pub open spec fn all_ok<T, E>(items: Seq<Result<T, E>>) -> bool {
    forall|i: int| 0 <= i < items.len() ==> items[i] is Ok
}

/// The success values of the sequence, in order.
pub open spec fn ok_values<T, E>(items: Seq<Result<T, E>>) -> Seq<T> {
    items.map_values(|it: Result<T, E>| it->Ok_0)
}

/// Position `k` holds the first failure of the sequence, and it carries `e`.
pub open spec fn fails_first_at<T, E>(items: Seq<Result<T, E>>, k: int, e: E) -> bool {
    &&& 0 <= k < items.len()
    &&& items[k] == Err::<T, E>(e)
    &&& forall|j: int| 0 <= j < k ==> items[j] is Ok
}

/// Some position holds the first failure of the sequence, and it carries `e`.
pub open spec fn fails_with<T, E>(items: Seq<Result<T, E>>, e: E) -> bool {
    exists|k: int| fails_first_at(items, k, e)
}

/// The constructor can succeed at index `j`: some value is among its
/// possible results there.
pub open spec fn can_succeed_at<T, E, F: Fn(usize) -> Result<T, E>>(f: F, j: usize) -> bool {
    exists|v: T| call_ensures(f, (j,), Ok::<T, E>(v))
}

/// The sequence records, index by index, a value that the constructor can
/// produce at that index.
pub open spec fn fill_ok<T, E, F: Fn(usize) -> Result<T, E>>(f: F, len: usize, s: Seq<T>) -> bool {
    &&& s.len() == len
    &&& forall|i: usize| i < len ==> #[trigger] call_ensures(f, (i,), Ok::<T, E>(s[i as int]))
}

/// The constructor can fail with `e` at some index `k` below `len`, and can
/// succeed at every index before `k`.
pub open spec fn fill_err<T, E, F: Fn(usize) -> Result<T, E>>(f: F, len: usize, e: E) -> bool {
    exists|k: usize|
        {
            &&& k < len
            &&& #[trigger] call_ensures(f, (k,), Err::<T, E>(e))
            &&& forall|j: usize| j < k ==> #[trigger] can_succeed_at(f, j)
        }
}

/// Every item of the sequence is present.
pub open spec fn all_some<T>(items: Seq<Option<T>>) -> bool {
    forall|i: int| 0 <= i < items.len() ==> items[i] is Some
}

/// The present values of the sequence, in order.
pub open spec fn some_values<T>(items: Seq<Option<T>>) -> Seq<T> {
    items.map_values(|it: Option<T>| it->Some_0)
}

/// Position `k` holds the first absent item of the sequence.
pub open spec fn absent_first_at<T>(items: Seq<Option<T>>, k: int) -> bool {
    &&& 0 <= k < items.len()
    &&& items[k] is None
    &&& forall|j: int| 0 <= j < k ==> items[j] is Some
}

/// Some position holds the first absent item of the sequence.
pub open spec fn absent_somewhere<T>(items: Seq<Option<T>>) -> bool {
    exists|k: int| absent_first_at(items, k)
}

/// The same signal, with absence written as a failure without payload.
pub open spec fn opt_as_res<T>(o: Option<T>) -> Result<T, ()> {
    match o {
        Option::Some(v) => Ok(v),
        Option::None => Err(()),
    }
}

/// The constructor can produce a value at index `j`.
pub open spec fn can_produce_at<T, F: Fn(usize) -> Option<T>>(f: F, j: usize) -> bool {
    exists|v: T| call_ensures(f, (j,), Some::<T>(v))
}

/// The sequence records, index by index, a value that the constructor can
/// produce at that index.
pub open spec fn fill_some<T, F: Fn(usize) -> Option<T>>(f: F, len: usize, s: Seq<T>) -> bool {
    &&& s.len() == len
    &&& forall|i: usize| i < len ==> #[trigger] call_ensures(f, (i,), Some::<T>(s[i as int]))
}

/// The constructor can come up empty at some index `k` below `len`, and can
/// produce a value at every index before `k`.
pub open spec fn fill_none<T, F: Fn(usize) -> Option<T>>(f: F, len: usize) -> bool {
    exists|k: usize|
        {
            &&& k < len
            &&& #[trigger] call_ensures(f, (k,), None::<T>)
            &&& forall|j: usize| j < k ==> #[trigger] can_produce_at(f, j)
        }
}

/// The core construction routine: builds a slice of `len` elements inside
/// `arena_ref`, calling `f` at each index in increasing order, none past the
/// first failure, which is returned unchanged. Elements constructed before a
/// failure are abandoned without cleanup.
pub fn fill_with_result<T, E, F: Fn(usize) -> Result<T, E>>(
    arena_ref: &bumpalo::Bump,
    len: usize,
    f: F,
) -> (r: Result<&mut [T], E>)
    requires
        forall|i: usize| i < len ==> call_requires(f, (i,)),
    ensures
        r matches Ok(s) ==> fill_ok(f, len, s@),
        r matches Err(e) ==> fill_err(f, len, e),
        len == 0 ==> r is Ok,
{
    let mut out: Vec<T> = Vec::new();
    let mut i: usize = 0;
    while i < len
        invariant
            i <= len,
            out@.len() == i,
            forall|j: usize| j < len ==> call_requires(f, (j,)),
            forall|j: usize| j < i ==> #[trigger] call_ensures(f, (j,), Ok::<T, E>(out@[j as int])),
        decreases len - i,
    {
        match f(i) {
            Ok(v) => out.push(v),
            Err(e) => {
                proof {
                    assert forall|j: usize| j < i implies #[trigger] can_succeed_at(f, j) by {
                        assert(call_ensures(f, (j,), Ok::<T, E>(out@[j as int])));
                    }
                    assert(fill_err(f, len, e));
                }
                arena::abandon_partial(out);
                return Err(e);
            },
        }
        i += 1;
    }
    Ok(arena::arena_slice_of_vec(arena_ref, out))
}

/// The core routine with an absence signal in place of an error payload:
/// builds a slice of `len` elements inside `arena_ref`, calling `f` at each
/// index in increasing order, none past the first absence. Elements
/// constructed before an absence are abandoned without cleanup.
pub fn fill_with_option<T, F: Fn(usize) -> Option<T>>(
    arena_ref: &bumpalo::Bump,
    len: usize,
    f: F,
) -> (r: Option<&mut [T]>)
    requires
        forall|i: usize| i < len ==> call_requires(f, (i,)),
    ensures
        r matches Some(s) ==> fill_some(f, len, s@),
        r is None ==> fill_none(f, len),
        len == 0 ==> r is Some,
{
    let mut out: Vec<T> = Vec::new();
    let mut i: usize = 0;
    while i < len
        invariant
            i <= len,
            out@.len() == i,
            forall|j: usize| j < len ==> call_requires(f, (j,)),
            forall|j: usize| j < i ==> #[trigger] call_ensures(f, (j,), Some::<T>(out@[j as int])),
        decreases len - i,
    {
        match f(i) {
            Some(v) => out.push(v),
            None => {
                proof {
                    assert forall|j: usize| j < i implies #[trigger] can_produce_at(f, j) by {
                        assert(call_ensures(f, (j,), Some::<T>(out@[j as int])));
                    }
                    assert(fill_none(f, len));
                }
                arena::abandon_partial(out);
                return None;
            },
        }
        i += 1;
    }
    Some(arena::arena_slice_of_vec(arena_ref, out))
}

/// The construction routine driven by a sequence of ready outcomes instead
/// of a per-index constructor: one slice element per item, in order,
/// stopping at the first failure, which is returned unchanged. Values met
/// before the first failure are abandoned without cleanup.
pub fn fill_iter_result<T, E>(
    arena_ref: &bumpalo::Bump,
    items: Vec<Result<T, E>>,
) -> (r: Result<&mut [T], E>)
    ensures
        r is Ok <==> all_ok(items@),
        r matches Ok(s) ==> s@ == ok_values(items@),
        r matches Err(e) ==> fails_with(items@, e),
{
    let ghost all = items@;
    let mut rest = items;
    let mut out: Vec<T> = Vec::new();
    while rest.len() > 0
        invariant
            all == items@,
            out@.len() + rest@.len() == all.len(),
            forall|i: int| 0 <= i < out@.len() ==> all[i] == Ok::<T, E>(out@[i]),
            forall|i: int| 0 <= i < rest@.len() ==> rest@[i] == all[out@.len() + i],
        decreases rest@.len(),
    {
        let ghost rest0 = rest@;
        let ghost done = out@.len() as int;
        let head = rest.remove(0);
        proof {
            assert(rest0[0] == all[done]);
        }
        match head {
            Ok(v) => out.push(v),
            Err(e) => {
                proof {
                    assert(fails_first_at(items@, done, e));
                    assert(fails_with(items@, e));
                }
                arena::abandon_partial(out);
                return Err(e);
            },
        }
    }
    proof {
        assert(out@ =~= ok_values(all));
    }
    Ok(arena::arena_slice_of_vec(arena_ref, out))
}

/// The sequence-driven routine with an absence signal: one slice element per
/// present item, in order, stopping at the first absence and returning a
/// bare absence in that case. Values met before the first absence are
/// abandoned without cleanup.
pub fn fill_iter_option<T>(arena_ref: &bumpalo::Bump, items: Vec<Option<T>>) -> (r: Option<&mut [T]>)
    ensures
        r is Some <==> all_some(items@),
        r matches Some(s) ==> s@ == some_values(items@),
        r is None ==> absent_somewhere(items@),
{
    let ghost all = items@;
    let mut rest = items;
    let mut conv: Vec<Result<T, ()>> = Vec::new();
    while rest.len() > 0
        invariant
            all == items@,
            conv@.len() + rest@.len() == all.len(),
            forall|i: int| 0 <= i < conv@.len() ==> conv@[i] == opt_as_res(all[i]),
            forall|i: int| 0 <= i < rest@.len() ==> rest@[i] == all[conv@.len() + i],
        decreases rest@.len(),
    {
        let ghost rest0 = rest@;
        let ghost done = conv@.len() as int;
        let head = rest.remove(0);
        proof {
            assert(rest0[0] == all[done]);
        }
        match head {
            Some(v) => conv.push(Ok(v)),
            None => conv.push(Err(())),
        }
    }
    let ghost cs = conv@;
    match fill_iter_result(arena_ref, conv) {
        Ok(s) => {
            proof {
                assert forall|i: int| 0 <= i < all.len() implies all[i] is Some by {
                    assert(cs[i] is Ok);
                }
                assert(s@ =~= some_values(items@));
            }
            Some(s)
        },
        Err(e) => {
            proof {
                let k = choose|k: int| fails_first_at(cs, k, e);
                assert(opt_as_res(all[k]) == Err::<T, ()>(e));
                assert(all[k] is None);
                assert forall|j: int| 0 <= j < k implies all[j] is Some by {
                    assert(cs[j] is Ok);
                }
                assert(absent_first_at(items@, k));
                assert(absent_somewhere(items@));
            }
            None
        },
    }
}

pub trait BumpaloExtend {
    /// Allocates a new slice of size `len` into this arena and returns an
    /// exclusive reference to it, early exiting if the function returns
    /// `Err`. The elements of the slice are initialized using the supplied
    /// closure; the closure argument is the position in the slice, and the
    /// positions are visited in increasing order, none past the first
    /// failure. Values constructed before a failure are abandoned, not
    /// cleaned up. The slice lives until the arena is torn down.
    ///
    /// ## Panics
    ///
    /// Aborts if reserving space for the slice fails.
    fn alloc_slice_fill_with_result<T, E, F: Fn(usize) -> Result<T, E>>(
        &self,
        len: usize,
        f: F,
    ) -> (r: Result<&mut [T], E>)
        requires
            forall|i: usize| i < len ==> call_requires(f, (i,)),
        ensures
            r matches Ok(s) ==> fill_ok(f, len, s@),
            r matches Err(e) ==> fill_err(f, len, e),
            len == 0 ==> r is Ok,
    ;

    /// Allocates a new slice of size `len` into this arena and returns an
    /// exclusive reference to it, early exiting if the function returns
    /// `None`. The elements of the slice are initialized using the supplied
    /// closure; the closure argument is the position in the slice, and the
    /// positions are visited in increasing order, none past the first
    /// absence. Values constructed before an absence are abandoned, not
    /// cleaned up. The slice lives until the arena is torn down.
    ///
    /// ## Panics
    ///
    /// Aborts if reserving space for the slice fails.
    fn alloc_slice_fill_with_option<T, F: Fn(usize) -> Option<T>>(
        &self,
        len: usize,
        f: F,
    ) -> (r: Option<&mut [T]>)
        requires
            forall|i: usize| i < len ==> call_requires(f, (i,)),
        ensures
            r matches Some(s) ==> fill_some(f, len, s@),
            r is None ==> fill_none(f, len),
            len == 0 ==> r is Some,
    ;

    /// Allocates a new slice into this arena, one element per item of
    /// `items`, in order, early exiting with the first `Err` it meets.
    /// Success values met before that first `Err` are abandoned, not
    /// cleaned up. The slice lives until the arena is torn down.
    ///
    /// ## Panics
    ///
    /// Aborts if reserving space for the slice fails.
    fn alloc_slice_fill_iter_result<T, E>(&self, items: Vec<Result<T, E>>) -> (r: Result<
        &mut [T],
        E,
    >)
        ensures
            r is Ok <==> all_ok(items@),
            r matches Ok(s) ==> s@ == ok_values(items@),
            r matches Err(e) ==> fails_with(items@, e),
    ;

    /// Allocates a new slice into this arena, one element per item of
    /// `items`, in order, early exiting at the first `None` it meets and
    /// returning a bare absence in that case. Values met before that first
    /// `None` are abandoned, not cleaned up. The slice lives until the arena
    /// is torn down.
    ///
    /// ## Panics
    ///
    /// Aborts if reserving space for the slice fails.
    fn alloc_slice_fill_iter_option<T>(&self, items: Vec<Option<T>>) -> (r: Option<&mut [T]>)
        ensures
            r is Some <==> all_some(items@),
            r matches Some(s) ==> s@ == some_values(items@),
            r is None ==> absent_somewhere(items@),
    ;
}

impl BumpaloExtend for bumpalo::Bump {
    fn alloc_slice_fill_with_result<T, E, F: Fn(usize) -> Result<T, E>>(
        &self,
        len: usize,
        f: F,
    ) -> (r: Result<&mut [T], E>) {
        fill_with_result(self, len, f)
    }

    fn alloc_slice_fill_with_option<T, F: Fn(usize) -> Option<T>>(
        &self,
        len: usize,
        f: F,
    ) -> (r: Option<&mut [T]>) {
        fill_with_option(self, len, f)
    }

    fn alloc_slice_fill_iter_result<T, E>(&self, items: Vec<Result<T, E>>) -> (r: Result<
        &mut [T],
        E,
    >) {
        fill_iter_result(self, items)
    }

    fn alloc_slice_fill_iter_option<T>(&self, items: Vec<Option<T>>) -> (r: Option<&mut [T]>) {
        fill_iter_option(self, items)
    }
}

} // verus!
