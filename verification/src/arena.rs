//! The trusted boundary to the bump arena.
//!
//! Everything the library asks of the arena goes through the items in this
//! module. The arena hands out memory that is only reclaimed in bulk, when
//! the arena itself is torn down; nothing here frees an individual block.

use vstd::prelude::*;

verus! {

/// Declares bumpalo::Bump, the bump arena, so that its values can stand in
/// signatures. The arena is opaque here: nothing of its inside is visible,
/// and all that is assumed of it stands on the functions below.
#[verifier::external_type_specification]
#[verifier::external_body]
pub struct ExBump<const MIN_ALIGN: usize>(bumpalo::Bump<MIN_ALIGN>);

/// Relies on bumpalo::Bump::alloc_slice_fill_iter: it reserves a slice of
/// exactly the iterator's reported length inside the arena and moves every
/// item into it, in order. A Vec's iterator reports its exact length, so the
/// returned slice holds exactly the Vec's elements; the arena aborts the
/// process if it cannot reserve the space (resource exhaustion is fatal here,
/// never a recoverable error).
#[verifier::external_body]
pub(crate) fn arena_slice_of_vec<'a, T>(arena: &'a bumpalo::Bump, values: Vec<T>) -> (r: &'a mut [T])
    ensures
        r@ == values@,
{
    arena.alloc_slice_fill_iter(values)
}

/// Relies on core::mem::forget: the values constructed before a failure are
/// abandoned in place without running their destructors. This mirrors the
/// arena's bulk-only reclamation model: a failed construction never cleans up
/// the elements that were already written, by design.
#[verifier::external_body]
pub(crate) fn abandon_partial<T>(values: Vec<T>) {
    core::mem::forget(values);
}

} // verus!
