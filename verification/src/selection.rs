//! The selection cursor shared by every list-backed view.
//!
//! A cursor is an `Option<usize>` index into the view's item collection.
//! Invariant: when the collection is non-empty and a selection exists, the
//! index is below the collection's length; when the collection is empty, the
//! selection is absent. Directional movement wraps around: moving past the
//! last item selects the first, moving before the first selects the last.

use vstd::prelude::*;

verus! {

/// The index one step forward from `i` in a collection of length `len`,
/// wrapping from the last item to the first.
pub open spec fn next_index_spec(i: usize, len: usize) -> usize {
    if i + 1 >= len {
        0
    } else {
        (i + 1) as usize
    }
}

/// The index one step backward from `i` in a collection of length `len`,
/// wrapping from the first item to the last.
pub open spec fn prev_index_spec(i: usize, len: usize) -> usize {
    if i == 0 {
        (len - 1) as usize
    } else {
        (i - 1) as usize
    }
}

/// The selection after a forward step: an empty collection has no selection,
/// an absent selection starts at the first item, and an existing selection
/// advances with wraparound.
pub open spec fn select_next_spec(sel: Option<usize>, len: usize) -> Option<usize> {
    if len == 0 {
        None
    } else {
        match sel {
            None => Some(0usize),
            Some(i) => Some(next_index_spec(i, len)),
        }
    }
}

/// The selection after a backward step, mirroring [`select_next_spec`].
pub open spec fn select_prev_spec(sel: Option<usize>, len: usize) -> Option<usize> {
    if len == 0 {
        None
    } else {
        match sel {
            None => Some(0usize),
            Some(i) => Some(prev_index_spec(i, len)),
        }
    }
}

/// The selection after removing the item at index `ix`, where `new_len` is
/// the length of the collection after the removal: the cursor stays on the
/// same position when it still exists, else moves to the new last item, and
/// disappears when the collection became empty.
pub open spec fn select_after_remove_spec(ix: usize, new_len: usize) -> Option<usize> {
    if new_len == 0 {
        None
    } else if ix < new_len {
        Some(ix)
    } else {
        Some((new_len - 1) as usize)
    }
}

/// Whether a selection is valid for a collection of length `len`.
pub open spec fn sel_wf(sel: Option<usize>, len: nat) -> bool {
    match sel {
        None => true,
        Some(i) => len > 0 && i < len,
    }
}

/// One forward step of the cursor.
pub fn next_index(i: usize, len: usize) -> (r: usize)
    requires
        0 < len,
        i < len,
    ensures
        r == next_index_spec(i, len),
        r < len,
{
    if i >= len - 1 {
        0
    } else {
        i + 1
    }
}

/// One backward step of the cursor.
pub fn prev_index(i: usize, len: usize) -> (r: usize)
    requires
        0 < len,
        i < len,
    ensures
        r == prev_index_spec(i, len),
        r < len,
{
    if i == 0 {
        len - 1
    } else {
        i - 1
    }
}

/// One forward step of a whole selection, as bound by [`select_next_spec`].
pub fn select_next(sel: Option<usize>, len: usize) -> (r: Option<usize>)
    requires
        sel_wf(sel, len as nat),
    ensures
        r == select_next_spec(sel, len),
        sel_wf(r, len as nat),
{
    if len == 0 {
        None
    } else {
        match sel {
            None => Some(0),
            Some(i) => Some(next_index(i, len)),
        }
    }
}

/// One backward step of a whole selection, as bound by [`select_prev_spec`].
pub fn select_prev(sel: Option<usize>, len: usize) -> (r: Option<usize>)
    requires
        sel_wf(sel, len as nat),
    ensures
        r == select_prev_spec(sel, len),
        sel_wf(r, len as nat),
{
    if len == 0 {
        None
    } else {
        match sel {
            None => Some(0),
            Some(i) => Some(prev_index(i, len)),
        }
    }
}

/// The cursor after `k` forward steps from `i` in a collection of length `len`.
pub open spec fn nth_next_index(i: usize, len: usize, k: nat) -> usize
    decreases k,
{
    if k == 0 {
        i
    } else {
        next_index_spec(nth_next_index(i, len, (k - 1) as nat), len)
    }
}

proof fn lemma_nth_next_index_shape(i: usize, len: usize, k: nat)
    requires
        0 < len,
        i < len,
        k <= len,
    ensures
        nth_next_index(i, len, k) == if i + k < len {
            (i + k) as usize
        } else {
            (i + k - len) as usize
        },
    decreases k,
{
    if k > 0 {
        lemma_nth_next_index_shape(i, len, (k - 1) as nat);
    }
}

/// Wraparound closure: in a non-empty collection, moving the selection
/// forward exactly `len` times returns the cursor to its starting index.
pub proof fn lemma_forward_len_times_is_identity(i: usize, len: usize)
    requires
        0 < len,
        i < len,
    ensures
        nth_next_index(i, len, len as nat) == i,
{
    lemma_nth_next_index_shape(i, len, len as nat);
}

/// The selection after `k` forward steps of the cursor.
pub open spec fn nth_select_next(sel: Option<usize>, len: usize, k: nat) -> Option<usize>
    decreases k,
{
    if k == 0 {
        sel
    } else {
        select_next_spec(nth_select_next(sel, len, (k - 1) as nat), len)
    }
}

proof fn lemma_nth_select_next_unfold(i: usize, len: usize, k: nat)
    requires
        0 < len,
        i < len,
    ensures
        nth_select_next(Some(i), len, k) == Some(nth_next_index(i, len, k)),
    decreases k,
{
    if k > 0 {
        lemma_nth_select_next_unfold(i, len, (k - 1) as nat);
        lemma_nth_next_index_in_bounds(i, len, (k - 1) as nat);
    }
}

proof fn lemma_nth_next_index_in_bounds(i: usize, len: usize, k: nat)
    requires
        0 < len,
        i < len,
    ensures
        nth_next_index(i, len, k) < len,
    decreases k,
{
    if k > 0 {
        lemma_nth_next_index_in_bounds(i, len, (k - 1) as nat);
    }
}

/// Wraparound closure at the level of whole selections: in a non-empty
/// collection, moving an existing selection forward exactly `len` times
/// returns it to its starting index.
pub proof fn lemma_select_forward_len_times_is_identity(i: usize, len: usize)
    requires
        0 < len,
        i < len,
    ensures
        nth_select_next(Some(i), len, len as nat) == Some(i),
{
    lemma_nth_select_next_unfold(i, len, len as nat);
    lemma_forward_len_times_is_identity(i, len);
}

/// In a non-empty collection, moving backward from index 0 selects the last
/// item, index `len - 1`.
pub proof fn lemma_backward_from_zero(len: usize)
    requires
        0 < len,
    ensures
        prev_index_spec(0, len) == len - 1,
        select_prev_spec(Some(0usize), len) == Some((len - 1) as usize),
{
}

/// Removing the selected item never leaves the cursor at or past the end of
/// the shrunken collection: while items remain, the new selection is a valid
/// index, and the invariant on selections is preserved.
pub proof fn lemma_remove_keeps_selection_valid(ix: usize, new_len: usize)
    ensures
        new_len > 0 ==> (select_after_remove_spec(ix, new_len) matches Some(j) && j < new_len),
        sel_wf(select_after_remove_spec(ix, new_len), new_len as nat),
{
}

/// Forward and backward steps preserve the selection invariant.
pub proof fn lemma_step_keeps_selection_valid(sel: Option<usize>, len: usize)
    requires
        sel_wf(sel, len as nat),
    ensures
        sel_wf(select_next_spec(sel, len), len as nat),
        sel_wf(select_prev_spec(sel, len), len as nat),
{
}

} // verus!
