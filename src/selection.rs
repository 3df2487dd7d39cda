use vstd::prelude::*;

use crate::error::AnnError;

verus! {

/// Which positions to keep along one axis.
#[derive(Debug, Clone, PartialEq, Eq)]
pub enum Selector {
    /// The listed positions, in this order; repeats are kept.
    Index(Vec<usize>),
    /// Every `step`-th position from `start` up to `end` (exclusive);
    /// `None` for `end` means up to the bound of the axis.
    Slice { start: usize, end: Option<usize>, step: usize },
}

/// The end of a slice once an open end is resolved against `bound`.
pub open spec fn resolved_end(end: Option<usize>, bound: usize) -> int {
    match end {
        Some(e) => e as int,
        None => bound as int,
    }
}

/// The ascending positions `start, start + step, ...` that lie below `end`.
pub open spec fn slice_positions(start: int, end: int, step: int) -> Seq<usize>
    decreases (if end > start { end - start } else { 0 }),
{
    if start < end && step > 0 {
        seq![start as usize] + slice_positions(start + step, end, step)
    } else {
        seq![]
    }
}

/// Whether every position in `s` is below `bound`.
pub open spec fn all_below(s: Seq<usize>, bound: usize) -> bool {
    forall|k: int| 0 <= k < s.len() ==> s[k] < bound
}

/// Whether `s[k]` is the first position of `s` that is not below `bound`.
pub open spec fn first_out_of_bounds(s: Seq<usize>, bound: usize, k: int) -> bool {
    0 <= k < s.len() && s[k] >= bound && all_below(s.take(k), bound)
}

/// Whether `index` is the value at the first position of `s` that is not
/// below `bound`.
pub open spec fn reported_position(s: Seq<usize>, bound: usize, index: usize) -> bool {
    exists|k: int| #[trigger] first_out_of_bounds(s, bound, k) && s[k] == index
}

/// Whether `sel` selects only positions below `bound` (a slice must
/// moreover start below `bound` and have a positive step).
pub open spec fn selector_valid(sel: Selector, bound: usize) -> bool {
    match sel {
        Selector::Index(v) => all_below(v@, bound),
        Selector::Slice { start, end, step } => start < bound && resolved_end(end, bound) <= bound
            && step > 0,
    }
}

/// The positions that a valid `sel` stands for against `bound`.
pub open spec fn selector_indices(sel: Selector, bound: usize) -> Seq<usize> {
    match sel {
        Selector::Index(v) => v@,
        Selector::Slice { start, end, step } => slice_positions(
            start as int,
            resolved_end(end, bound),
            step as int,
        ),
    }
}

/// The error that an invalid `sel` is reported with against `bound`.
pub open spec fn selector_error(sel: Selector, bound: usize, e: AnnError) -> bool {
    match sel {
        Selector::Index(v) => match e {
            AnnError::IndexOutOfBounds { index, bound: b } => b == bound && reported_position(
                v@,
                bound,
                index,
            ),
            _ => false,
        },
        Selector::Slice { start, end, step } => {
            if start >= bound || resolved_end(end, bound) > bound {
                e == AnnError::SliceOutOfBounds {
                    start,
                    end: resolved_end(end, bound) as usize,
                    bound,
                }
            } else {
                e == AnnError::InvalidStep { step }
            }
        },
    }
}

/// Every position in `slice_positions(start, end, step)` lies in `[start, end)`.
pub proof fn lemma_slice_positions_bounded(start: int, end: int, step: int)
    requires
        0 <= start,
        end <= usize::MAX,
    ensures
        forall|k: int|
            0 <= k < slice_positions(start, end, step).len() ==> start <= #[trigger] slice_positions(
                start,
                end,
                step,
            )[k] < end,
    decreases (if end > start { end - start } else { 0 }),
{
    if start < end && step > 0 {
        lemma_slice_positions_bounded(start + step, end, step);
        let rest = slice_positions(start + step, end, step);
        assert forall|k: int| 0 <= k < slice_positions(start, end, step).len() implies start
            <= #[trigger] slice_positions(start, end, step)[k] < end by {
            assert(slice_positions(start, end, step) == seq![start as usize] + rest);
            if k > 0 {
                assert(slice_positions(start, end, step)[k] == rest[k - 1]);
            }
        }
    }
}

impl Selector {
    /// The selector that keeps every position.
    pub fn full() -> (r: Selector)
        ensures
            r == (Selector::Slice { start: 0, end: None, step: 1 }),
    {
        Selector::Slice { start: 0, end: None, step: 1 }
    }
}

/// The positions that `elem` selects along an axis of length `bound`.
///
/// An explicit list is returned as it is, order and repeats kept; a slice is
/// expanded to its ascending positions. Out-of-bound positions, a slice that
/// starts at or past `bound` or ends past it, and a zero step are refused.
pub fn select_info_elem_to_indices(elem: &Selector, bound: usize) -> (r: Result<
    Vec<usize>,
    AnnError,
>)
    ensures
        r is Ok <==> selector_valid(*elem, bound),
        r matches Ok(v) ==> v@ == selector_indices(*elem, bound),
        r matches Ok(v) ==> all_below(v@, bound),
        r matches Err(e) ==> selector_error(*elem, bound, e),
{
    match elem {
        Selector::Index(indices) => {
            let mut k: usize = 0;
            while k < indices.len()
                invariant
                    *elem == Selector::Index(*indices),
                    k <= indices@.len(),
                    all_below(indices@.take(k as int), bound),
                decreases indices@.len() - k,
            {
                if indices[k] >= bound {
                    assert(indices@.take(k as int) =~= indices@.take(k as int));
                    assert(first_out_of_bounds(indices@, bound, k as int));
                    assert(selector_error(
                        *elem,
                        bound,
                        AnnError::IndexOutOfBounds { index: indices@[k as int], bound },
                    ));
                    return Err(AnnError::IndexOutOfBounds { index: indices[k], bound });
                }
                k = k + 1;
                assert(indices@.take(k as int) =~= indices@.take(k - 1).push(indices@[k - 1]));
            }
            assert(indices@.take(k as int) =~= indices@);
            Ok(indices.clone())
        },
        Selector::Slice { start, end, step } => {
            let start = *start;
            let step = *step;
            let end: usize = match end {
                Some(e) => *e,
                None => bound,
            };
            if start >= bound || end > bound {
                return Err(AnnError::SliceOutOfBounds { start, end, bound });
            }
            if step == 0 {
                return Err(AnnError::InvalidStep { step });
            }
            let mut out: Vec<usize> = Vec::new();
            let mut i: usize = start;
            while i < end
                invariant
                    step > 0,
                    start <= i,
                    out@ + slice_positions(i as int, end as int, step as int) == slice_positions(
                        start as int,
                        end as int,
                        step as int,
                    ),
                decreases end - i,
            {
                assert(slice_positions(i as int, end as int, step as int) == seq![i]
                    + slice_positions(i + step, end as int, step as int));
                out.push(i);
                proof {
                    assert(out@ + slice_positions(i + step, end as int, step as int) =~= out@.drop_last()
                        + slice_positions(i as int, end as int, step as int));
                }
                if end - i <= step {
                    assert(slice_positions(i + step, end as int, step as int) == Seq::<usize>::empty());
                    assert(out@ =~= out@ + Seq::<usize>::empty());
                    i = end;
                } else {
                    i = i + step;
                }
            }
            assert(slice_positions(i as int, end as int, step as int) == Seq::<usize>::empty());
            assert(out@ =~= out@ + Seq::<usize>::empty());
            proof {
                lemma_slice_positions_bounded(start as int, end as int, step as int);
            }
            Ok(out)
        },
    }
}

} // verus!
