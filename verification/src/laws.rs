use vstd::prelude::*;
use crate::coordinate::Coordinate;
use crate::coordinate::coord_from_draws;
use crate::saver::push_evict;

verus! {

/// The coordinate each pair of raw draws maps to against the given
/// dimensions, in draw order.
pub open spec fn drawn_coords(draws: Seq<(u32, u32)>, w: u32, h: u32) -> Seq<Coordinate> {
    draws.map_values(|d: (u32, u32)| coord_from_draws(d.0, d.1, w, h))
}

/// What an empty buffer of capacity `cap` stores after stepping once per
/// element of `draws`, in order, each step appending the drawn coordinate
/// with FIFO eviction.
pub open spec fn run_steps(draws: Seq<(u32, u32)>, w: u32, h: u32, cap: nat) -> Seq<Coordinate>
    decreases draws.len(),
{
    if draws.len() == 0 {
        Seq::empty()
    } else {
        push_evict(
            run_steps(draws.drop_last(), w, h, cap),
            coord_from_draws(draws.last().0, draws.last().1, w, h),
            cap,
        )
    }
}

/// Capacity invariant: however many steps are taken, the stored length never
/// exceeds the capacity, and equals the smaller of the number of steps taken
/// and the capacity.
pub proof fn lemma_capacity_invariant(draws: Seq<(u32, u32)>, w: u32, h: u32, cap: nat)
    requires
        cap >= 1,
    ensures
        run_steps(draws, w, h, cap).len() <= cap,
        run_steps(draws, w, h, cap).len() == if draws.len() < cap {
            draws.len()
        } else {
            cap
        },
    decreases draws.len(),
{
    if draws.len() > 0 {
        lemma_capacity_invariant(draws.drop_last(), w, h, cap);
    }
}

/// FIFO order preservation: after any number of steps the stored sequence is
/// exactly the most recently drawn coordinates — all of them while the
/// buffer is filling, the last `cap` of them once it is saturated — in the
/// order they were added, oldest at position 0.
pub proof fn lemma_fifo_order(draws: Seq<(u32, u32)>, w: u32, h: u32, cap: nat)
    requires
        cap >= 1,
    ensures
        run_steps(draws, w, h, cap) == drawn_coords(draws, w, h).skip(
            if draws.len() <= cap {
                0
            } else {
                draws.len() - cap
            },
        ),
    decreases draws.len(),
{
    let all = drawn_coords(draws, w, h);
    let start: int = if draws.len() <= cap {
        0
    } else {
        draws.len() - cap
    };
    if draws.len() == 0 {
        assert(run_steps(draws, w, h, cap) =~= all.skip(start));
    } else {
        let prefix = draws.drop_last();
        lemma_fifo_order(prefix, w, h, cap);
        lemma_capacity_invariant(prefix, w, h, cap);
        assert(drawn_coords(prefix, w, h) =~= all.drop_last());
        assert(run_steps(draws, w, h, cap) =~= all.skip(start));
    }
}

/// Single-slot boundary: with capacity 1, each step entirely replaces the
/// previous point — after at least one step exactly the most recently drawn
/// coordinate is stored.
pub proof fn lemma_single_slot(draws: Seq<(u32, u32)>, w: u32, h: u32)
    requires
        draws.len() >= 1,
    ensures
        run_steps(draws, w, h, 1) == seq![
            coord_from_draws(draws.last().0, draws.last().1, w, h),
        ],
{
    lemma_fifo_order(draws, w, h, 1);
    assert(drawn_coords(draws, w, h).skip(draws.len() - 1) =~= seq![
        coord_from_draws(draws.last().0, draws.last().1, w, h),
    ]);
}

} // verus!
