//! Laws that tie the operations on positions and paths together.
use vstd::prelude::*;

use crate::balance::{clamp_unit, is_unit, Balance};
use crate::conversions::normalize_angle;
use crate::path::{normal_form, total_x, total_y, lemma_steps};

verus! {

/// Coordinates, rank and angle each name a position exactly once: going
/// from a position to its coordinates, its rank or (off the center) its
/// angle and back gives the same position.
pub proof fn position_conversions_round_trip(p: Balance)
    ensures
        is_unit(p.coord_x()) && is_unit(p.coord_y()),
        Balance::at(p.coord_x(), p.coord_y()) == p,
        -4 <= p.rank() <= 4,
        Balance::of_rank(p.rank()) == p,
        p != Balance::Center ==> Balance::toward(normalize_angle(p.angle())) == Some(p),
{
}

/// Going from coordinates in `-1..=1` to a position and back gives the same
/// coordinates, and likewise for ranks in `-4..=4`.
pub proof fn coordinates_round_trip(x: int, y: int, v: int)
    ensures
        is_unit(x) && is_unit(y) ==> Balance::at(x, y).coord_x() == x && Balance::at(x, y).coord_y()
            == y,
        -4 <= v <= 4 ==> Balance::of_rank(v).rank() == v,
{
}

/// Four clamped moves in one direction reach the boundary on that side,
/// leave the other coordinate alone, and from there the move changes
/// nothing.
pub proof fn clamped_moves_settle(p: Balance)
    ensures
        ({
            let q = p.spec_up().spec_up().spec_up().spec_up();
            q.coord_y() == -1 && q.coord_x() == p.coord_x() && q.spec_up() == q
        }),
        ({
            let q = p.spec_down().spec_down().spec_down().spec_down();
            q.coord_y() == 1 && q.coord_x() == p.coord_x() && q.spec_down() == q
        }),
        ({
            let q = p.spec_left().spec_left().spec_left().spec_left();
            q.coord_x() == -1 && q.coord_y() == p.coord_y() && q.spec_left() == q
        }),
        ({
            let q = p.spec_right().spec_right().spec_right().spec_right();
            q.coord_x() == 1 && q.coord_y() == p.coord_y() && q.spec_right() == q
        }),
{
}

/// A wrapping move undoes the wrapping move in the opposite direction.
pub proof fn wrapping_moves_undo_each_other(p: Balance)
    ensures
        p.spec_up_wrap().spec_down_wrap() == p,
        p.spec_down_wrap().spec_up_wrap() == p,
        p.spec_left_wrap().spec_right_wrap() == p,
        p.spec_right_wrap().spec_left_wrap() == p,
        p.spec_up_wrap().coord_x() == p.coord_x() && p.spec_down_wrap().coord_x() == p.coord_x(),
        p.spec_left_wrap().coord_y() == p.coord_y() && p.spec_right_wrap().coord_y() == p.coord_y(),
{
}

/// Four quarter turns either way give back the starting position, and a
/// quarter turn left undoes a quarter turn right.
pub proof fn rotations_cycle(p: Balance)
    ensures
        p.spec_rotate_left().spec_rotate_left().spec_rotate_left().spec_rotate_left() == p,
        p.spec_rotate_right().spec_rotate_right().spec_rotate_right().spec_rotate_right() == p,
        p.spec_rotate_left().spec_rotate_right() == p,
        p.spec_rotate_right().spec_rotate_left() == p,
{
}

/// Adding or subtracting two positions never leaves the grid: each
/// coordinate of the result is the clamped sum (or difference), even where
/// the plain one is `2` or `-2`.
pub proof fn clamped_arithmetic_stays_on_grid(p: Balance, q: Balance)
    ensures
        p.clamped_add(q).coord_x() == clamp_unit(p.coord_x() + q.coord_x()),
        p.clamped_add(q).coord_y() == clamp_unit(p.coord_y() + q.coord_y()),
        p.clamped_sub(q).coord_x() == clamp_unit(p.coord_x() - q.coord_x()),
        p.clamped_sub(q).coord_y() == clamp_unit(p.coord_y() - q.coord_y()),
        is_unit(p.clamped_add(q).coord_x()) && is_unit(p.clamped_add(q).coord_y()),
{
}

/// Exactly two positions are certain, `TopLeft` (all false) and
/// `BottomRight` (all true); all true and all false exclude each other and
/// each makes a position certain; the center is not certain.
pub proof fn certainty(p: Balance)
    ensures
        p.certain() <==> (p == Balance::TopLeft || p == Balance::BottomRight),
        Balance::TopLeft != Balance::BottomRight,
        !(p.all_true() && p.all_false()),
        p.all_true() ==> p.certain(),
        p.all_false() ==> p.certain(),
        !Balance::Center.certain(),
{
}

/// Normalizing a path twice gives what normalizing it once gives.
pub proof fn normalization_is_idempotent(s: Seq<Balance>)
    ensures
        normal_form(normal_form(s)) == normal_form(s),
{
    lemma_steps(total_x(s), total_y(s));
}

/// Reversing a path twice gives the path back, and a reversed path has the
/// same displacement.
pub proof fn reversal_is_an_involution(s: Seq<Balance>)
    ensures
        s.reverse().reverse() == s,
        total_x(s.reverse()) == total_x(s),
        total_y(s.reverse()) == total_y(s),
    decreases s.len(),
{
    assert(s.reverse().reverse() =~= s);
    if s.len() > 0 {
        let init = s.drop_last();
        assert(s.reverse() =~= seq![s.last()] + init.reverse());
        reversal_is_an_involution(init);
        crate::path::lemma_total_concat(seq![s.last()], init.reverse());
        assert(seq![s.last()].drop_last() =~= Seq::<Balance>::empty());
        assert(total_x(seq![s.last()].drop_last()) == 0 && total_y(seq![s.last()].drop_last()) == 0);
    }
}

} // verus!
