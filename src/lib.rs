//! Positions on a 3x3 grid (the eight compass directions and the center),
//! with their conversions, grid operators and a three-valued-logic reading,
//! and sequences of such positions taken as moves.

mod balance;
mod conversions;
mod digit;
mod laws;
mod operations;
mod path;
mod ternary;

pub use balance::{clamp_unit, is_unit, Balance, BalanceError};
pub use conversions::normalize_angle;
pub use digit::{
    absolute_negative_of, absolute_positive_of, and_of, contingently_of, digit_of, digit_value,
    ht_imply_of, ht_not_of, k3_equiv_of, k3_imply_of, necessary_of, negative_of, not_negative_of,
    not_positive_of, or_of, positive_of, possibly_of, post_of, pre_of, xor_of,
};
pub use laws::{
    certainty, clamped_arithmetic_stays_on_grid, clamped_moves_settle, coordinates_round_trip,
    normalization_is_idempotent, position_conversions_round_trip, reversal_is_an_involution,
    rotations_cycle, wrapping_moves_undo_each_other,
};
pub use path::{
    fits_i8, lemma_steps, lemma_total_concat, normal_form, sign, steps, total_x,
    total_y, Path,
};
