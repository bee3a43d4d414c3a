//! What this library takes from `balanced_ternary::Digit`: the three truth
//! digits and the per-digit operators, stated as the tables that the crate's
//! source gives for each of them.
use vstd::prelude::*;

use balanced_ternary::Digit;

verus! {

/// Declares `balanced_ternary::Digit`, an enum of three field-less variants
/// `Neg`, `Zero` and `Pos`, so that verified code can match on it.
#[verifier::external_type_specification]
pub struct ExDigit(Digit);

/// The integer that a digit stands for: `-1`, `0` or `1`.
pub open spec fn digit_value(d: Digit) -> int {
    match d {
        Digit::Neg => -1,
        Digit::Zero => 0,
        Digit::Pos => 1,
    }
}

/// The digit that stands for `v`, for `v` in `-1..=1`.
pub open spec fn digit_of(v: int) -> Digit {
    if v < 0 {
        Digit::Neg
    } else if v == 0 {
        Digit::Zero
    } else {
        Digit::Pos
    }
}

/// The table of `Digit::possibly`.
pub open spec fn possibly_of(d: Digit) -> Digit {
    match d {
        Digit::Neg => Digit::Neg,
        Digit::Zero => Digit::Pos,
        Digit::Pos => Digit::Pos,
    }
}

/// The table of `Digit::necessary`.
pub open spec fn necessary_of(d: Digit) -> Digit {
    match d {
        Digit::Neg => Digit::Neg,
        Digit::Zero => Digit::Neg,
        Digit::Pos => Digit::Pos,
    }
}

/// The table of `Digit::contingently`.
pub open spec fn contingently_of(d: Digit) -> Digit {
    match d {
        Digit::Neg => Digit::Neg,
        Digit::Zero => Digit::Pos,
        Digit::Pos => Digit::Neg,
    }
}

/// The table of `Digit::absolute_positive`.
pub open spec fn absolute_positive_of(d: Digit) -> Digit {
    match d {
        Digit::Neg => Digit::Pos,
        Digit::Zero => Digit::Zero,
        Digit::Pos => Digit::Pos,
    }
}

/// The table of `Digit::positive`.
pub open spec fn positive_of(d: Digit) -> Digit {
    match d {
        Digit::Neg => Digit::Zero,
        Digit::Zero => Digit::Zero,
        Digit::Pos => Digit::Pos,
    }
}

/// The table of `Digit::not_negative`.
pub open spec fn not_negative_of(d: Digit) -> Digit {
    match d {
        Digit::Neg => Digit::Zero,
        Digit::Zero => Digit::Pos,
        Digit::Pos => Digit::Pos,
    }
}

/// The table of `Digit::not_positive`.
pub open spec fn not_positive_of(d: Digit) -> Digit {
    match d {
        Digit::Neg => Digit::Neg,
        Digit::Zero => Digit::Neg,
        Digit::Pos => Digit::Zero,
    }
}

/// The table of `Digit::negative`.
pub open spec fn negative_of(d: Digit) -> Digit {
    match d {
        Digit::Neg => Digit::Neg,
        Digit::Zero => Digit::Zero,
        Digit::Pos => Digit::Zero,
    }
}

/// The table of `Digit::absolute_negative`.
pub open spec fn absolute_negative_of(d: Digit) -> Digit {
    match d {
        Digit::Neg => Digit::Neg,
        Digit::Zero => Digit::Zero,
        Digit::Pos => Digit::Neg,
    }
}

/// The table of `Digit::ht_not`.
pub open spec fn ht_not_of(d: Digit) -> Digit {
    match d {
        Digit::Neg => Digit::Pos,
        Digit::Zero => Digit::Neg,
        Digit::Pos => Digit::Neg,
    }
}

/// The table of `Digit::post`.
pub open spec fn post_of(d: Digit) -> Digit {
    match d {
        Digit::Neg => Digit::Zero,
        Digit::Zero => Digit::Pos,
        Digit::Pos => Digit::Neg,
    }
}

/// The table of `Digit::pre`.
pub open spec fn pre_of(d: Digit) -> Digit {
    match d {
        Digit::Neg => Digit::Pos,
        Digit::Zero => Digit::Neg,
        Digit::Pos => Digit::Zero,
    }
}

/// The table of `Digit::k3_imply` (Kleene implication).
pub open spec fn k3_imply_of(a: Digit, b: Digit) -> Digit {
    match a {
        Digit::Neg => Digit::Pos,
        Digit::Zero => positive_of(b),
        Digit::Pos => b,
    }
}

/// The table of `Digit::k3_equiv`.
pub open spec fn k3_equiv_of(a: Digit, b: Digit) -> Digit {
    match a {
        Digit::Neg => match b {
            Digit::Neg => Digit::Pos,
            Digit::Zero => Digit::Zero,
            Digit::Pos => Digit::Neg,
        },
        Digit::Zero => Digit::Zero,
        Digit::Pos => b,
    }
}

/// The table of `Digit::ht_imply`.
pub open spec fn ht_imply_of(a: Digit, b: Digit) -> Digit {
    match a {
        Digit::Neg => Digit::Pos,
        Digit::Zero => possibly_of(b),
        Digit::Pos => b,
    }
}

/// The table of `&` on digits.
pub open spec fn and_of(a: Digit, b: Digit) -> Digit {
    match a {
        Digit::Neg => Digit::Neg,
        Digit::Zero => negative_of(b),
        Digit::Pos => b,
    }
}

/// The table of `|` on digits.
pub open spec fn or_of(a: Digit, b: Digit) -> Digit {
    match a {
        Digit::Neg => b,
        Digit::Zero => positive_of(b),
        Digit::Pos => Digit::Pos,
    }
}

/// The table of `^` on digits.
pub open spec fn xor_of(a: Digit, b: Digit) -> Digit {
    match a {
        Digit::Neg => b,
        Digit::Zero => Digit::Zero,
        Digit::Pos => digit_of(-digit_value(b)),
    }
}

/// Relies on `Digit::to_i8`: `-1`, `0`, `1` for `Neg`, `Zero`, `Pos`.
pub assume_specification[ Digit::to_i8 ](d: &Digit) -> (r: i8)
    ensures
        r == digit_value(*d),
;

/// Relies on `Digit::from_i8`: the digit of `-1`, `0` or `1`; it panics on
/// any other value, which `requires` leaves out.
pub assume_specification[ Digit::from_i8 ](i: i8) -> (r: Digit)
    requires
        -1 <= i <= 1,
    ensures
        r == digit_of(i as int),
;

/// Relies on `Digit::possibly`, by its match table.
pub assume_specification[ Digit::possibly ](d: Digit) -> (r: Digit)
    ensures
        r == possibly_of(d),
;

/// Relies on `Digit::necessary`, by its match table.
pub assume_specification[ Digit::necessary ](d: Digit) -> (r: Digit)
    ensures
        r == necessary_of(d),
;

/// Relies on `Digit::contingently`, by its match table.
pub assume_specification[ Digit::contingently ](d: Digit) -> (r: Digit)
    ensures
        r == contingently_of(d),
;

/// Relies on `Digit::absolute_positive`, by its match table.
pub assume_specification[ Digit::absolute_positive ](d: Digit) -> (r: Digit)
    ensures
        r == absolute_positive_of(d),
;

/// Relies on `Digit::positive`, by its match table.
pub assume_specification[ Digit::positive ](d: Digit) -> (r: Digit)
    ensures
        r == positive_of(d),
;

/// Relies on `Digit::not_negative`, by its match table.
pub assume_specification[ Digit::not_negative ](d: Digit) -> (r: Digit)
    ensures
        r == not_negative_of(d),
;

/// Relies on `Digit::not_positive`, by its match table.
pub assume_specification[ Digit::not_positive ](d: Digit) -> (r: Digit)
    ensures
        r == not_positive_of(d),
;

/// Relies on `Digit::negative`, by its match table.
pub assume_specification[ Digit::negative ](d: Digit) -> (r: Digit)
    ensures
        r == negative_of(d),
;

/// Relies on `Digit::absolute_negative`, by its match table.
pub assume_specification[ Digit::absolute_negative ](d: Digit) -> (r: Digit)
    ensures
        r == absolute_negative_of(d),
;

/// Relies on `Digit::ht_not`, by its match table.
pub assume_specification[ Digit::ht_not ](d: Digit) -> (r: Digit)
    ensures
        r == ht_not_of(d),
;

/// Relies on `Digit::post`, by its match table.
pub assume_specification[ Digit::post ](d: Digit) -> (r: Digit)
    ensures
        r == post_of(d),
;

/// Relies on `Digit::pre`, by its match table.
pub assume_specification[ Digit::pre ](d: Digit) -> (r: Digit)
    ensures
        r == pre_of(d),
;

/// Relies on `Digit::k3_imply`, by its match table.
pub assume_specification[ Digit::k3_imply ](a: Digit, b: Digit) -> (r: Digit)
    ensures
        r == k3_imply_of(a, b),
;

/// Relies on `Digit::k3_equiv`, by its match table.
pub assume_specification[ Digit::k3_equiv ](a: Digit, b: Digit) -> (r: Digit)
    ensures
        r == k3_equiv_of(a, b),
;

/// Relies on `Digit::ht_imply`, by its match table.
pub assume_specification[ Digit::ht_imply ](a: Digit, b: Digit) -> (r: Digit)
    ensures
        r == ht_imply_of(a, b),
;

/// Relies on `impl BitAnd for Digit`, by its match table.
#[verifier::external_body]
pub(crate) fn digit_and(a: Digit, b: Digit) -> (r: Digit)
    ensures
        r == and_of(a, b),
{
    a & b
}

/// Relies on `impl BitOr for Digit`, by its match table.
#[verifier::external_body]
pub(crate) fn digit_or(a: Digit, b: Digit) -> (r: Digit)
    ensures
        r == or_of(a, b),
{
    a | b
}

/// Relies on `impl BitXor for Digit`, by its match table (`Pos ^ b` is `-b`).
#[verifier::external_body]
pub(crate) fn digit_xor(a: Digit, b: Digit) -> (r: Digit)
    ensures
        r == xor_of(a, b),
{
    a ^ b
}

} // verus!
