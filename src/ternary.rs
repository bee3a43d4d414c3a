use vstd::prelude::*;

use balanced_ternary::Digit;

use crate::balance::{Balance, BalanceError};
use crate::digit::{
    digit_and, digit_or, digit_xor,
    absolute_negative_of, absolute_positive_of, and_of, contingently_of, digit_value, digit_of,
    ht_imply_of, ht_not_of, k3_equiv_of, k3_imply_of, necessary_of, negative_of, not_negative_of,
    not_positive_of, or_of, positive_of, possibly_of, post_of, pre_of, xor_of,
};

verus! {

impl Balance {
    /// The x-coordinate read as a truth digit.
    pub open spec fn x_digit(self) -> Digit {
        digit_of(self.coord_x())
    }

    /// The y-coordinate read as a truth digit.
    pub open spec fn y_digit(self) -> Digit {
        digit_of(self.coord_y())
    }

    /// The position whose coordinates are the values of two truth digits.
    pub open spec fn of_digits(a: Digit, b: Digit) -> Balance {
        Balance::at(digit_value(a), digit_value(b))
    }

    /// Whether both digits read true.
    pub open spec fn all_true(self) -> bool {
        self.coord_x() == 1 && self.coord_y() == 1
    }

    /// Whether both digits read false.
    pub open spec fn all_false(self) -> bool {
        self.coord_x() == -1 && self.coord_y() == -1
    }

    /// Whether both digits are decided and agree: true-true or false-false.
    pub open spec fn certain(self) -> bool {
        self.coord_x() == self.coord_y() && self.coord_x() != 0
    }

    /// Returns the two coordinates as truth digits `(x, y)`.
    pub fn to_ternary_pair(self) -> (r: (Digit, Digit))
        ensures
            r == (self.x_digit(), self.y_digit()),
    {
        (Digit::from_i8(self.x()), Digit::from_i8(self.y()))
    }

    /// Returns the position whose coordinates are the values of `a` and `b`.
    pub fn from_ternary_pair(a: Digit, b: Digit) -> (r: Balance)
        ensures
            r == Balance::of_digits(a, b),
    {
        Self::at_unit(a.to_i8(), b.to_i8())
    }

    /// Whether the position reads true on both digits (`BottomRight`).
    pub fn is_true(self) -> (r: bool)
        ensures
            r == self.all_true(),
    {
        matches!(self, Balance::BottomRight)
    }

    /// Whether at least one digit reads true.
    pub fn has_true(self) -> (r: bool)
        ensures
            r == (self.coord_x() == 1 || self.coord_y() == 1),
    {
        self.x() == 1 || self.y() == 1
    }

    /// Whether the two digits are decided and disagree (`TopRight` or
    /// `BottomLeft`).
    pub fn is_contradictory(self) -> (r: bool)
        ensures
            r == (self.coord_x() != 0 && self.coord_x() == -self.coord_y()),
    {
        matches!(self, Balance::TopRight | Balance::BottomLeft)
    }

    /// Whether at least one digit is unknown.
    pub fn has_unknown(self) -> (r: bool)
        ensures
            r == (self.coord_x() == 0 || self.coord_y() == 0),
    {
        self.x() == 0 || self.y() == 0
    }

    /// Whether the position is neither all true nor all false.
    pub fn is_uncertain(self) -> (r: bool)
        ensures
            r == !self.certain(),
    {
        !self.is_certain()
    }

    /// Whether the position is all true (`BottomRight`) or all false
    /// (`TopLeft`).
    pub fn is_certain(self) -> (r: bool)
        ensures
            r == self.certain(),
    {
        matches!(self, Balance::BottomRight | Balance::TopLeft)
    }

    /// Whether at least one digit reads false.
    pub fn has_false(self) -> (r: bool)
        ensures
            r == (self.coord_x() == -1 || self.coord_y() == -1),
    {
        self.x() == -1 || self.y() == -1
    }

    /// Whether the position reads false on both digits (`TopLeft`).
    pub fn is_false(self) -> (r: bool)
        ensures
            r == self.all_false(),
    {
        matches!(self, Balance::TopLeft)
    }

    /// Returns `true` for `BottomRight` and `false` for `TopLeft`; every other
    /// position is uncertain and gives `UncertainValue`.
    pub fn to_bool(self) -> (r: Result<bool, BalanceError>)
        ensures
            self.certain() ==> r == Ok::<bool, BalanceError>(self.coord_x() == 1),
            !self.certain() ==> r == Err::<bool, BalanceError>(BalanceError::UncertainValue),
    {
        if self.is_true() {
            Ok(true)
        } else if self.is_false() {
            Ok(false)
        } else {
            Err(BalanceError::UncertainValue)
        }
    }

    /// Returns the x digit as a `bool`; an unknown x gives `UncertainValue`.
    pub fn x_to_bool(self) -> (r: Result<bool, BalanceError>)
        ensures
            self.coord_x() != 0 ==> r == Ok::<bool, BalanceError>(self.coord_x() == 1),
            self.coord_x() == 0 ==> r == Err::<bool, BalanceError>(BalanceError::UncertainValue),
    {
        let x = self.x();
        if x == 1 {
            Ok(true)
        } else if x == -1 {
            Ok(false)
        } else {
            Err(BalanceError::UncertainValue)
        }
    }

    /// Returns the y digit as a `bool`; an unknown y gives `UncertainValue`.
    pub fn y_to_bool(self) -> (r: Result<bool, BalanceError>)
        ensures
            self.coord_y() != 0 ==> r == Ok::<bool, BalanceError>(self.coord_y() == 1),
            self.coord_y() == 0 ==> r == Err::<bool, BalanceError>(BalanceError::UncertainValue),
    {
        let y = self.y();
        if y == 1 {
            Ok(true)
        } else if y == -1 {
            Ok(false)
        } else {
            Err(BalanceError::UncertainValue)
        }
    }

    /// Applies `Digit::possibly` to each digit.
    pub fn possibly(self) -> (r: Balance)
        ensures
            r == Balance::of_digits(possibly_of(self.x_digit()), possibly_of(self.y_digit())),
    {
        let (x, y) = self.to_ternary_pair();
        Self::from_ternary_pair(x.possibly(), y.possibly())
    }

    /// Applies `Digit::necessary` to each digit.
    pub fn necessary(self) -> (r: Balance)
        ensures
            r == Balance::of_digits(necessary_of(self.x_digit()), necessary_of(self.y_digit())),
    {
        let (x, y) = self.to_ternary_pair();
        Self::from_ternary_pair(x.necessary(), y.necessary())
    }

    /// Applies `Digit::contingently` to each digit.
    pub fn contingently(self) -> (r: Balance)
        ensures
            r == Balance::of_digits(contingently_of(self.x_digit()), contingently_of(self.y_digit())),
    {
        let (x, y) = self.to_ternary_pair();
        Self::from_ternary_pair(x.contingently(), y.contingently())
    }

    /// Applies `Digit::absolute_positive` to each digit.
    pub fn absolute_positive(self) -> (r: Balance)
        ensures
            r == Balance::of_digits(absolute_positive_of(self.x_digit()), absolute_positive_of(self.y_digit())),
    {
        let (x, y) = self.to_ternary_pair();
        Self::from_ternary_pair(x.absolute_positive(), y.absolute_positive())
    }

    /// Applies `Digit::positive` to each digit.
    pub fn positive(self) -> (r: Balance)
        ensures
            r == Balance::of_digits(positive_of(self.x_digit()), positive_of(self.y_digit())),
    {
        let (x, y) = self.to_ternary_pair();
        Self::from_ternary_pair(x.positive(), y.positive())
    }

    /// Applies `Digit::not_negative` to each digit.
    pub fn not_negative(self) -> (r: Balance)
        ensures
            r == Balance::of_digits(not_negative_of(self.x_digit()), not_negative_of(self.y_digit())),
    {
        let (x, y) = self.to_ternary_pair();
        Self::from_ternary_pair(x.not_negative(), y.not_negative())
    }

    /// Applies `Digit::not_positive` to each digit.
    pub fn not_positive(self) -> (r: Balance)
        ensures
            r == Balance::of_digits(not_positive_of(self.x_digit()), not_positive_of(self.y_digit())),
    {
        let (x, y) = self.to_ternary_pair();
        Self::from_ternary_pair(x.not_positive(), y.not_positive())
    }

    /// Applies `Digit::negative` to each digit.
    pub fn negative(self) -> (r: Balance)
        ensures
            r == Balance::of_digits(negative_of(self.x_digit()), negative_of(self.y_digit())),
    {
        let (x, y) = self.to_ternary_pair();
        Self::from_ternary_pair(x.negative(), y.negative())
    }

    /// Applies `Digit::absolute_negative` to each digit.
    pub fn absolute_negative(self) -> (r: Balance)
        ensures
            r == Balance::of_digits(absolute_negative_of(self.x_digit()), absolute_negative_of(self.y_digit())),
    {
        let (x, y) = self.to_ternary_pair();
        Self::from_ternary_pair(x.absolute_negative(), y.absolute_negative())
    }

    /// Applies `Digit::ht_not` to each digit.
    pub fn ht_not(self) -> (r: Balance)
        ensures
            r == Balance::of_digits(ht_not_of(self.x_digit()), ht_not_of(self.y_digit())),
    {
        let (x, y) = self.to_ternary_pair();
        Self::from_ternary_pair(x.ht_not(), y.ht_not())
    }

    /// Applies `Digit::post` to each digit.
    pub fn post(self) -> (r: Balance)
        ensures
            r == Balance::of_digits(post_of(self.x_digit()), post_of(self.y_digit())),
    {
        let (x, y) = self.to_ternary_pair();
        Self::from_ternary_pair(x.post(), y.post())
    }

    /// Applies `Digit::pre` to each digit.
    pub fn pre(self) -> (r: Balance)
        ensures
            r == Balance::of_digits(pre_of(self.x_digit()), pre_of(self.y_digit())),
    {
        let (x, y) = self.to_ternary_pair();
        Self::from_ternary_pair(x.pre(), y.pre())
    }

    /// Applies `Digit::k3_imply` digit by digit, `self` on the left.
    pub fn k3_imply(self, other: Balance) -> (r: Balance)
        ensures
            r == Balance::of_digits(
                k3_imply_of(self.x_digit(), other.x_digit()),
                k3_imply_of(self.y_digit(), other.y_digit()),
            ),
    {
        let (x1, y1) = self.to_ternary_pair();
        let (x2, y2) = other.to_ternary_pair();
        Self::from_ternary_pair(x1.k3_imply(x2), y1.k3_imply(y2))
    }

    /// Applies `Digit::k3_equiv` digit by digit, `self` on the left.
    pub fn k3_equiv(self, other: Balance) -> (r: Balance)
        ensures
            r == Balance::of_digits(
                k3_equiv_of(self.x_digit(), other.x_digit()),
                k3_equiv_of(self.y_digit(), other.y_digit()),
            ),
    {
        let (x1, y1) = self.to_ternary_pair();
        let (x2, y2) = other.to_ternary_pair();
        Self::from_ternary_pair(x1.k3_equiv(x2), y1.k3_equiv(y2))
    }

    /// Applies `Digit::ht_imply` digit by digit, `self` on the left.
    pub fn ht_imply(self, other: Balance) -> (r: Balance)
        ensures
            r == Balance::of_digits(
                ht_imply_of(self.x_digit(), other.x_digit()),
                ht_imply_of(self.y_digit(), other.y_digit()),
            ),
    {
        let (x1, y1) = self.to_ternary_pair();
        let (x2, y2) = other.to_ternary_pair();
        Self::from_ternary_pair(x1.ht_imply(x2), y1.ht_imply(y2))
    }

    /// Applies `op_x` to the x digit and `op_y` to the y digit.
    pub fn apply<FX, FY>(self, op_x: FX, op_y: FY) -> (r: Balance) where
        FX: Fn(Digit) -> Digit,
        FY: Fn(Digit) -> Digit,

        requires
            op_x.requires((self.x_digit(),)),
            op_y.requires((self.y_digit(),)),
        ensures
            exists|a: Digit, b: Digit|
                {
                    &&& op_x.ensures((self.x_digit(),), a)
                    &&& op_y.ensures((self.y_digit(),), b)
                    &&& r == Balance::of_digits(a, b)
                },
    {
        let (x, y) = self.to_ternary_pair();
        let a = op_x(x);
        let b = op_y(y);
        Self::from_ternary_pair(a, b)
    }

    /// Applies `op_x` to the two x digits and `op_y` to the two y digits,
    /// `self`'s first.
    pub fn apply_with<FX, FY>(self, op_x: FX, op_y: FY, other: Balance) -> (r: Balance) where
        FX: Fn(Digit, Digit) -> Digit,
        FY: Fn(Digit, Digit) -> Digit,

        requires
            op_x.requires((self.x_digit(), other.x_digit())),
            op_y.requires((self.y_digit(), other.y_digit())),
        ensures
            exists|a: Digit, b: Digit|
                {
                    &&& op_x.ensures((self.x_digit(), other.x_digit()), a)
                    &&& op_y.ensures((self.y_digit(), other.y_digit()), b)
                    &&& r == Balance::of_digits(a, b)
                },
    {
        let (x1, y1) = self.to_ternary_pair();
        let (x2, y2) = other.to_ternary_pair();
        let a = op_x(x1, x2);
        let b = op_y(y1, y2);
        Self::from_ternary_pair(a, b)
    }

    /// Applies `op` to each digit.
    pub fn apply_both<F>(self, op: F) -> (r: Balance) where F: Fn(Digit) -> Digit + Clone
        requires
            op.requires((self.x_digit(),)),
            op.requires((self.y_digit(),)),
        ensures
            exists|a: Digit, b: Digit|
                {
                    &&& op.ensures((self.x_digit(),), a)
                    &&& op.ensures((self.y_digit(),), b)
                    &&& r == Balance::of_digits(a, b)
                },
    {
        let (x, y) = self.to_ternary_pair();
        let a = op(x);
        let b = op(y);
        Self::from_ternary_pair(a, b)
    }
}

impl vstd::std_specs::ops::BitAndSpecImpl for Balance {
    open spec fn obeys_bitand_spec() -> bool {
        true
    }

    open spec fn bitand_req(self, rhs: Balance) -> bool {
        true
    }

    open spec fn bitand_spec(self, rhs: Balance) -> Balance {
        Balance::of_digits(and_of(self.x_digit(), rhs.x_digit()), and_of(self.y_digit(), rhs.y_digit()))
    }
}

/// `p & q` takes the three-valued AND of the x digits and of the y digits.
impl core::ops::BitAnd for Balance {
    type Output = Balance;

    fn bitand(self, rhs: Balance) -> (r: Balance) {
        let (x1, y1) = self.to_ternary_pair();
        let (x2, y2) = rhs.to_ternary_pair();
        Balance::from_ternary_pair(digit_and(x1, x2), digit_and(y1, y2))
    }
}

impl vstd::std_specs::ops::BitOrSpecImpl for Balance {
    open spec fn obeys_bitor_spec() -> bool {
        true
    }

    open spec fn bitor_req(self, rhs: Balance) -> bool {
        true
    }

    open spec fn bitor_spec(self, rhs: Balance) -> Balance {
        Balance::of_digits(or_of(self.x_digit(), rhs.x_digit()), or_of(self.y_digit(), rhs.y_digit()))
    }
}

/// `p | q` takes the three-valued OR of the x digits and of the y digits.
impl core::ops::BitOr for Balance {
    type Output = Balance;

    fn bitor(self, rhs: Balance) -> (r: Balance) {
        let (x1, y1) = self.to_ternary_pair();
        let (x2, y2) = rhs.to_ternary_pair();
        Balance::from_ternary_pair(digit_or(x1, x2), digit_or(y1, y2))
    }
}

impl vstd::std_specs::ops::BitXorSpecImpl for Balance {
    open spec fn obeys_bitxor_spec() -> bool {
        true
    }

    open spec fn bitxor_req(self, rhs: Balance) -> bool {
        true
    }

    open spec fn bitxor_spec(self, rhs: Balance) -> Balance {
        Balance::of_digits(xor_of(self.x_digit(), rhs.x_digit()), xor_of(self.y_digit(), rhs.y_digit()))
    }
}

/// `p ^ q` takes the three-valued XOR of the x digits and of the y digits.
impl core::ops::BitXor for Balance {
    type Output = Balance;

    fn bitxor(self, rhs: Balance) -> (r: Balance) {
        let (x1, y1) = self.to_ternary_pair();
        let (x2, y2) = rhs.to_ternary_pair();
        Balance::from_ternary_pair(digit_xor(x1, x2), digit_xor(y1, y2))
    }
}

} // verus!
