use vstd::prelude::*;

use crate::balance::{clamp_unit, Balance};

verus! {

impl Balance {
    /// The coordinates swapped: `(x, y)` becomes `(y, x)`.
    pub open spec fn swapped(self) -> Balance {
        Balance::at(self.coord_y(), self.coord_x())
    }

    /// The point reflection through the center: `(x, y)` becomes `(-x, -y)`.
    pub open spec fn negated(self) -> Balance {
        Balance::at(-self.coord_x(), -self.coord_y())
    }

    /// The coordinate-wise sum, each coordinate clamped into `-1..=1`.
    pub open spec fn clamped_add(self, o: Balance) -> Balance {
        Balance::at(clamp_unit(self.coord_x() + o.coord_x()), clamp_unit(self.coord_y() + o.coord_y()))
    }

    /// The coordinate-wise difference, each coordinate clamped into `-1..=1`.
    pub open spec fn clamped_sub(self, o: Balance) -> Balance {
        Balance::at(clamp_unit(self.coord_x() - o.coord_x()), clamp_unit(self.coord_y() - o.coord_y()))
    }

    /// The coordinate-wise product.
    pub open spec fn times(self, o: Balance) -> Balance {
        Balance::at(self.coord_x() * o.coord_x(), self.coord_y() * o.coord_y())
    }

    /// One step up, saturating at the top row.
    pub open spec fn spec_up(self) -> Balance {
        Balance::at(self.coord_x(), clamp_unit(self.coord_y() - 1))
    }

    /// One step down, saturating at the bottom row.
    pub open spec fn spec_down(self) -> Balance {
        Balance::at(self.coord_x(), clamp_unit(self.coord_y() + 1))
    }

    /// One step left, saturating at the left column.
    pub open spec fn spec_left(self) -> Balance {
        Balance::at(clamp_unit(self.coord_x() - 1), self.coord_y())
    }

    /// One step right, saturating at the right column.
    pub open spec fn spec_right(self) -> Balance {
        Balance::at(clamp_unit(self.coord_x() + 1), self.coord_y())
    }

    /// One step up, wrapping from the top row to the bottom one.
    pub open spec fn spec_up_wrap(self) -> Balance {
        Balance::at(self.coord_x(), if self.coord_y() == -1 { 1 } else { self.coord_y() - 1 })
    }

    /// One step down, wrapping from the bottom row to the top one.
    pub open spec fn spec_down_wrap(self) -> Balance {
        Balance::at(self.coord_x(), if self.coord_y() == 1 { -1 } else { self.coord_y() + 1 })
    }

    /// One step left, wrapping from the left column to the right one.
    pub open spec fn spec_left_wrap(self) -> Balance {
        Balance::at(if self.coord_x() == -1 { 1 } else { self.coord_x() - 1 }, self.coord_y())
    }

    /// One step right, wrapping from the right column to the left one.
    pub open spec fn spec_right_wrap(self) -> Balance {
        Balance::at(if self.coord_x() == 1 { -1 } else { self.coord_x() + 1 }, self.coord_y())
    }

    /// The mirror image across the vertical axis.
    pub open spec fn spec_flip_h(self) -> Balance {
        Balance::at(-self.coord_x(), self.coord_y())
    }

    /// The mirror image across the horizontal axis.
    pub open spec fn spec_flip_v(self) -> Balance {
        Balance::at(self.coord_x(), -self.coord_y())
    }

    /// A quarter turn counter-clockwise about the center.
    pub open spec fn spec_rotate_left(self) -> Balance {
        Balance::at(self.coord_y(), -self.coord_x())
    }

    /// A quarter turn clockwise about the center.
    pub open spec fn spec_rotate_right(self) -> Balance {
        Balance::at(-self.coord_y(), self.coord_x())
    }

    /// The projection onto the vertical axis.
    pub open spec fn spec_center_h(self) -> Balance {
        Balance::at(0, self.coord_y())
    }

    /// The projection onto the horizontal axis.
    pub open spec fn spec_center_v(self) -> Balance {
        Balance::at(self.coord_x(), 0)
    }

    /// Moves one step up; a position on the top row stays where it is.
    pub fn up(self) -> (r: Balance)
        ensures
            r == self.spec_up(),
    {
        let (x, y) = self.to_vector();
        Self::at_unit(x, if y == -1 { -1 } else { y - 1 })
    }

    /// Moves one step down; a position on the bottom row stays where it is.
    pub fn down(self) -> (r: Balance)
        ensures
            r == self.spec_down(),
    {
        let (x, y) = self.to_vector();
        Self::at_unit(x, if y == 1 { 1 } else { y + 1 })
    }

    /// Moves one step left; a position on the left column stays where it is.
    pub fn left(self) -> (r: Balance)
        ensures
            r == self.spec_left(),
    {
        let (x, y) = self.to_vector();
        Self::at_unit(if x == -1 { -1 } else { x - 1 }, y)
    }

    /// Moves one step right; a position on the right column stays where it is.
    pub fn right(self) -> (r: Balance)
        ensures
            r == self.spec_right(),
    {
        let (x, y) = self.to_vector();
        Self::at_unit(if x == 1 { 1 } else { x + 1 }, y)
    }

    /// Moves one step up; from the top row it wraps round to the bottom row.
    pub fn up_wrap(self) -> (r: Balance)
        ensures
            r == self.spec_up_wrap(),
    {
        let (x, y) = self.to_vector();
        Self::at_unit(x, if y == -1 { 1 } else { y - 1 })
    }

    /// Moves one step down; from the bottom row it wraps round to the top row.
    pub fn down_wrap(self) -> (r: Balance)
        ensures
            r == self.spec_down_wrap(),
    {
        let (x, y) = self.to_vector();
        Self::at_unit(x, if y == 1 { -1 } else { y + 1 })
    }

    /// Moves one step left; from the left column it wraps round to the right column.
    pub fn left_wrap(self) -> (r: Balance)
        ensures
            r == self.spec_left_wrap(),
    {
        let (x, y) = self.to_vector();
        Self::at_unit(if x == -1 { 1 } else { x - 1 }, y)
    }

    /// Moves one step right; from the right column it wraps round to the left column.
    pub fn right_wrap(self) -> (r: Balance)
        ensures
            r == self.spec_right_wrap(),
    {
        let (x, y) = self.to_vector();
        Self::at_unit(if x == 1 { -1 } else { x + 1 }, y)
    }

    /// Mirrors the position across the vertical axis (negates `x`).
    pub fn flip_h(self) -> (r: Balance)
        ensures
            r == self.spec_flip_h(),
    {
        let (x, y) = self.to_vector();
        Self::at_unit(-x, y)
    }

    /// Mirrors the position across the horizontal axis (negates `y`).
    pub fn flip_v(self) -> (r: Balance)
        ensures
            r == self.spec_flip_v(),
    {
        let (x, y) = self.to_vector();
        Self::at_unit(x, -y)
    }

    /// Rotates the position a quarter turn counter-clockwise about the center: `(x, y)` becomes `(y, -x)`, so `Right` becomes `Top`.
    pub fn rotate_left(self) -> (r: Balance)
        ensures
            r == self.spec_rotate_left(),
    {
        let (x, y) = self.to_vector();
        Self::at_unit(y, -x)
    }

    /// Rotates the position a quarter turn clockwise about the center: `(x, y)` becomes `(-y, x)`, so `Top` becomes `Right`.
    pub fn rotate_right(self) -> (r: Balance)
        ensures
            r == self.spec_rotate_right(),
    {
        let (x, y) = self.to_vector();
        Self::at_unit(-y, x)
    }

    /// Moves the position onto the vertical axis (sets `x` to zero).
    pub fn center_h(self) -> (r: Balance)
        ensures
            r == self.spec_center_h(),
    {
        let (_, y) = self.to_vector();
        Self::at_unit(0, y)
    }

    /// Moves the position onto the horizontal axis (sets `y` to zero).
    pub fn center_v(self) -> (r: Balance)
        ensures
            r == self.spec_center_v(),
    {
        let (x, _) = self.to_vector();
        Self::at_unit(x, 0)
    }
}


impl vstd::std_specs::ops::NotSpecImpl for Balance {
    open spec fn obeys_not_spec() -> bool {
        true
    }

    open spec fn not_req(self) -> bool {
        true
    }

    open spec fn not_spec(self) -> Balance {
        self.swapped()
    }
}

/// `!p` swaps the two coordinates.
impl core::ops::Not for Balance {
    type Output = Balance;

    fn not(self) -> (r: Balance) {
        let (x, y) = self.to_vector();
        Balance::at_unit(y, x)
    }
}

impl vstd::std_specs::ops::NegSpecImpl for Balance {
    open spec fn obeys_neg_spec() -> bool {
        true
    }

    open spec fn neg_req(self) -> bool {
        true
    }

    open spec fn neg_spec(self) -> Balance {
        self.negated()
    }
}

/// `-p` negates both coordinates.
impl core::ops::Neg for Balance {
    type Output = Balance;

    fn neg(self) -> (r: Balance) {
        let (x, y) = self.to_vector();
        Balance::at_unit(-x, -y)
    }
}

/// `c` clamped into `-1..=1`, for `c` in `-2..=2`.
fn clamp_coord(c: i8) -> (r: i8)
    requires
        -2 <= c <= 2,
    ensures
        r == clamp_unit(c as int),
{
    if c < -1 {
        -1
    } else if c > 1 {
        1
    } else {
        c
    }
}

impl vstd::std_specs::ops::AddSpecImpl for Balance {
    open spec fn obeys_add_spec() -> bool {
        true
    }

    open spec fn add_req(self, rhs: Balance) -> bool {
        true
    }

    open spec fn add_spec(self, rhs: Balance) -> Balance {
        self.clamped_add(rhs)
    }
}

/// `p + q` adds coordinate by coordinate and clamps each sum into `-1..=1`.
impl core::ops::Add for Balance {
    type Output = Balance;

    fn add(self, rhs: Balance) -> (r: Balance) {
        let (x1, y1) = self.to_vector();
        let (x2, y2) = rhs.to_vector();
        Balance::at_unit(clamp_coord(x1 + x2), clamp_coord(y1 + y2))
    }
}

impl vstd::std_specs::ops::SubSpecImpl for Balance {
    open spec fn obeys_sub_spec() -> bool {
        true
    }

    open spec fn sub_req(self, rhs: Balance) -> bool {
        true
    }

    open spec fn sub_spec(self, rhs: Balance) -> Balance {
        self.clamped_sub(rhs)
    }
}

/// `p - q` subtracts coordinate by coordinate and clamps each difference
/// into `-1..=1`.
impl core::ops::Sub for Balance {
    type Output = Balance;

    fn sub(self, rhs: Balance) -> (r: Balance) {
        let (x1, y1) = self.to_vector();
        let (x2, y2) = rhs.to_vector();
        Balance::at_unit(clamp_coord(x1 - x2), clamp_coord(y1 - y2))
    }
}

impl vstd::std_specs::ops::MulSpecImpl for Balance {
    open spec fn obeys_mul_spec() -> bool {
        true
    }

    open spec fn mul_req(self, rhs: Balance) -> bool {
        true
    }

    open spec fn mul_spec(self, rhs: Balance) -> Balance {
        self.times(rhs)
    }
}

/// `p * q` multiplies coordinate by coordinate.
impl core::ops::Mul for Balance {
    type Output = Balance;

    fn mul(self, rhs: Balance) -> (r: Balance) {
        let (x1, y1) = self.to_vector();
        let (x2, y2) = rhs.to_vector();
        Balance::at_unit(x1 * x2, y1 * y2)
    }
}

} // verus!
