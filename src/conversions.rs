use vstd::prelude::*;

use crate::balance::{is_unit, Balance, BalanceError};

verus! {

/// `degrees` brought into the half-open range `(-180, 180]`.
pub open spec fn normalize_angle(degrees: int) -> int {
    let m = degrees % 360;
    if m > 180 {
        m - 360
    } else {
        m
    }
}

impl Balance {
    /// The angle of `Right`, in degrees.
    pub const EAST: i16 = 0;
    /// The angle of `TopRight`, in degrees.
    pub const NORTH_EAST: i16 = 45;
    /// The angle of `Top`, in degrees.
    pub const NORTH: i16 = 90;
    /// The angle of `TopLeft`, in degrees.
    pub const NORTH_WEST: i16 = 135;
    /// The angle of `Left`, in degrees.
    pub const WEST: i16 = 180;
    /// The angle of `BottomRight`, in degrees.
    pub const SOUTH_EAST: i16 = -45;
    /// The angle of `Bottom`, in degrees.
    pub const SOUTH: i16 = -90;
    /// The angle of `BottomLeft`, in degrees.
    pub const SOUTH_WEST: i16 = -135;

    /// The rank of a position: `-4` for `TopLeft` up to `4` for
    /// `BottomRight`, row by row.
    pub open spec fn rank(self) -> int {
        3 * self.coord_y() + self.coord_x()
    }

    /// The position of rank `v`, for `v` in `-4..=4`.
    pub open spec fn of_rank(v: int) -> Balance
        recommends
            -4 <= v <= 4,
    {
        Balance::at((v + 4) % 3 - 1, (v + 4) / 3 - 1)
    }

    /// The direction of a non-center position, in degrees counter-clockwise
    /// from `Right` (the y axis points down the grid, so `Top` is at 90).
    pub open spec fn angle(self) -> int {
        match self {
            Balance::TopLeft => 135,
            Balance::Top => 90,
            Balance::TopRight => 45,
            Balance::Left => 180,
            Balance::Center => 0,
            Balance::Right => 0,
            Balance::BottomLeft => -135,
            Balance::Bottom => -90,
            Balance::BottomRight => -45,
        }
    }

    /// The position whose direction is exactly `degrees`, an angle in
    /// `(-180, 180]`; none where `degrees` is not one of the eight.
    pub open spec fn toward(degrees: int) -> Option<Balance> {
        if degrees == 0 {
            Some(Balance::Right)
        } else if degrees == 45 {
            Some(Balance::TopRight)
        } else if degrees == 90 {
            Some(Balance::Top)
        } else if degrees == 135 {
            Some(Balance::TopLeft)
        } else if degrees == 180 {
            Some(Balance::Left)
        } else if degrees == -135 {
            Some(Balance::BottomLeft)
        } else if degrees == -90 {
            Some(Balance::Bottom)
        } else if degrees == -45 {
            Some(Balance::BottomRight)
        } else {
            None
        }
    }

    /// Returns the rank of the position, in `-4..=4`.
    pub fn to_value(self) -> (r: i8)
        ensures
            r == self.rank(),
    {
        match self {
            Balance::TopLeft => -4,
            Balance::Top => -3,
            Balance::TopRight => -2,
            Balance::Left => -1,
            Balance::Center => 0,
            Balance::Right => 1,
            Balance::BottomLeft => 2,
            Balance::Bottom => 3,
            Balance::BottomRight => 4,
        }
    }

    /// Returns the position of the given rank; ranks outside `-4..=4` are
    /// refused with `InvalidRank`.
    pub fn from_value(value: i8) -> (r: Result<Balance, BalanceError>)
        ensures
            -4 <= value <= 4 ==> r == Ok::<Balance, BalanceError>(Balance::of_rank(value as int)),
            !(-4 <= value <= 4) ==> r == Err::<Balance, BalanceError>(BalanceError::InvalidRank),
    {
        match value {
            -4 => Ok(Balance::TopLeft),
            -3 => Ok(Balance::Top),
            -2 => Ok(Balance::TopRight),
            -1 => Ok(Balance::Left),
            0 => Ok(Balance::Center),
            1 => Ok(Balance::Right),
            2 => Ok(Balance::BottomLeft),
            3 => Ok(Balance::Bottom),
            4 => Ok(Balance::BottomRight),
            _ => Err(BalanceError::InvalidRank),
        }
    }

    /// Returns the squared length `x * x + y * y` of the position's vector.
    pub fn to_scalar(self) -> (r: i8)
        ensures
            r == self.coord_x() * self.coord_x() + self.coord_y() * self.coord_y(),
    {
        let (x, y) = self.to_vector();
        x * x + y * y
    }

    /// Returns the direction of the position in degrees, in `(-180, 180]`;
    /// the center has none and gives `UndefinedAngle`.
    pub fn to_angle(self) -> (r: Result<i16, BalanceError>)
        ensures
            self != Balance::Center ==> r == Ok::<i16, BalanceError>(self.angle() as i16),
            self == Balance::Center ==> r == Err::<i16, BalanceError>(BalanceError::UndefinedAngle),
    {
        match self {
            Balance::TopLeft => Ok(Self::NORTH_WEST),
            Balance::Top => Ok(Self::NORTH),
            Balance::TopRight => Ok(Self::NORTH_EAST),
            Balance::Left => Ok(Self::WEST),
            Balance::Right => Ok(Self::EAST),
            Balance::BottomLeft => Ok(Self::SOUTH_WEST),
            Balance::Bottom => Ok(Self::SOUTH),
            Balance::BottomRight => Ok(Self::SOUTH_EAST),
            Balance::Center => Err(BalanceError::UndefinedAngle),
        }
    }

    /// Returns the position whose direction is `angle` degrees, once `angle`
    /// is brought into `(-180, 180]` (so `270` gives `Bottom`). Only the eight
    /// multiples of 45 degrees name a position; any other angle gives
    /// `InvalidAngle`.
    pub fn from_angle(angle: i64) -> (r: Result<Balance, BalanceError>)
        ensures
            r == (match Balance::toward(normalize_angle(angle as int)) {
                Some(b) => Ok::<Balance, BalanceError>(b),
                None => Err::<Balance, BalanceError>(BalanceError::InvalidAngle),
            }),
    {
        let mut m: i64 = angle % 360;
        if m < 0 {
            m = m + 360;
        }
        if m > 180 {
            m = m - 360;
        }
        assert(m == normalize_angle(angle as int));
        if m == Self::EAST as i64 {
            Ok(Balance::Right)
        } else if m == Self::NORTH_EAST as i64 {
            Ok(Balance::TopRight)
        } else if m == Self::NORTH as i64 {
            Ok(Balance::Top)
        } else if m == Self::NORTH_WEST as i64 {
            Ok(Balance::TopLeft)
        } else if m == Self::WEST as i64 {
            Ok(Balance::Left)
        } else if m == Self::SOUTH_WEST as i64 {
            Ok(Balance::BottomLeft)
        } else if m == Self::SOUTH as i64 {
            Ok(Balance::Bottom)
        } else if m == Self::SOUTH_EAST as i64 {
            Ok(Balance::BottomRight)
        } else {
            Err(BalanceError::InvalidAngle)
        }
    }

    /// Returns the position's coordinates `(x, y)`.
    pub fn to_vector(self) -> (r: (i8, i8))
        ensures
            r.0 == self.coord_x(),
            r.1 == self.coord_y(),
    {
        (self.x(), self.y())
    }

    /// The position at `(a, b)`, both in `-1..=1`.
    pub(crate) fn at_unit(a: i8, b: i8) -> (r: Balance)
        requires
            is_unit(a as int),
            is_unit(b as int),
        ensures
            r == Balance::at(a as int, b as int),
            r.coord_x() == a,
            r.coord_y() == b,
    {
        match (a, b) {
            (-1, -1) => Balance::TopLeft,
            (0, -1) => Balance::Top,
            (1, -1) => Balance::TopRight,
            (-1, 0) => Balance::Left,
            (0, 0) => Balance::Center,
            (1, 0) => Balance::Right,
            (-1, _) => Balance::BottomLeft,
            (0, _) => Balance::Bottom,
            _ => Balance::BottomRight,
        }
    }

    /// Returns the position at `(a, b)`; a coordinate outside `-1..=1`
    /// gives `InvalidCoordinate`.
    pub fn from_vector(a: i8, b: i8) -> (r: Result<Balance, BalanceError>)
        ensures
            is_unit(a as int) && is_unit(b as int) ==> r == Ok::<Balance, BalanceError>(
                Balance::at(a as int, b as int),
            ),
            !(is_unit(a as int) && is_unit(b as int)) ==> r == Err::<Balance, BalanceError>(
                BalanceError::InvalidCoordinate,
            ),
    {
        if -1 <= a && a <= 1 && -1 <= b && b <= 1 {
            Ok(Self::at_unit(a, b))
        } else {
            Err(BalanceError::InvalidCoordinate)
        }
    }
}

} // verus!
