use vstd::prelude::*;

verus! {

/// A position within a 3x3 grid. The center is `(0, 0)`; `x` grows to the
/// right and `y` grows downwards, so `Top` is `(0, -1)`.
#[derive(Debug, Clone, Copy, PartialEq, Eq, Hash, Structural)]
pub enum Balance {
    /// `(-1, -1)`
    TopLeft,
    /// `(0, -1)`
    Top,
    /// `(1, -1)`
    TopRight,
    /// `(-1, 0)`
    Left,
    /// `(0, 0)`
    Center,
    /// `(1, 0)`
    Right,
    /// `(-1, 1)`
    BottomLeft,
    /// `(0, 1)`
    Bottom,
    /// `(1, 1)`
    BottomRight,
}

/// The ways in which an operation of this library can refuse its input.
#[derive(Debug, Clone, Copy, PartialEq, Eq, Hash, Structural)]
pub enum BalanceError {
    /// A coordinate lies outside `-1..=1`.
    InvalidCoordinate,
    /// A rank lies outside `-4..=4`.
    InvalidRank,
    /// An angle is not one of the eight multiples of 45 degrees.
    InvalidAngle,
    /// The center has no direction, hence no angle.
    UndefinedAngle,
    /// A truth digit that should be decided is unknown.
    UncertainValue,
    /// Two sequences that should be paired differ in length.
    LengthMismatch,
}

/// Whether `v` is one of the three grid coordinates `-1`, `0`, `1`.
pub open spec fn is_unit(v: int) -> bool {
    -1 <= v <= 1
}

/// `v` clamped into `-1..=1`.
pub open spec fn clamp_unit(v: int) -> int {
    if v < -1 {
        -1
    } else if v > 1 {
        1
    } else {
        v
    }
}

impl Balance {
    /// The horizontal coordinate.
    pub open spec fn coord_x(self) -> int {
        match self {
            Balance::TopLeft | Balance::Left | Balance::BottomLeft => -1,
            Balance::Top | Balance::Center | Balance::Bottom => 0,
            Balance::TopRight | Balance::Right | Balance::BottomRight => 1,
        }
    }

    /// The vertical coordinate.
    pub open spec fn coord_y(self) -> int {
        match self {
            Balance::TopLeft | Balance::Top | Balance::TopRight => -1,
            Balance::Left | Balance::Center | Balance::Right => 0,
            Balance::BottomLeft | Balance::Bottom | Balance::BottomRight => 1,
        }
    }

    /// The position at `(x, y)`; both coordinates are meant to be in `-1..=1`.
    pub open spec fn at(x: int, y: int) -> Balance
        recommends
            is_unit(x),
            is_unit(y),
    {
        if y < 0 {
            if x < 0 {
                Balance::TopLeft
            } else if x == 0 {
                Balance::Top
            } else {
                Balance::TopRight
            }
        } else if y == 0 {
            if x < 0 {
                Balance::Left
            } else if x == 0 {
                Balance::Center
            } else {
                Balance::Right
            }
        } else {
            if x < 0 {
                Balance::BottomLeft
            } else if x == 0 {
                Balance::Bottom
            } else {
                Balance::BottomRight
            }
        }
    }

    /// Returns the x-coordinate: `-1` on the left column, `1` on the right one.
    pub fn x(self) -> (r: i8)
        ensures
            r == self.coord_x(),
    {
        if self.has_left() {
            -1
        } else if self.has_right() {
            1
        } else {
            0
        }
    }

    /// Returns the y-coordinate: `-1` on the top row, `1` on the bottom one.
    pub fn y(self) -> (r: i8)
        ensures
            r == self.coord_y(),
    {
        if self.has_top() {
            -1
        } else if self.has_bottom() {
            1
        } else {
            0
        }
    }

    /// Whether the position lies on the top row.
    pub fn has_top(self) -> (r: bool)
        ensures
            r == (self.coord_y() == -1),
    {
        matches!(self, Balance::Top | Balance::TopLeft | Balance::TopRight)
    }

    /// Whether the position lies on the bottom row.
    pub fn has_bottom(self) -> (r: bool)
        ensures
            r == (self.coord_y() == 1),
    {
        matches!(self, Balance::Bottom | Balance::BottomLeft | Balance::BottomRight)
    }

    /// Whether the position lies on the left column.
    pub fn has_left(self) -> (r: bool)
        ensures
            r == (self.coord_x() == -1),
    {
        matches!(self, Balance::Left | Balance::TopLeft | Balance::BottomLeft)
    }

    /// Whether the position lies on the right column.
    pub fn has_right(self) -> (r: bool)
        ensures
            r == (self.coord_x() == 1),
    {
        matches!(self, Balance::Right | Balance::TopRight | Balance::BottomRight)
    }
    /// Whether the position is the center or one of its four direct
    /// neighbours (at least one coordinate is zero).
    pub fn is_orthogonal(self) -> (r: bool)
        ensures
            r == (self.coord_x() == 0 || self.coord_y() == 0),
    {
        matches!(self, Balance::Center | Balance::Top | Balance::Bottom | Balance::Left | Balance::Right)
    }

    /// Whether the position is the center or one of the four corners
    /// (both coordinates are zero, or neither is).
    pub fn is_diagonal(self) -> (r: bool)
        ensures
            r == ((self.coord_x() == 0) == (self.coord_y() == 0)),
    {
        matches!(
            self,
            Balance::Center | Balance::TopLeft | Balance::TopRight | Balance::BottomLeft
                | Balance::BottomRight
        )
    }

    /// Whether the position is one of the four edge midpoints (exactly one
    /// coordinate is zero).
    pub fn is_edge(self) -> (r: bool)
        ensures
            r == ((self.coord_x() == 0) != (self.coord_y() == 0)),
    {
        matches!(self, Balance::Top | Balance::Bottom | Balance::Left | Balance::Right)
    }

    /// Whether the position is one of the four corners (no coordinate is zero).
    pub fn is_corner(self) -> (r: bool)
        ensures
            r == (self.coord_x() != 0 && self.coord_y() != 0),
    {
        matches!(self, Balance::TopLeft | Balance::TopRight | Balance::BottomLeft | Balance::BottomRight)
    }

    /// The arrow symbol drawn for each position.
    pub open spec fn symbol(self) -> Seq<char> {
        match self {
            Balance::TopLeft => "\u{2196}\u{fe0f}"@,
            Balance::Top => "\u{2b06}\u{fe0f}"@,
            Balance::TopRight => "\u{2197}\u{fe0f}"@,
            Balance::Left => "\u{2b05}\u{fe0f}"@,
            Balance::Center => "\u{23fa}\u{fe0f}"@,
            Balance::Right => "\u{27a1}\u{fe0f}"@,
            Balance::BottomLeft => "\u{2199}\u{fe0f}"@,
            Balance::Bottom => "\u{2b07}\u{fe0f}"@,
            Balance::BottomRight => "\u{2198}\u{fe0f}"@,
        }
    }

    /// Returns an arrow emoji for the position (a record button for the center).
    pub fn to_symbol(self) -> (r: &'static str)
        ensures
            r@ == self.symbol(),
    {
        match self {
            Balance::TopLeft => "\u{2196}\u{fe0f}",
            Balance::Top => "\u{2b06}\u{fe0f}",
            Balance::TopRight => "\u{2197}\u{fe0f}",
            Balance::Left => "\u{2b05}\u{fe0f}",
            Balance::Center => "\u{23fa}\u{fe0f}",
            Balance::Right => "\u{27a1}\u{fe0f}",
            Balance::BottomLeft => "\u{2199}\u{fe0f}",
            Balance::Bottom => "\u{2b07}\u{fe0f}",
            Balance::BottomRight => "\u{2198}\u{fe0f}",
        }
    }
}

} // verus!
