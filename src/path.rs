use vstd::math::{abs, max};
use vstd::prelude::*;

use crate::balance::{Balance, BalanceError};

verus! {

/// The sum of the x-coordinates of a sequence of moves.
pub open spec fn total_x(s: Seq<Balance>) -> int
    decreases s.len(),
{
    if s.len() == 0 {
        0
    } else {
        total_x(s.drop_last()) + s.last().coord_x()
    }
}

/// The sum of the y-coordinates of a sequence of moves.
pub open spec fn total_y(s: Seq<Balance>) -> int
    decreases s.len(),
{
    if s.len() == 0 {
        0
    } else {
        total_y(s.drop_last()) + s.last().coord_y()
    }
}

/// The sign of `v`: `-1`, `0` or `1`.
pub open spec fn sign(v: int) -> int {
    if v > 0 {
        1
    } else if v < 0 {
        -1
    } else {
        0
    }
}

/// The unit moves that make up the displacement `(x, y)`: each takes one
/// step toward zero on every coordinate not yet zero, so they go diagonally
/// while both coordinates remain and straight after that.
pub open spec fn steps(x: int, y: int) -> Seq<Balance>
    decreases abs(x) + abs(y),
{
    if x == 0 && y == 0 {
        Seq::empty()
    } else {
        seq![Balance::at(sign(x), sign(y))] + steps(x - sign(x), y - sign(y))
    }
}

/// The shortest sequence of moves with the same displacement as `s`.
pub open spec fn normal_form(s: Seq<Balance>) -> Seq<Balance> {
    steps(total_x(s), total_y(s))
}

/// Whether `v` fits in an `i8`.
pub open spec fn fits_i8(v: int) -> bool {
    i8::MIN <= v <= i8::MAX
}

/// The displacement of two sequences one after the other is the sum of
/// their displacements.
pub proof fn lemma_total_concat(a: Seq<Balance>, b: Seq<Balance>)
    ensures
        total_x(a + b) == total_x(a) + total_x(b),
        total_y(a + b) == total_y(a) + total_y(b),
    decreases b.len(),
{
    if b.len() == 0 {
        assert(a + b =~= a);
    } else {
        assert((a + b).drop_last() =~= a + b.drop_last());
        lemma_total_concat(a, b.drop_last());
    }
}

/// The moves of `steps(x, y)` add up to `(x, y)`, and there are as many of
/// them as the larger of `|x|` and `|y|`.
pub proof fn lemma_steps(x: int, y: int)
    ensures
        total_x(steps(x, y)) == x,
        total_y(steps(x, y)) == y,
        steps(x, y).len() == max(abs(x) as int, abs(y) as int),
    decreases abs(x) + abs(y),
{
    if x != 0 || y != 0 {
        let head = seq![Balance::at(sign(x), sign(y))];
        lemma_steps(x - sign(x), y - sign(y));
        lemma_total_concat(head, steps(x - sign(x), y - sign(y)));
        assert(head.drop_last() =~= Seq::<Balance>::empty());
        assert(total_x(head.drop_last()) == 0 && total_y(head.drop_last()) == 0);
        assert(total_x(head) == sign(x) && total_y(head) == sign(y));
        assert(steps(x, y) == head + steps(x - sign(x), y - sign(y)));
    }
}

/// The sign of `v`.
fn signum(v: i8) -> (r: i8)
    ensures
        r == sign(v as int),
{
    if v > 0 {
        1
    } else if v < 0 {
        -1
    } else {
        0
    }
}

/// An ordered sequence of moves on the grid, each one step given as a
/// `Balance`.
#[derive(Clone, Debug)]
pub struct Path {
    raw: Vec<Balance>,
}

impl View for Path {
    type V = Seq<Balance>;

    closed spec fn view(&self) -> Seq<Balance> {
        self.raw@
    }
}

impl Path {
    /// Creates a path from the given moves, in order.
    pub fn new(movements: Vec<Balance>) -> (r: Path)
        ensures
            r@ == movements@,
    {
        Path { raw: movements }
    }

    /// Returns the number of moves.
    pub fn len(&self) -> (r: usize)
        ensures
            r == self@.len(),
    {
        self.raw.len()
    }

    /// Whether the path holds no move.
    pub fn is_empty(&self) -> (r: bool)
        ensures
            r == (self@.len() == 0),
    {
        self.raw.len() == 0
    }

    /// Returns the move at `index`, or `None` past the end.
    pub fn get(&self, index: usize) -> (r: Option<&Balance>)
        ensures
            index < self@.len() ==> r == Some(&self@[index as int]),
            index >= self@.len() ==> r is None,
    {
        if index < self.raw.len() {
            Some(&self.raw[index])
        } else {
            None
        }
    }

    /// Returns an iterator over the moves, first to last.
    pub fn iter(&self) -> (r: std::slice::Iter<'_, Balance>)
        ensures
            vstd::std_specs::slice::into_iter_elts(r) == self@,
    {
        self.raw.as_slice().iter()
    }

    /// Returns the moves as a mutable slice, which can be walked with
    /// `iter_mut` or a `for` loop to change moves in place.
    pub fn iter_mut(&mut self) -> (r: &mut [Balance])
        ensures
            r@ == old(self)@,
            final(r)@ == final(self)@,
    {
        self.raw.as_mut_slice()
    }

    /// Appends a move at the end.
    pub fn push(&mut self, movement: Balance)
        ensures
            final(self)@ == old(self)@.push(movement),
    {
        self.raw.push(movement);
    }

    /// Removes the last move and returns it, or `None` when the path is empty.
    pub fn pop(&mut self) -> (r: Option<Balance>)
        ensures
            old(self)@.len() == 0 ==> r is None && final(self)@ == old(self)@,
            old(self)@.len() > 0 ==> r == Some(old(self)@.last())
                && final(self)@ == old(self)@.drop_last(),
    {
        self.raw.pop()
    }

    /// Removes every move.
    pub fn clear(&mut self)
        ensures
            final(self)@ == Seq::<Balance>::empty(),
    {
        self.raw.clear();
    }
    /// Returns the displacement of the whole path: the sums of the moves'
    /// x- and y-coordinates. Partial sums may leave the grid; only the total
    /// has to fit in the result.
    pub fn to_vector(&self) -> (r: (i8, i8))
        requires
            fits_i8(total_x(self@)),
            fits_i8(total_y(self@)),
        ensures
            r.0 == total_x(self@),
            r.1 == total_y(self@),
    {
        let mut x: i128 = 0;
        let mut y: i128 = 0;
        let mut i: usize = 0;
        while i < self.raw.len()
            invariant
                0 <= i <= self.raw@.len(),
                x == total_x(self.raw@.take(i as int)),
                y == total_y(self.raw@.take(i as int)),
                -(i as int) <= x <= i,
                -(i as int) <= y <= i,
            decreases self.raw@.len() - i,
        {
            let (a, b) = self.raw[i].to_vector();
            proof {
                assert(self.raw@.take(i + 1).drop_last() =~= self.raw@.take(i as int));
            }
            x = x + a as i128;
            y = y + b as i128;
            i = i + 1;
        }
        assert(self.raw@.take(i as int) =~= self.raw@);
        (x as i8, y as i8)
    }

    /// Returns the path that takes the displacement `(x, y)` in unit moves:
    /// each move steps one unit toward the target on every coordinate that
    /// is not yet reached, so there are `max(|x|, |y|)` of them.
    pub fn from_vector(x: i8, y: i8) -> (r: Path)
        ensures
            r@ == steps(x as int, y as int),
            r@.len() == max(abs(x as int) as int, abs(y as int) as int),
            total_x(r@) == x,
            total_y(r@) == y,
    {
        let mut movements: Vec<Balance> = Vec::new();
        let mut rx: i8 = x;
        let mut ry: i8 = y;
        proof {
            lemma_steps(x as int, y as int);
            assert(movements@ + steps(rx as int, ry as int) =~= steps(x as int, y as int));
        }
        while rx != 0 || ry != 0
            invariant
                movements@ + steps(rx as int, ry as int) == steps(x as int, y as int),
            decreases abs(rx as int) + abs(ry as int),
        {
            let a = signum(rx);
            let b = signum(ry);
            let ghost before = movements@;
            let step = Balance::at_unit(a, b);
            rx = rx - a;
            ry = ry - b;
            movements.push(step);
            proof {
                assert(movements@ + steps(rx as int, ry as int) =~= before + steps(
                    rx + a,
                    ry + b,
                ));
            }
        }
        assert(movements@ =~= steps(x as int, y as int));
        Path { raw: movements }
    }
    /// Returns the shortest path with the same displacement: moves that
    /// cancel out are dropped and the rest are regrouped into diagonal moves
    /// first.
    pub fn normalized(&self) -> (r: Path)
        requires
            fits_i8(total_x(self@)),
            fits_i8(total_y(self@)),
        ensures
            r@ == normal_form(self@),
    {
        let (x, y) = self.to_vector();
        Self::from_vector(x, y)
    }

    /// Returns the same moves in the opposite order.
    pub fn reversed(&self) -> (r: Path)
        ensures
            r@ == self@.reverse(),
    {
        let mut movements: Vec<Balance> = Vec::new();
        let n = self.raw.len();
        let mut i: usize = n;
        while i > 0
            invariant
                0 <= i <= n,
                n == self.raw@.len(),
                movements@.len() == n - i,
                forall|k: int| 0 <= k < n - i ==> movements@[k] == self.raw@[n - 1 - k],
            decreases i,
        {
            i = i - 1;
            movements.push(self.raw[i]);
        }
        assert(movements@ =~= self.raw@.reverse());
        Path { raw: movements }
    }

    /// Returns the path of `f` applied to each move.
    pub fn each<F: Fn(Balance) -> Balance>(&self, f: F) -> (r: Path)
        requires
            forall|k: int| 0 <= k < self@.len() ==> f.requires((self@[k],)),
        ensures
            r@.len() == self@.len(),
            forall|k: int| 0 <= k < self@.len() ==> f.ensures((self@[k],), #[trigger] r@[k]),
    {
        let mut movements: Vec<Balance> = Vec::with_capacity(self.raw.len());
        let mut i: usize = 0;
        assert(self@ == self.raw@);
        while i < self.raw.len()
            invariant
                0 <= i <= self.raw@.len(),
                movements@.len() == i,
                forall|k: int| 0 <= k < self.raw@.len() ==> f.requires((#[trigger] self.raw@[k],)),
                forall|k: int| 0 <= k < i ==> f.ensures((self.raw@[k],), #[trigger] movements@[k]),
            decreases self.raw@.len() - i,
        {
            movements.push(f(self.raw[i]));
            i = i + 1;
        }
        Path { raw: movements }
    }

    /// Returns the path of `f(m, other)` for each move `m`.
    pub fn each_with<F: Fn(Balance, Balance) -> Balance>(&self, f: F, other: Balance) -> (r: Path)
        requires
            forall|k: int| 0 <= k < self@.len() ==> f.requires((self@[k], other)),
        ensures
            r@.len() == self@.len(),
            forall|k: int| 0 <= k < self@.len() ==> f.ensures((self@[k], other), #[trigger] r@[k]),
    {
        let mut movements: Vec<Balance> = Vec::with_capacity(self.raw.len());
        let mut i: usize = 0;
        while i < self.raw.len()
            invariant
                0 <= i <= self.raw@.len(),
                movements@.len() == i,
                forall|k: int| 0 <= k < self.raw@.len() ==> f.requires((self.raw@[k], other)),
                forall|k: int|
                    0 <= k < i ==> f.ensures((self.raw@[k], other), #[trigger] movements@[k]),
            decreases self.raw@.len() - i,
        {
            movements.push(f(self.raw[i], other));
            i = i + 1;
        }
        Path { raw: movements }
    }

    /// Returns the path of `f(a, b)` for each pair of moves at the same
    /// place in `self` and `other`. Paths of different lengths are refused
    /// with `LengthMismatch` rather than cut to the shorter one.
    pub fn each_zip<F: Fn(Balance, Balance) -> Balance>(&self, f: F, other: &Path) -> (r: Result<
        Path,
        BalanceError,
    >)
        requires
            self@.len() == other@.len() ==> forall|k: int|
                0 <= k < self@.len() ==> f.requires((self@[k], other@[k])),
        ensures
            self@.len() != other@.len() ==> r == Err::<Path, BalanceError>(
                BalanceError::LengthMismatch,
            ),
            self@.len() == other@.len() ==> r is Ok && r->Ok_0@.len() == self@.len() && forall|
                k: int,
            |
                0 <= k < self@.len() ==> f.ensures((self@[k], other@[k]), #[trigger] r->Ok_0@[k]),
    {
        if self.raw.len() != other.raw.len() {
            return Err(BalanceError::LengthMismatch);
        }
        let mut movements: Vec<Balance> = Vec::with_capacity(self.raw.len());
        let mut i: usize = 0;
        while i < self.raw.len()
            invariant
                0 <= i <= self.raw@.len(),
                self.raw@.len() == other.raw@.len(),
                movements@.len() == i,
                forall|k: int|
                    0 <= k < self.raw@.len() ==> f.requires((self.raw@[k], other.raw@[k])),
                forall|k: int|
                    0 <= k < i ==> f.ensures(
                        (self.raw@[k], other.raw@[k]),
                        #[trigger] movements@[k],
                    ),
            decreases self.raw@.len() - i,
        {
            movements.push(f(self.raw[i], other.raw[i]));
            i = i + 1;
        }
        Ok(Path { raw: movements })
    }
}


impl PartialEq for Path {
    fn eq(&self, other: &Path) -> (r: bool) {
        if self.raw.len() != other.raw.len() {
            return false;
        }
        let mut i: usize = 0;
        while i < self.raw.len()
            invariant
                0 <= i <= self.raw@.len(),
                self.raw@.len() == other.raw@.len(),
                forall|k: int| 0 <= k < i ==> self.raw@[k] == other.raw@[k],
            decreases self.raw@.len() - i,
        {
            if self.raw[i] != other.raw[i] {
                return false;
            }
            i = i + 1;
        }
        assert(self.raw@ =~= other.raw@);
        true
    }
}

impl vstd::std_specs::cmp::PartialEqSpecImpl for Path {
    open spec fn obeys_eq_spec() -> bool {
        true
    }

    open spec fn eq_spec(&self, other: &Path) -> bool {
        self@ == other@
    }
}

} // verus!
