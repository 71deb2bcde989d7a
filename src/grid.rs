use vstd::prelude::*;

verus! {

/// The four axis neighbours of a cell: `left` is `x - 1`, `right` is
/// `x + 1`, `up` is `y - 1` and `down` is `y + 1`.
#[derive(Clone, Copy, Debug, PartialEq)]
pub struct Cross<T> {
    pub left: T,
    pub right: T,
    pub up: T,
    pub down: T,
}

/// A dense, row-major two-dimensional array. The cell at `(x, y)` is
/// stored at index `x + width * y`.
#[derive(Clone)]
pub struct Array2D<T> {
    width: usize,
    height: usize,
    storage: Vec<T>,
}

/// Flat index of the cell `(x, y)` in a row-major grid of the given width.
pub open spec fn flat_index(width: int, x: int, y: int) -> int {
    x + width * y
}

impl<T> View for Array2D<T> {
    type V = Seq<T>;

    closed spec fn view(&self) -> Seq<T> {
        self.storage@
    }
}

impl<T> Array2D<T> {
    /// The number of columns.
    pub closed spec fn cols(&self) -> nat {
        self.width as nat
    }

    /// The number of rows.
    pub closed spec fn rows(&self) -> nat {
        self.height as nat
    }

    /// Both dimensions are positive and the storage holds exactly one
    /// element per cell.
    pub open spec fn wf(&self) -> bool {
        &&& self.cols() > 0
        &&& self.rows() > 0
        &&& self@.len() == self.cols() * self.rows()
        &&& self.cols() * self.rows() <= usize::MAX
    }

    /// Whether `(x, y)` names a cell of the grid.
    pub open spec fn in_bounds(&self, x: int, y: int) -> bool {
        0 <= x < self.cols() && 0 <= y < self.rows()
    }

    /// The element at `(x, y)`, or `None` outside the grid.
    pub open spec fn cell(&self, x: int, y: int) -> Option<T> {
        if self.in_bounds(x, y) {
            Some(self@[flat_index(self.cols() as int, x, y)])
        } else {
            None
        }
    }

    /// The element at `(x, y)`, or `default` outside the grid.
    pub open spec fn cell_or(&self, x: int, y: int, default: T) -> T {
        match self.cell(x, y) {
            Some(v) => v,
            None => default,
        }
    }

    /// The four axis neighbours of `(x, y)`, each `default` where it falls
    /// outside the grid.
    pub open spec fn cross_or(&self, x: int, y: int, default: T) -> Cross<T> {
        Cross {
            left: self.cell_or(x - 1, y, default),
            right: self.cell_or(x + 1, y, default),
            up: self.cell_or(x, y - 1, default),
            down: self.cell_or(x, y + 1, default),
        }
    }

    /// Builds a `width` by `height` grid with every cell a clone of `val`.
    pub fn new(width: usize, height: usize, val: T) -> (r: Array2D<T>) where T: Clone
        requires
            width > 0,
            height > 0,
            width * height <= usize::MAX,
        ensures
            r.wf(),
            r.cols() == width,
            r.rows() == height,
            forall|i: int| 0 <= i < r@.len() ==> vstd::pervasive::cloned(val, #[trigger] r@[i]),
    {
        let n: usize = width * height;
        Array2D { width, height, storage: vec![val; n] }
    }


    /// Builds a `width` by `height` grid with every cell equal to `val`.
    pub fn filled(width: usize, height: usize, val: T) -> (r: Array2D<T>) where T: Copy
        requires
            width > 0,
            height > 0,
            width * height <= usize::MAX,
        ensures
            r.wf(),
            r.cols() == width,
            r.rows() == height,
            forall|i: int| 0 <= i < r@.len() ==> #[trigger] r@[i] == val,
    {
        let n: usize = width * height;
        let mut storage: Vec<T> = Vec::with_capacity(n);
        while storage.len() < n
            invariant
                storage@.len() <= n,
                forall|i: int| 0 <= i < storage@.len() ==> #[trigger] storage@[i] == val,
            decreases n - storage@.len(),
        {
            storage.push(val);
        }
        Array2D { width, height, storage }
    }

    /// Stores `v` at the in-bounds cell `(x, y)`, leaving every other cell
    /// as it was.
    pub fn set(&mut self, x: usize, y: usize, v: T)
        requires
            old(self).wf(),
            x < old(self).cols(),
            y < old(self).rows(),
        ensures
            final(self).wf(),
            final(self).cols() == old(self).cols(),
            final(self).rows() == old(self).rows(),
            final(self)@ == old(self)@.update(flat_index(old(self).cols() as int, x as int, y as int), v),
            final(self).cell(x as int, y as int) == Some(v),
            forall|x2: int, y2: int|
                (x2 != x || y2 != y) ==> #[trigger] final(self).cell(x2, y2) == old(self).cell(x2, y2),
    {
        let i = self.index_of(x, y);
        self.storage.set(i, v);
        proof {
            lemma_write_then_read(*old(self), *self, x as int, y as int, v);
        }
    }

    /// The number of columns.
    pub fn width(&self) -> (r: usize)
        ensures
            r == self.cols(),
    {
        self.width
    }

    /// The number of rows.
    pub fn height(&self) -> (r: usize)
        ensures
            r == self.rows(),
    {
        self.height
    }

    /// Flat storage index of an in-bounds cell.
    fn index_of(&self, x: usize, y: usize) -> (r: usize)
        requires
            self.wf(),
            x < self.cols(),
            y < self.rows(),
        ensures
            r == flat_index(self.cols() as int, x as int, y as int),
            r < self@.len(),
    {
        proof {
            lemma_flat_index_bounds(self.cols() as int, self.rows() as int, x as int, y as int);
        }
        x + self.width * y
    }

    /// The element at `(x, y)`, or `None` when `x < 0`, `y < 0`,
    /// `x >= width` or `y >= height`.
    pub fn get(&self, x: isize, y: isize) -> (r: Option<&T>)
        requires
            self.wf(),
        ensures
            r is Some <==> self.in_bounds(x as int, y as int),
            r is Some ==> self.cell(x as int, y as int) == Some(*r.unwrap()),
    {
        if x < 0 || y < 0 || x as usize >= self.width || y as usize >= self.height {
            None
        } else {
            let i = self.index_of(x as usize, y as usize);
            Some(&self.storage[i])
        }
    }

    /// A mutable reference to the element at `(x, y)`, or `None` outside the
    /// grid. Writing through the reference changes that cell and no other.
    pub fn get_mut(&mut self, x: isize, y: isize) -> (r: Option<&mut T>)
        requires
            old(self).wf(),
        ensures
            r is Some <==> old(self).in_bounds(x as int, y as int),
            final(self).cols() == old(self).cols(),
            final(self).rows() == old(self).rows(),
            match r {
                Some(e) => {
                    &&& old(self).cell(x as int, y as int) == Some(*e)
                    &&& final(self)@ == old(self)@.update(
                        flat_index(old(self).cols() as int, x as int, y as int),
                        *final(e),
                    )
                },
                None => final(self)@ == old(self)@,
            },
    {
        if x < 0 || y < 0 || x as usize >= self.width || y as usize >= self.height {
            None
        } else {
            let i = self.index_of(x as usize, y as usize);
            Some(&mut self.storage[i])
        }
    }

    /// The element at `(x, y)`, or `default` outside the grid: the grid's
    /// edge behaves as a fixed boundary value.
    pub fn get_or(&self, x: isize, y: isize, default: T) -> (r: T) where T: Copy
        requires
            self.wf(),
        ensures
            r == self.cell_or(x as int, y as int, default),
    {
        match self.get(x, y) {
            Some(v) => *v,
            None => default,
        }
    }


    /// The four axis neighbours of the in-bounds cell `(x, y)`, each
    /// `default` where it falls outside the grid.
    pub fn cross(&self, x: usize, y: usize, default: T) -> (r: Cross<T>) where T: Copy
        requires
            self.wf(),
            x < self.cols(),
            y < self.rows(),
        ensures
            r == self.cross_or(x as int, y as int, default),
    {
        let w = self.width;
        let i = self.index_of(x, y);
        proof {
            let wi = w as int;
            assert(wi * (y - 1) == wi * y - wi) by (nonlinear_arith);
            assert(wi * (y + 1) == wi * y + wi) by (nonlinear_arith);
            if y + 1 < self.height {
                lemma_flat_index_bounds(wi, self.rows() as int, x as int, y + 1);
            }
        }
        let left = if x > 0 {
            self.storage[i - 1]
        } else {
            default
        };
        let right = if x + 1 < w {
            self.storage[i + 1]
        } else {
            default
        };
        let up = if y > 0 {
            self.storage[i - w]
        } else {
            default
        };
        let down = if y + 1 < self.height {
            self.storage[i + w]
        } else {
            default
        };
        Cross { left, right, up, down }
    }

    /// The backing storage, row-major.
    pub fn as_slice(&self) -> (r: &[T])
        ensures
            r@ == self@,
    {
        self.storage.as_slice()
    }

    /// The backing storage, row-major, for in-place writes by flat index.
    pub fn as_mut_slice(&mut self) -> (r: &mut [T])
        ensures
            r@ == old(self)@,
            final(r)@ == final(self)@,
            final(self).cols() == old(self).cols(),
            final(self).rows() == old(self).rows(),
    {
        self.storage.as_mut_slice()
    }
}

impl<T> core::ops::Deref for Array2D<T> {
    type Target = [T];

    fn deref(&self) -> (r: &[T])
        ensures
            r@ == self@,
    {
        self.storage.as_slice()
    }
}

impl<T> core::ops::DerefMut for Array2D<T> {
    fn deref_mut(&mut self) -> (r: &mut [T])
        ensures
            r@ == old(self)@,
            final(r)@ == final(self)@,
            final(self).cols() == old(self).cols(),
            final(self).rows() == old(self).rows(),
    {
        self.storage.as_mut_slice()
    }
}

/// A cell inside the grid has a flat index inside the storage.
pub proof fn lemma_flat_index_bounds(w: int, h: int, x: int, y: int)
    requires
        0 <= x < w,
        0 <= y < h,
    ensures
        0 <= flat_index(w, x, y) < w * h,
{
    assert(0 <= w * y) by (nonlinear_arith)
        requires
            0 <= y,
            0 < w,
    ;
    assert(w * y + w <= w * h) by (nonlinear_arith)
        requires
            y + 1 <= h,
            0 < w,
    ;
}


/// Distinct cells of a grid occupy distinct storage slots.
pub proof fn lemma_flat_index_injective(w: int, x1: int, y1: int, x2: int, y2: int)
    requires
        0 <= x1 < w,
        0 <= x2 < w,
        0 <= y1,
        0 <= y2,
        flat_index(w, x1, y1) == flat_index(w, x2, y2),
    ensures
        x1 == x2,
        y1 == y2,
{
    if y1 < y2 {
        assert(w * y1 + w <= w * y2) by (nonlinear_arith)
            requires
                y1 + 1 <= y2,
                0 < w,
        ;
    } else if y2 < y1 {
        assert(w * y2 + w <= w * y1) by (nonlinear_arith)
            requires
                y2 + 1 <= y1,
                0 < w,
        ;
    }
}

/// A value stored at an in-range cell through `get_mut` is the value that
/// `get` then reads at that cell, and every other cell reads as before.
/// Out-of-range coordinates read as no value before and after.
pub proof fn lemma_write_then_read<T>(before: Array2D<T>, after: Array2D<T>, x: int, y: int, v: T)
    requires
        before.wf(),
        before.in_bounds(x, y),
        after.cols() == before.cols(),
        after.rows() == before.rows(),
        after@ == before@.update(flat_index(before.cols() as int, x, y), v),
    ensures
        after.wf(),
        after.cell(x, y) == Some(v),
        forall|x2: int, y2: int|
            (x2 != x || y2 != y) ==> #[trigger] after.cell(x2, y2) == before.cell(x2, y2),
{
    lemma_flat_index_bounds(before.cols() as int, before.rows() as int, x, y);
    assert forall|x2: int, y2: int| (x2 != x || y2 != y) implies #[trigger] after.cell(x2, y2)
        == before.cell(x2, y2) by {
        if before.in_bounds(x2, y2) {
            let w = before.cols() as int;
            lemma_flat_index_bounds(w, before.rows() as int, x2, y2);
            if flat_index(w, x2, y2) == flat_index(w, x, y) {
                lemma_flat_index_injective(w, x2, y2, x, y);
            }
        }
    }
}


/// Every storage index names exactly one cell: column `i % w`, row `i / w`.
pub proof fn lemma_cell_of_index(w: int, h: int, i: int)
    requires
        0 < w,
        0 <= i < w * h,
    ensures
        0 <= i % w < w,
        0 <= i / w < h,
        flat_index(w, i % w, i / w) == i,
{
    vstd::arithmetic::div_mod::lemma_fundamental_div_mod(i, w);
    vstd::arithmetic::div_mod::lemma_div_pos_is_pos(i, w);
    vstd::arithmetic::div_mod::lemma_mod_pos_bound(i, w);
    if i / w >= h {
        assert(w * (i / w) >= w * h) by (nonlinear_arith)
            requires
                i / w >= h,
                0 < w,
        ;
    }
}

} // verus!
