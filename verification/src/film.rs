//! The film: a rectangular grid of per-pixel samples in row-major order.
//!
//! ```text
//! [(0 0), (1 0), ..., (w-1 0)
//!  (0 1), (1 1), ..., (w-1 1)
//!  ...
//!  (0 h-1), (1 h-1), ..., (w-1 h-1)]
//! ```

use crate::math::scalar::is_quotient;
use crate::math::scalar::is_sum;
use crate::math::scalar::may_add;
use crate::math::scalar::may_div;
use crate::math::scalar::ScalarDiv;
use vstd::prelude::*;

verus! {

/// The linear index of column `x` in row `y` of a grid `width` wide.
pub open spec fn index_of(x: int, y: int, width: int) -> int {
    y * width + x
}

/// The column of the linear index `i` in a grid `width` wide.
pub open spec fn column_of(i: int, width: int) -> int {
    i % width
}

/// The row of the linear index `i` in a grid `width` wide.
pub open spec fn row_of(i: int, width: int) -> int {
    i / width
}

/// The row of the linear index `i` counted from the bottom: the stored row 0
/// is the top of the image and gets the highest number.
pub open spec fn flipped_row_of(i: int, width: int, height: int) -> int {
    height - row_of(i, width) - 1
}

/// Whether `(cell + jitter) / extent` may be computed, whatever `lift`
/// returns for `cell` and `extent` and whatever `jitter` returns.
pub open spec fn coordinate_req<S: ScalarDiv, L: Fn(usize) -> S, J: Fn() -> S>(
    lift: L,
    jitter: J,
    cell: usize,
    extent: usize,
) -> bool {
    forall|c: S, s: S, e: S|
        #![trigger call_ensures(lift, (cell,), c), call_ensures(jitter, (), s), call_ensures(lift, (extent,), e)]
        call_ensures(lift, (cell,), c) && call_ensures(jitter, (), s) && call_ensures(
            lift,
            (extent,),
            e,
        ) ==> {
            &&& may_add(c, s)
            &&& forall|q: S| #[trigger] is_sum(c, s, q) ==> may_div(q, e)
        }
}

/// `r` is a value that `(cell + jitter) / extent` may take, for values
/// that `lift` returns for `cell` and `extent` and that `jitter` returns.
pub open spec fn coordinate_of<S: ScalarDiv, L: Fn(usize) -> S, J: Fn() -> S>(
    lift: L,
    jitter: J,
    cell: usize,
    extent: usize,
    r: S,
) -> bool {
    exists|c: S, s: S, e: S, q: S|
        #![trigger call_ensures(lift, (cell,), c), call_ensures(lift, (extent,), e), is_sum(c, s, q)]
        {
            &&& call_ensures(lift, (cell,), c)
            &&& call_ensures(jitter, (), s)
            &&& call_ensures(lift, (extent,), e)
            &&& is_sum(c, s, q)
            &&& is_quotient(q, e, r)
        }
}

/// Whether `width / height` may be computed, whatever `lift` returns for
/// them.
pub open spec fn ratio_req<S: ScalarDiv, L: Fn(usize) -> S>(
    lift: L,
    width: usize,
    height: usize,
) -> bool {
    forall|w: S, h: S|
        #![trigger call_ensures(lift, (width,), w), call_ensures(lift, (height,), h)]
        call_ensures(lift, (width,), w) && call_ensures(lift, (height,), h) ==> may_div(w, h)
}

/// `r` is a value that `width / height` may take, for values that `lift`
/// returns for them.
pub open spec fn ratio_of<S: ScalarDiv, L: Fn(usize) -> S>(
    lift: L,
    width: usize,
    height: usize,
    r: S,
) -> bool {
    exists|w: S, h: S|
        #![trigger call_ensures(lift, (width,), w), call_ensures(lift, (height,), h)]
        call_ensures(lift, (width,), w) && call_ensures(lift, (height,), h) && is_quotient(w, h, r)
}

/// A grid of `width * height` samples, stored row by row from the top.
pub struct Film<T> {
    pub data: Vec<T>,
    pub width: usize,
    pub height: usize,
}

/// What a scan of the samples found wrong.
#[derive(Clone, Copy, Debug, PartialEq, Eq)]
pub enum Defect {
    /// Some sample is not a number.
    Nan,
    /// No sample is not a number, and some sample is infinite.
    Infinite,
}

impl<T> Film<T> {
    /// Both dimensions are positive, the number of pixels fits in `usize`,
    /// and there is one sample per pixel.
    pub open spec fn wf(&self) -> bool {
        &&& self.width > 0
        &&& self.height > 0
        &&& self.width * self.height <= usize::MAX
        &&& self.data@.len() == self.width * self.height
    }

    /// The column of the pixel that `index` addresses.
    pub open spec fn column(&self, index: usize) -> usize {
        column_of(index as int, self.width as int) as usize
    }

    /// The band of the pixel that `index` addresses: its row counted from
    /// the bottom.
    pub open spec fn band(&self, index: usize) -> usize {
        flipped_row_of(index as int, self.width as int, self.height as int) as usize
    }

    /// The sample at column `x` of row `y`.
    pub fn get(&self, x: usize, y: usize) -> (r: &T)
        requires
            self.wf(),
            x < self.width,
            y < self.height,
        ensures
            *r == self.data@[index_of(x as int, y as int, self.width as int)],
    {
        proof {
            lemma_index_in_range(x as int, y as int, self.width as int, self.height as int);
        }
        &self.data[y * self.width + x]
    }

    /// The pixel that the linear index `index` addresses, as the pair of
    /// its column and of its band, the row counted from the bottom.
    pub fn cell(&self, index: usize) -> (c: (usize, usize))
        requires
            self.wf(),
            index < self.width * self.height,
        ensures
            c.0 == column_of(index as int, self.width as int),
            c.1 == flipped_row_of(index as int, self.width as int, self.height as int),
            c == (self.column(index), self.band(index)),
            c.0 < self.width,
            c.1 < self.height,
    {
        proof {
            lemma_decompose(index as int, self.width as int, self.height as int);
        }
        let x = index % self.width;
        let y = self.height - index / self.width - 1;
        (x, y)
    }

    /// A sampling coordinate in the pixel that `index` addresses: with
    /// `(x, y) = cell(index)` and two values `su`, `sv` drawn from `jitter`,
    /// in this order, it is `((x + su) / width, (y + sv) / height)`, the
    /// integers being taken into `S` by `lift`. Every call draws anew.
    /// With jitter in `[0, 1)` the coordinate stays in the pixel's cell of
    /// the unit square (`lemma_jitter_in_cell`); row 0 of the film is the
    /// topmost band.
    pub fn uv<S: ScalarDiv, L: Fn(usize) -> S, J: Fn() -> S>(
        &self,
        index: usize,
        lift: &L,
        jitter: &J,
    ) -> (c: (S, S))
        requires
            self.wf(),
            index < self.width * self.height,
            forall|n: usize| call_requires(*lift, (n,)),
            call_requires(*jitter, ()),
            coordinate_req(*lift, *jitter, self.column(index), self.width),
            coordinate_req(*lift, *jitter, self.band(index), self.height),
        ensures
            coordinate_of(*lift, *jitter, self.column(index), self.width, c.0),
            coordinate_of(*lift, *jitter, self.band(index), self.height, c.1),
    {
        let (x, y) = self.cell(index);
        let su = jitter();
        let sv = jitter();
        let cx = lift(x);
        let cw = lift(self.width);
        let cy = lift(y);
        let ch = lift(self.height);
        let qx = cx + su;
        assert(is_sum(cx, su, qx));
        let u = qx / cw;
        let qy = cy + sv;
        assert(is_sum(cy, sv, qy));
        let v = qy / ch;
        (u, v)
    }

    /// The aspect ratio `width / height`, the integers being taken into
    /// `S` by `lift`.
    pub fn aspect<S: ScalarDiv, L: Fn(usize) -> S>(&self, lift: &L) -> (r: S)
        requires
            self.wf(),
            forall|n: usize| call_requires(*lift, (n,)),
            ratio_req(*lift, self.width, self.height),
        ensures
            ratio_of(*lift, self.width, self.height, r),
    {
        let w = lift(self.width);
        let h = lift(self.height);
        let r = w / h;
        r
    }

    /// The index of the first sample for which `pred` returns `true`.
    pub fn first_where<F: Fn(&T) -> bool>(&self, pred: &F) -> (r: Option<usize>)
        requires
            forall|i: int| 0 <= i < self.data@.len() ==> call_requires(*pred, (&self.data@[i],)),
        ensures
            match r {
                Some(k) => {
                    &&& k < self.data@.len()
                    &&& call_ensures(*pred, (&self.data@[k as int],), true)
                    &&& forall|j: int|
                        0 <= j < k ==> call_ensures(*pred, (&self.data@[j],), false)
                },
                None => forall|j: int|
                    0 <= j < self.data@.len() ==> call_ensures(*pred, (&self.data@[j],), false),
            },
    {
        let mut i: usize = 0;
        while i < self.data.len()
            invariant
                i <= self.data@.len(),
                forall|i: int|
                    0 <= i < self.data@.len() ==> call_requires(*pred, (&self.data@[i],)),
                forall|j: int| 0 <= j < i ==> call_ensures(*pred, (&self.data@[j],), false),
            decreases self.data@.len() - i,
        {
            if pred(&self.data[i]) {
                return Some(i);
            }
            i += 1;
        }
        None
    }

    /// Scans the samples for values that are not numbers, then for
    /// infinite ones, as `is_nan` and `is_infinite` tell them.
    pub fn validate<F: Fn(&T) -> bool, G: Fn(&T) -> bool>(&self, is_nan: &F, is_infinite: &G) -> (r:
        Result<(), Defect>)
        requires
            forall|i: int| 0 <= i < self.data@.len() ==> call_requires(*is_nan, (&self.data@[i],)),
            forall|i: int|
                0 <= i < self.data@.len() ==> call_requires(*is_infinite, (&self.data@[i],)),
        ensures
            match r {
                Ok(_) => forall|j: int|
                    0 <= j < self.data@.len() ==> {
                        &&& call_ensures(*is_nan, (&self.data@[j],), false)
                        &&& call_ensures(*is_infinite, (&self.data@[j],), false)
                    },
                Err(Defect::Nan) => exists|k: int|
                    0 <= k < self.data@.len() && call_ensures(*is_nan, (&self.data@[k],), true),
                Err(Defect::Infinite) => {
                    &&& forall|j: int|
                        0 <= j < self.data@.len() ==> call_ensures(
                            *is_nan,
                            (&self.data@[j],),
                            false,
                        )
                    &&& exists|k: int|
                        0 <= k < self.data@.len() && call_ensures(
                            *is_infinite,
                            (&self.data@[k],),
                            true,
                        )
                },
            },
    {
        match self.first_where(is_nan) {
            Some(_) => Err(Defect::Nan),
            None => match self.first_where(is_infinite) {
                Some(_) => Err(Defect::Infinite),
                None => Ok(()),
            },
        }
    }
}

impl<T: Copy> Film<T> {
    /// A film of `width * height` samples, each equal to `fill`.
    pub fn new(fill: T, width: usize, height: usize) -> (film: Self)
        requires
            width > 0,
            height > 0,
            width * height <= usize::MAX,
        ensures
            film.wf(),
            film.width == width,
            film.height == height,
            film.data@ == Seq::new((width * height) as nat, |i: int| fill),
    {
        let n = width * height;
        let mut data: Vec<T> = Vec::with_capacity(n);
        while data.len() < n
            invariant
                data@.len() <= n,
                forall|i: int| 0 <= i < data@.len() ==> data@[i] == fill,
            decreases n - data@.len(),
        {
            data.push(fill);
        }
        Film { data, width, height }
    }
}

/// A column and a row of the grid address an index of the grid.
pub proof fn lemma_index_in_range(x: int, y: int, width: int, height: int)
    requires
        0 <= x < width,
        0 <= y < height,
    ensures
        0 <= index_of(x, y, width) < width * height,
{
    assert(y * width + x < width * height) by (nonlinear_arith)
        requires
            0 <= x < width,
            0 <= y < height,
    ;
    assert(0 <= y * width) by (nonlinear_arith)
        requires
            0 <= y,
            0 < width,
    ;
}

/// An index of the grid decomposes into a column and a row of the grid,
/// and these recompose to the index.
pub proof fn lemma_decompose(i: int, width: int, height: int)
    requires
        0 < width,
        0 <= i < width * height,
    ensures
        0 <= column_of(i, width) < width,
        0 <= row_of(i, width) < height,
        0 <= flipped_row_of(i, width, height) < height,
        index_of(column_of(i, width), row_of(i, width), width) == i,
{
    vstd::arithmetic::div_mod::lemma_fundamental_div_mod(i, width);
    vstd::arithmetic::div_mod::lemma_mod_bound(i, width);
    assert(width * (i / width) == (i / width) * width) by (nonlinear_arith);
    assert(0 <= i / width < height) by (nonlinear_arith)
        requires
            0 < width,
            0 <= i < width * height,
            i == (i / width) * width + i % width,
            0 <= i % width < width,
    ;
}

/// A column and a row recompose to an index that decomposes to them: with
/// `lemma_decompose`, indices and pixels correspond one to one.
pub proof fn lemma_recompose(x: int, y: int, width: int)
    requires
        0 <= x < width,
        0 <= y,
    ensures
        column_of(index_of(x, y, width), width) == x,
        row_of(index_of(x, y, width), width) == y,
{
    vstd::arithmetic::div_mod::lemma_fundamental_div_mod_converse(y * width + x, width, y, x);
}

/// In a film filled with `fill`, every pixel reads `fill`.
pub proof fn lemma_filled_reads_fill<T>(film: Film<T>, fill: T, x: usize, y: usize)
    requires
        film.wf(),
        film.data@ == Seq::new((film.width * film.height) as nat, |i: int| fill),
        x < film.width,
        y < film.height,
    ensures
        film.data@[index_of(x as int, y as int, film.width as int)] == fill,
{
    lemma_index_in_range(x as int, y as int, film.width as int, film.height as int);
}

/// The flip reverses the rows: the stored row 0 is the highest band, the
/// last stored row is band 0, and a lower row is a higher band.
pub proof fn lemma_flip_reverses_rows(i: int, j: int, width: int, height: int)
    requires
        0 < width,
        0 <= i < width * height,
        0 <= j < width * height,
    ensures
        row_of(i, width) == 0 <==> flipped_row_of(i, width, height) == height - 1,
        row_of(i, width) == height - 1 <==> flipped_row_of(i, width, height) == 0,
        row_of(i, width) < row_of(j, width) <==> flipped_row_of(i, width, height)
            > flipped_row_of(j, width, height),
{
}

/// Jitter never leaves the pixel's cell. For a jitter `n / d` in `[0, 1)`
/// the exact coordinate of column `x` in a grid `width` wide is
/// `(x + n / d) / width = (x * d + n) / (width * d)`; it lies in
/// `[x / width, (x + 1) / width)`, and so in `[0, 1)`. The inequalities are
/// stated multiplied out by the positive denominators.
pub proof fn lemma_jitter_in_cell(x: int, width: int, n: int, d: int)
    requires
        0 <= x < width,
        0 <= n < d,
    ensures
        x * (width * d) <= (x * d + n) * width,
        (x * d + n) * width < (x + 1) * (width * d),
        0 <= x * d + n < width * d,
{
    assert(x * (width * d) <= (x * d + n) * width) by (nonlinear_arith)
        requires
            0 <= x < width,
            0 <= n < d,
    ;
    assert((x * d + n) * width < (x + 1) * (width * d)) by (nonlinear_arith)
        requires
            0 <= x < width,
            0 <= n < d,
    ;
    assert(0 <= x * d + n < width * d) by (nonlinear_arith)
        requires
            0 <= x < width,
            0 <= n < d,
    ;
}

} // verus!
