use vstd::prelude::*;
use crate::scalar::Scalar;
use crate::vct::{spec_vdot, sum_prods, Vct};

verus! {

/// A rectangular grid: `r` rows, each of `c` elements.
pub open spec fn wf_grid<T>(g: Seq<Seq<T>>, r: int, c: int) -> bool {
    g.len() == r && forall|i: int| 0 <= i < r ==> (#[trigger] g[i]).len() == c
}

/// The `k`-th column of a grid, top to bottom.
pub open spec fn spec_col<T>(g: Seq<Seq<T>>, k: int) -> Seq<T> {
    Seq::new(g.len(), |i: int| g[i][k])
}

/// The transpose of an `rows`×`cols` grid: entry (c, r) holds entry (r, c)
/// of the original.
pub open spec fn spec_transpose<T>(g: Seq<Seq<T>>, rows: int, cols: int) -> Seq<Seq<T>> {
    Seq::new(cols as nat, |c: int| Seq::new(rows as nat, |r: int| g[r][c]))
}

/// The matrix product of an n×m grid with an m×k grid: entry (r, c) is the
/// inner product of row r of `a` with column c of `b`.
pub open spec fn spec_matmul<T: Scalar>(a: Seq<Seq<T>>, b: Seq<Seq<T>>, k: int) -> Seq<Seq<T>> {
    Seq::new(a.len(), |r: int| Seq::new(k as nat, |c: int| spec_vdot(a[r], spec_col(b, c))))
}

/// The n×n grid with ones on the diagonal and zeros elsewhere.
pub open spec fn spec_identity<T: Scalar>(n: int) -> Seq<Seq<T>> {
    Seq::new(
        n as nat,
        |r: int|
            Seq::new(
                n as nat,
                |c: int|
                    if r == c {
                        T::spec_one()
                    } else {
                        T::spec_zero()
                    },
            ),
    )
}

/// A matrix applied to a vector: entry r is the inner product of row r
/// with the vector.
pub open spec fn spec_mat_vec<T: Scalar>(m: Seq<Seq<T>>, v: Seq<T>) -> Seq<T> {
    Seq::new(m.len(), |r: int| spec_vdot(m[r], v))
}

/// The running sum of the first `n` elements, folded left to right from zero.
pub open spec fn sum_seq<T: Scalar>(s: Seq<T>, n: int) -> T
    decreases n,
{
    if n <= 0 {
        T::spec_zero()
    } else {
        sum_seq(s, n - 1).spec_add(s[n - 1])
    }
}

/// The running sum of the row sums of the first `n` rows.
pub open spec fn grid_sum<T: Scalar>(g: Seq<Seq<T>>, n: int) -> T
    decreases n,
{
    if n <= 0 {
        T::spec_zero()
    } else {
        grid_sum(g, n - 1).spec_add(sum_seq(g[n - 1], g[n - 1].len() as int))
    }
}

/// The running sum of the row inner products of the first `n` rows: the
/// flattened same-shape inner product of two grids.
pub open spec fn grid_dot<T: Scalar>(a: Seq<Seq<T>>, b: Seq<Seq<T>>, n: int) -> T
    decreases n,
{
    if n <= 0 {
        T::spec_zero()
    } else {
        grid_dot(a, b, n - 1).spec_add(spec_vdot(a[n - 1], b[n - 1]))
    }
}

/// The rows of the first `n` rows laid end to end, row-major.
pub open spec fn spec_flat<T>(g: Seq<Seq<T>>, n: int) -> Seq<T>
    decreases n,
{
    if n <= 0 {
        Seq::empty()
    } else {
        spec_flat(g, n - 1) + g[n - 1]
    }
}

/// A dense fixed-shape numeric grid, stored row-major.
///
/// The shape (R rows, C columns) is part of the type, so arithmetic between
/// incompatibly shaped matrices is rejected before the program runs.
#[derive(Clone, Debug)]
pub struct Mat<T, const R: usize, const C: usize> {
    contents: Vec<Vec<T>>,
}

impl<T, const R: usize, const C: usize> View for Mat<T, R, C> {
    type V = Seq<Seq<T>>;

    closed spec fn view(&self) -> Seq<Seq<T>> {
        self.contents@.map_values(|row: Vec<T>| row@)
    }
}

impl<T: Scalar, const R: usize, const C: usize> Mat<T, R, C> {
    /// A matrix really holds R rows of C elements.
    pub open spec fn wf(self) -> bool {
        wf_grid(self@, R as int, C as int)
    }

    /// A borrow of the backing storage of row `i`.
    fn row_ref(&self, i: usize) -> (r: &Vec<T>)
        requires
            self.wf(),
            i < R,
        ensures
            r@ == self@[i as int],
            r@.len() == C,
    {
        proof {
            assert(self@[i as int].len() == C);
            assert(self@[i as int] == self.contents@[i as int]@);
        }
        &self.contents[i]
    }

    /// The raw entry read, with the view bridged to the backing storage.
    fn get(&self, i: usize, j: usize) -> (r: T)
        requires
            self.wf(),
            i < R,
            j < C,
        ensures
            r == self@[i as int][j as int],
    {
        let row = self.row_ref(i);
        row[j]
    }

    /// The matrix with every entry equal to `val`.
    pub fn fill(val: T) -> (r: Self)
        ensures
            r.wf(),
            forall|i: int, j: int| 0 <= i < R && 0 <= j < C ==> #[trigger] r@[i][j] == val,
    {
        let mut contents: Vec<Vec<T>> = Vec::new();
        let mut i: usize = 0;
        while i < R
            invariant
                i <= R,
                contents@.len() == i,
                forall|a: int| 0 <= a < i ==> (#[trigger] contents@[a])@.len() == C,
                forall|a: int, b: int|
                    0 <= a < i && 0 <= b < C ==> #[trigger] contents@[a]@[b] == val,
            decreases R - i,
        {
            let mut row: Vec<T> = Vec::new();
            let mut j: usize = 0;
            while j < C
                invariant
                    j <= C,
                    row@.len() == j,
                    forall|b: int| 0 <= b < j ==> #[trigger] row@[b] == val,
                decreases C - j,
            {
                row.push(val);
                j += 1;
            }
            contents.push(row);
            i += 1;
        }
        Mat { contents }
    }

    /// The all-zero matrix.
    pub fn zero() -> (r: Self)
        ensures
            r.wf(),
            forall|i: int, j: int|
                0 <= i < R && 0 <= j < C ==> #[trigger] r@[i][j] == T::spec_zero(),
    {
        Self::fill(T::zero())
    }

    /// The matrix whose (i, j) entry is `generator(i, j)`.
    pub fn generate<F: Fn(usize, usize) -> T>(generator: F) -> (r: Self)
        requires
            forall|i: usize, j: usize| i < R && j < C ==> call_requires(generator, (i, j)),
        ensures
            r.wf(),
            forall|i: int, j: int|
                0 <= i < R && 0 <= j < C ==> call_ensures(
                    generator,
                    (i as usize, j as usize),
                    #[trigger] r@[i][j],
                ),
    {
        let mut contents: Vec<Vec<T>> = Vec::new();
        let mut i: usize = 0;
        while i < R
            invariant
                i <= R,
                contents@.len() == i,
                forall|a: usize, b: usize| a < R && b < C ==> call_requires(generator, (a, b)),
                forall|a: int| 0 <= a < i ==> (#[trigger] contents@[a])@.len() == C,
                forall|a: int, b: int|
                    0 <= a < i && 0 <= b < C ==> call_ensures(
                        generator,
                        (a as usize, b as usize),
                        #[trigger] contents@[a]@[b],
                    ),
            decreases R - i,
        {
            let mut row: Vec<T> = Vec::new();
            let mut j: usize = 0;
            while j < C
                invariant
                    j <= C,
                    i < R,
                    row@.len() == j,
                    forall|a: usize, b: usize| a < R && b < C ==> call_requires(generator, (a, b)),
                    forall|b: int|
                        0 <= b < j ==> call_ensures(
                            generator,
                            (i, b as usize),
                            #[trigger] row@[b],
                        ),
                decreases C - j,
            {
                row.push(generator(i, j));
                j += 1;
            }
            contents.push(row);
            i += 1;
        }
        Mat { contents }
    }

    /// A matrix owning the given rows.
    pub fn from_arrays(arrays: Vec<Vec<T>>) -> (r: Self)
        requires
            arrays@.len() == R,
            forall|i: int| 0 <= i < R ==> (#[trigger] arrays@[i])@.len() == C,
        ensures
            r.wf(),
            forall|i: int| 0 <= i < R ==> #[trigger] r@[i] == arrays@[i]@,
    {
        Mat { contents: arrays }
    }

    /// The entry at row `i`, column `j`; indexing out of range is a caller
    /// error kept out by the precondition.
    pub fn at(&self, i: usize, j: usize) -> (r: T)
        requires
            self.wf(),
            i < R,
            j < C,
        ensures
            r == self@[i as int][j as int],
    {
        self.get(i, j)
    }

    /// Writes the entry at row `i`, column `j`, leaving the rest unchanged.
    pub fn set_at(&mut self, i: usize, j: usize, val: T)
        requires
            old(self).wf(),
            i < R,
            j < C,
        ensures
            final(self).wf(),
            final(self)@ == old(self)@.update(
                i as int,
                old(self)@[i as int].update(j as int, val),
            ),
    {
        proof {
            assert(old(self)@[i as int].len() == C);
        }
        let mut row: Vec<T> = Vec::new();
        let mut b: usize = 0;
        while b < C
            invariant
                b <= C,
                i < R,
                j < C,
                self == old(self),
                self.wf(),
                old(self)@[i as int].len() == C,
                row@.len() == b,
                forall|x: int|
                    0 <= x < b ==> #[trigger] row@[x] == old(self)@[i as int].update(
                        j as int,
                        val,
                    )[x],
            decreases C - b,
        {
            if b == j {
                row.push(val);
            } else {
                row.push(self.get(i, b));
            }
            b += 1;
        }
        assert(row@ =~= old(self)@[i as int].update(j as int, val));
        self.contents.set(i, row);
        assert(final(self)@ =~= old(self)@.update(
            i as int,
            old(self)@[i as int].update(j as int, val),
        ));
    }

    /// The `i`-th row, read out as a vector (a defensive copy of C scalars).
    pub fn row(&self, i: usize) -> (v: Vct<T, C>)
        requires
            self.wf(),
            i < R,
        ensures
            v.wf(),
            v@ == self@[i as int],
    {
        Vct::<T, C>::from_array_ref(self.row_ref(i))
    }

    /// The `j`-th column, read out as a vector.
    pub fn col(&self, j: usize) -> (v: Vct<T, R>)
        requires
            self.wf(),
            j < C,
        ensures
            v.wf(),
            v@ == spec_col(self@, j as int),
    {
        let mut contents: Vec<T> = Vec::new();
        let mut i: usize = 0;
        while i < R
            invariant
                i <= R,
                j < C,
                self.wf(),
                contents@.len() == i,
                forall|a: int| 0 <= a < i ==> #[trigger] contents@[a] == self@[a][j as int],
            decreases R - i,
        {
            contents.push(self.get(i, j));
            i += 1;
        }
        let v = Vct::<T, R>::from_array(contents);
        assert(v@ =~= spec_col(self@, j as int));
        v
    }

    /// The transpose: entry (j, i) of the result is entry (i, j) of the
    /// receiver; every element is visited exactly once.
    pub fn transpose(&self) -> (r: Mat<T, C, R>)
        requires
            self.wf(),
        ensures
            r.wf(),
            r@ == spec_transpose(self@, R as int, C as int),
    {
        let mut contents: Vec<Vec<T>> = Vec::new();
        let mut j: usize = 0;
        while j < C
            invariant
                j <= C,
                self.wf(),
                contents@.len() == j,
                forall|a: int|
                    0 <= a < j ==> (#[trigger] contents@[a])@ == spec_transpose(
                        self@,
                        R as int,
                        C as int,
                    )[a],
            decreases C - j,
        {
            let mut row: Vec<T> = Vec::new();
            let mut i: usize = 0;
            while i < R
                invariant
                    i <= R,
                    j < C,
                    self.wf(),
                    row@.len() == i,
                    forall|b: int| 0 <= b < i ==> #[trigger] row@[b] == self@[b][j as int],
                decreases R - i,
            {
                row.push(self.get(i, j));
                i += 1;
            }
            assert(row@ =~= spec_transpose(self@, R as int, C as int)[j as int]);
            contents.push(row);
            j += 1;
        }
        let r = Mat::<T, C, R> { contents };
        assert(r@ =~= spec_transpose(self@, R as int, C as int));
        r
    }

    /// The rows laid end to end: a row-major flattening of the grid.
    pub fn flatten(&self) -> (r: Vec<T>)
        requires
            self.wf(),
        ensures
            r@ == spec_flat(self@, R as int),
    {
        let mut out: Vec<T> = Vec::new();
        let mut i: usize = 0;
        while i < R
            invariant
                i <= R,
                self.wf(),
                out@ == spec_flat(self@, i as int),
            decreases R - i,
        {
            let mut j: usize = 0;
            while j < C
                invariant
                    j <= C,
                    i < R,
                    self.wf(),
                    out@ == spec_flat(self@, i as int) + self@[i as int].subrange(0, j as int),
                decreases C - j,
            {
                out.push(self.get(i, j));
                assert(out@ =~= spec_flat(self@, i as int) + self@[i as int].subrange(
                    0,
                    j + 1 as int,
                ));
                j += 1;
            }
            assert(out@ =~= spec_flat(self@, (i + 1) as int));
            i += 1;
        }
        out
    }

    /// Elementwise sum of two same-shape matrices.
    pub fn add(&self, rhs: &Self) -> (r: Self)
        requires
            self.wf(),
            rhs.wf(),
        ensures
            r.wf(),
            forall|i: int, j: int|
                0 <= i < R && 0 <= j < C ==> #[trigger] r@[i][j] == self@[i][j].spec_add(
                    rhs@[i][j],
                ),
    {
        let mut contents: Vec<Vec<T>> = Vec::new();
        let mut i: usize = 0;
        while i < R
            invariant
                i <= R,
                self.wf(),
                rhs.wf(),
                contents@.len() == i,
                forall|a: int| 0 <= a < i ==> (#[trigger] contents@[a])@.len() == C,
                forall|a: int, b: int|
                    0 <= a < i && 0 <= b < C ==> #[trigger] contents@[a]@[b] == self@[a][b].spec_add(
                        rhs@[a][b],
                    ),
            decreases R - i,
        {
            let mut row: Vec<T> = Vec::new();
            let mut j: usize = 0;
            while j < C
                invariant
                    j <= C,
                    i < R,
                    self.wf(),
                    rhs.wf(),
                    row@.len() == j,
                    forall|b: int|
                        0 <= b < j ==> #[trigger] row@[b] == self@[i as int][b].spec_add(
                            rhs@[i as int][b],
                        ),
                decreases C - j,
            {
                row.push(self.get(i, j).add(rhs.get(i, j)));
                j += 1;
            }
            contents.push(row);
            i += 1;
        }
        Mat { contents }
    }

    /// The same-shape flattened inner product: the sum over every position
    /// of the product of the two entries there.
    pub fn dot(&self, rhs: &Self) -> (r: T)
        requires
            self.wf(),
            rhs.wf(),
        ensures
            r == grid_dot(self@, rhs@, R as int),
    {
        let mut acc = T::zero();
        let mut i: usize = 0;
        while i < R
            invariant
                i <= R,
                self.wf(),
                rhs.wf(),
                acc == grid_dot(self@, rhs@, i as int),
            decreases R - i,
        {
            let a = self.row(i);
            let b = rhs.row(i);
            acc = acc.add(a.dot(&b));
            i += 1;
        }
        acc
    }

    /// The flattened inner product divided by the element count R·C.
    pub fn normalized_dot(&self, rhs: &Self) -> (r: T)
        requires
            self.wf(),
            rhs.wf(),
            R * C <= usize::MAX,
        ensures
            r == grid_dot(self@, rhs@, R as int).spec_div(
                T::spec_of_count(((R * C) as usize)),
            ),
    {
        let d = self.dot(rhs);
        d.div(T::of_count(R * C))
    }

    /// The sum of every entry.
    pub fn sum(&self) -> (r: T)
        requires
            self.wf(),
        ensures
            r == grid_sum(self@, R as int),
    {
        let mut acc = T::zero();
        let mut i: usize = 0;
        while i < R
            invariant
                i <= R,
                self.wf(),
                acc == grid_sum(self@, i as int),
            decreases R - i,
        {
            let mut row_acc = T::zero();
            let mut j: usize = 0;
            while j < C
                invariant
                    j <= C,
                    i < R,
                    self.wf(),
                    row_acc == sum_seq(self@[i as int], j as int),
                decreases C - j,
            {
                row_acc = row_acc.add(self.get(i, j));
                j += 1;
            }
            acc = acc.add(row_acc);
            i += 1;
        }
        acc
    }

    /// The sum of every entry divided by the element count R·C.
    pub fn normalized_sum(&self) -> (r: T)
        requires
            self.wf(),
            R * C <= usize::MAX,
        ensures
            r == grid_sum(self@, R as int).spec_div(T::spec_of_count(((R * C) as usize))),
    {
        let s = self.sum();
        s.div(T::of_count(R * C))
    }

    /// The standard matrix product: (R,C) × (C,K) → (R,K), where entry
    /// (r, k) is Σ over c of `self[r][c]`·`rhs[c][k]`.  The shared dimension
    /// is checked by the types.
    pub fn multiply<const K: usize>(&self, rhs: &Mat<T, C, K>) -> (r: Mat<T, R, K>)
        requires
            self.wf(),
            rhs.wf(),
        ensures
            r.wf(),
            r@ == spec_matmul(self@, rhs@, K as int),
    {
        let mut contents: Vec<Vec<T>> = Vec::new();
        let mut i: usize = 0;
        while i < R
            invariant
                i <= R,
                self.wf(),
                rhs.wf(),
                contents@.len() == i,
                forall|a: int|
                    0 <= a < i ==> (#[trigger] contents@[a])@ == spec_matmul(
                        self@,
                        rhs@,
                        K as int,
                    )[a],
            decreases R - i,
        {
            let a = self.row(i);
            let mut row: Vec<T> = Vec::new();
            let mut k: usize = 0;
            while k < K
                invariant
                    k <= K,
                    i < R,
                    self.wf(),
                    rhs.wf(),
                    a.wf(),
                    a@ == self@[i as int],
                    row@.len() == k,
                    forall|b: int|
                        0 <= b < k ==> #[trigger] row@[b] == spec_vdot(
                            self@[i as int],
                            spec_col(rhs@, b),
                        ),
                decreases K - k,
            {
                let b = rhs.col(k);
                row.push(a.dot(&b));
                k += 1;
            }
            assert(row@ =~= spec_matmul(self@, rhs@, K as int)[i as int]);
            contents.push(row);
            i += 1;
        }
        let r = Mat::<T, R, K> { contents };
        assert(r@ =~= spec_matmul(self@, rhs@, K as int));
        r
    }

    /// A matrix applied to a vector: out[r] is the inner product of row r
    /// with `v`.
    pub fn times_vector(&self, v: &Vct<T, C>) -> (r: Vct<T, R>)
        requires
            self.wf(),
            v.wf(),
        ensures
            r.wf(),
            r@ == spec_mat_vec(self@, v@),
    {
        let mut contents: Vec<T> = Vec::new();
        let mut i: usize = 0;
        while i < R
            invariant
                i <= R,
                self.wf(),
                v.wf(),
                contents@.len() == i,
                forall|a: int| 0 <= a < i ==> #[trigger] contents@[a] == spec_vdot(self@[a], v@),
            decreases R - i,
        {
            let row = self.row(i);
            contents.push(row.dot(v));
            i += 1;
        }
        let r = Vct::<T, R>::from_array(contents);
        assert(r@ =~= spec_mat_vec(self@, v@));
        r
    }
}

impl<T: Scalar, const L: usize> Mat<T, L, L> {
    /// The identity matrix: ones on the diagonal, zeros elsewhere.
    pub fn identity() -> (r: Self)
        ensures
            r.wf(),
            r@ == spec_identity::<T>(L as int),
    {
        let mut contents: Vec<Vec<T>> = Vec::new();
        let mut i: usize = 0;
        while i < L
            invariant
                i <= L,
                contents@.len() == i,
                forall|a: int|
                    0 <= a < i ==> (#[trigger] contents@[a])@ == spec_identity::<T>(L as int)[a],
            decreases L - i,
        {
            let mut row: Vec<T> = Vec::new();
            let mut j: usize = 0;
            while j < L
                invariant
                    j <= L,
                    i < L,
                    row@.len() == j,
                    forall|b: int|
                        0 <= b < j ==> #[trigger] row@[b] == spec_identity::<T>(
                            L as int,
                        )[i as int][b],
                decreases L - j,
            {
                if i == j {
                    row.push(T::one());
                } else {
                    row.push(T::zero());
                }
                j += 1;
            }
            assert(row@ =~= spec_identity::<T>(L as int)[i as int]);
            contents.push(row);
            i += 1;
        }
        let r = Mat::<T, L, L> { contents };
        assert(r@ =~= spec_identity::<T>(L as int));
        r
    }

    /// The Hadamard (elementwise) product, defined for square matrices.
    pub fn hadamard(&self, rhs: &Self) -> (r: Self)
        requires
            self.wf(),
            rhs.wf(),
        ensures
            r.wf(),
            forall|i: int, j: int|
                0 <= i < L && 0 <= j < L ==> #[trigger] r@[i][j] == self@[i][j].spec_mul(
                    rhs@[i][j],
                ),
    {
        let mut contents: Vec<Vec<T>> = Vec::new();
        let mut i: usize = 0;
        while i < L
            invariant
                i <= L,
                self.wf(),
                rhs.wf(),
                contents@.len() == i,
                forall|a: int| 0 <= a < i ==> (#[trigger] contents@[a])@.len() == L,
                forall|a: int, b: int|
                    0 <= a < i && 0 <= b < L ==> #[trigger] contents@[a]@[b] == self@[a][b].spec_mul(
                        rhs@[a][b],
                    ),
            decreases L - i,
        {
            let mut row: Vec<T> = Vec::new();
            let mut j: usize = 0;
            while j < L
                invariant
                    j <= L,
                    i < L,
                    self.wf(),
                    rhs.wf(),
                    row@.len() == j,
                    forall|b: int|
                        0 <= b < j ==> #[trigger] row@[b] == self@[i as int][b].spec_mul(
                            rhs@[i as int][b],
                        ),
                decreases L - j,
            {
                row.push(self.get(i, j).mul(rhs.get(i, j)));
                j += 1;
            }
            contents.push(row);
            i += 1;
        }
        Mat { contents }
    }

    /// In-place square-matrix-times-vector.  Every output coordinate is the
    /// inner product of a row with the vector as it stood before the call:
    /// the product is computed into a scratch vector first, so no coordinate
    /// is read after it has been overwritten.
    pub fn transform_in_place(&self, v: &mut Vct<T, L>)
        requires
            self.wf(),
            old(v).wf(),
        ensures
            final(v).wf(),
            final(v)@ == spec_mat_vec(self@, old(v)@),
    {
        let out = self.times_vector(v);
        *v = out;
    }

    /// The in-place transform applied independently to every vector of a
    /// collection; the members do not depend on one another.
    pub fn transform_each(&self, vs: &mut Vec<Vct<T, L>>)
        requires
            self.wf(),
            forall|i: int| 0 <= i < old(vs)@.len() ==> (#[trigger] old(vs)@[i]).wf(),
        ensures
            final(vs)@.len() == old(vs)@.len(),
            forall|i: int| 0 <= i < old(vs)@.len() ==> (#[trigger] final(vs)@[i]).wf(),
            forall|i: int|
                0 <= i < old(vs)@.len() ==> (#[trigger] final(vs)@[i])@ == spec_mat_vec(
                    self@,
                    old(vs)@[i]@,
                ),
    {
        let n = vs.len();
        let mut i: usize = 0;
        while i < n
            invariant
                i <= n,
                self.wf(),
                vs@.len() == n == old(vs)@.len(),
                forall|a: int| 0 <= a < n ==> (#[trigger] vs@[a]).wf(),
                forall|a: int| i <= a < n ==> #[trigger] vs@[a] == old(vs)@[a],
                forall|a: int|
                    0 <= a < i ==> (#[trigger] vs@[a])@ == spec_mat_vec(self@, old(vs)@[a]@),
            decreases n - i,
        {
            let out = self.times_vector(&vs[i]);
            vs.set(i, out);
            i += 1;
        }
    }
}

impl<T: Scalar, const L: usize> Mat<T, 1, L> {
    /// A 1×L matrix made from a single row.
    pub fn row_mat(arr: Vec<T>) -> (r: Self)
        requires
            arr@.len() == L,
        ensures
            r.wf(),
            r@ == seq![arr@],
    {
        let mut contents: Vec<Vec<T>> = Vec::new();
        contents.push(arr);
        let r = Mat::<T, 1, L> { contents };
        assert(r@ =~= seq![r@[0]]);
        r
    }
}

impl<T: Scalar, const L: usize> Mat<T, L, 1> {
    /// An L×1 matrix made from a single column.
    pub fn col_mat(arr: Vec<T>) -> (r: Self)
        requires
            arr@.len() == L,
        ensures
            r.wf(),
            forall|i: int| 0 <= i < L ==> #[trigger] r@[i] == seq![arr@[i]],
    {
        let mut contents: Vec<Vec<T>> = Vec::new();
        let mut i: usize = 0;
        while i < L
            invariant
                i <= L,
                arr@.len() == L,
                contents@.len() == i,
                forall|a: int| 0 <= a < i ==> (#[trigger] contents@[a])@ == seq![arr@[a]],
            decreases L - i,
        {
            let mut row: Vec<T> = Vec::new();
            row.push(arr[i]);
            assert(row@ =~= seq![arr@[i as int]]);
            contents.push(row);
            i += 1;
        }
        Mat { contents }
    }
}

/// Transposing twice gives back the original matrix, for every shape.
pub proof fn lemma_transpose_involution<T>(g: Seq<Seq<T>>, rows: int, cols: int)
    requires
        rows >= 0,
        cols >= 0,
        wf_grid(g, rows, cols),
    ensures
        spec_transpose(spec_transpose(g, rows, cols), cols, rows) == g,
{
    let t = spec_transpose(g, rows, cols);
    let tt = spec_transpose(t, cols, rows);
    assert forall|r: int| 0 <= r < rows implies #[trigger] tt[r] == g[r] by {
        assert(tt[r] =~= g[r]);
    }
    assert(tt =~= g);
}

/// A row of the identity has a one at `r` and zeros elsewhere, so its
/// running inner product with any sequence picks out that sequence's `r`-th
/// element once the fold has passed it.
proof fn lemma_unit_dot<T: Scalar>(e: Seq<T>, b: Seq<T>, r: int, n: int)
    requires
        0 <= r,
        0 <= n <= e.len(),
        n <= b.len(),
        forall|j: int|
            0 <= j < e.len() ==> #[trigger] e[j] == (if j == r {
                T::spec_one()
            } else {
                T::spec_zero()
            }),
    ensures
        sum_prods(e, b, n) == (if r < n {
            b[r]
        } else {
            T::spec_zero()
        }),
    decreases n,
{
    if n > 0 {
        lemma_unit_dot(e, b, r, n - 1);
        if n - 1 == r {
            T::law_mul_one(b[r]);
            T::law_add_zero(b[r]);
        } else {
            T::law_mul_zero(b[n - 1]);
            T::law_add_zero(sum_prods(e, b, n - 1));
        }
    }
}

/// Multiplying by the identity on the left leaves a matrix unchanged:
/// identity(n) · M == M for every n×k matrix M.
pub proof fn lemma_identity_mul<T: Scalar>(g: Seq<Seq<T>>, n: int, k: int)
    requires
        n >= 0,
        k >= 0,
        wf_grid(g, n, k),
    ensures
        spec_matmul(spec_identity::<T>(n), g, k) == g,
{
    let idm = spec_identity::<T>(n);
    let p = spec_matmul(idm, g, k);
    assert forall|r: int| 0 <= r < n implies #[trigger] p[r] == g[r] by {
        assert forall|c: int| 0 <= c < k implies #[trigger] p[r][c] == g[r][c] by {
            let col = spec_col(g, c);
            lemma_unit_dot(idm[r], col, r, n);
        }
        assert(p[r] =~= g[r]);
    }
    assert(p =~= g);
}

/// The identity applied to a vector gives the vector back:
/// identity(n) · v == v.
pub proof fn lemma_identity_mat_vec<T: Scalar>(v: Seq<T>, n: int)
    requires
        n >= 0,
        v.len() == n,
    ensures
        spec_mat_vec(spec_identity::<T>(n), v) == v,
{
    let idm = spec_identity::<T>(n);
    let out = spec_mat_vec(idm, v);
    assert forall|r: int| 0 <= r < n implies #[trigger] out[r] == v[r] by {
        lemma_unit_dot(idm[r], v, r, n);
    }
    assert(out =~= v);
}

/// The running inner product of a sequence with a unit column: once the fold
/// has passed position `c`, it equals the sequence's `c`-th element.
proof fn lemma_dot_unit<T: Scalar>(a: Seq<T>, e: Seq<T>, c: int, n: int)
    requires
        0 <= c,
        0 <= n <= a.len(),
        n <= e.len(),
        forall|j: int|
            0 <= j < e.len() ==> #[trigger] e[j] == (if j == c {
                T::spec_one()
            } else {
                T::spec_zero()
            }),
    ensures
        sum_prods(a, e, n) == (if c < n {
            a[c]
        } else {
            T::spec_zero()
        }),
    decreases n,
{
    if n > 0 {
        lemma_dot_unit(a, e, c, n - 1);
        if n - 1 == c {
            T::law_mul_one(a[c]);
            T::law_add_zero(a[c]);
        } else {
            T::law_mul_zero(a[n - 1]);
            T::law_add_zero(sum_prods(a, e, n - 1));
        }
    }
}

/// Multiplying by the identity on the right leaves a matrix unchanged:
/// M · identity(k) == M for every n×k matrix M.
pub proof fn lemma_mul_identity<T: Scalar>(g: Seq<Seq<T>>, n: int, k: int)
    requires
        n >= 0,
        k >= 0,
        wf_grid(g, n, k),
    ensures
        spec_matmul(g, spec_identity::<T>(k), k) == g,
{
    let idm = spec_identity::<T>(k);
    let p = spec_matmul(g, idm, k);
    assert forall|r: int| 0 <= r < n implies #[trigger] p[r] == g[r] by {
        assert forall|c: int| 0 <= c < k implies #[trigger] p[r][c] == g[r][c] by {
            let col = spec_col(idm, c);
            assert(forall|j: int|
                0 <= j < col.len() ==> #[trigger] col[j] == (if j == c {
                    T::spec_one()
                } else {
                    T::spec_zero()
                }));
            lemma_dot_unit(g[r], col, c, k);
        }
        assert(p[r] =~= g[r]);
    }
    assert(p =~= g);
}

} // verus!
