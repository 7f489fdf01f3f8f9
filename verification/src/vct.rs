use vstd::prelude::*;
use crate::scalar::{Fx, Scalar};

verus! {

/// The running inner product: the sum of `a[i]`·`b[i]` over `i < n`,
/// folded left to right starting from zero.
pub open spec fn sum_prods<T: Scalar>(a: Seq<T>, b: Seq<T>, n: int) -> T
    decreases n,
{
    if n <= 0 {
        T::spec_zero()
    } else {
        sum_prods(a, b, n - 1).spec_add(a[n - 1].spec_mul(b[n - 1]))
    }
}

/// The inner product of two sequences of equal length.
pub open spec fn spec_vdot<T: Scalar>(a: Seq<T>, b: Seq<T>) -> T {
    sum_prods(a, b, a.len() as int)
}

/// Every element multiplied by `k`.
pub open spec fn spec_scaled<T: Scalar>(v: Seq<T>, k: T) -> Seq<T> {
    v.map_values(|x: T| x.spec_mul(k))
}

/// A dense fixed-length numeric tuple.
///
/// Semantically an L×1 matrix, but kept as a distinct type for ergonomic
/// use.  The length is part of the type, so operands of different lengths
/// are rejected before the program runs.
#[derive(Clone, Debug)]
pub struct Vct<T, const L: usize> {
    contents: Vec<T>,
}

impl<T, const L: usize> View for Vct<T, L> {
    type V = Seq<T>;

    closed spec fn view(&self) -> Seq<T> {
        self.contents@
    }
}

impl<T: Scalar, const L: usize> Vct<T, L> {
    /// A vector really holds one element per coordinate.
    pub open spec fn wf(self) -> bool {
        self@.len() == L
    }

    /// The all-zero vector.
    pub fn zero() -> (r: Self)
        ensures
            r.wf(),
            forall|i: int| 0 <= i < L ==> r@[i] == T::spec_zero(),
    {
        let mut contents: Vec<T> = Vec::new();
        while contents.len() < L
            invariant
                contents@.len() <= L,
                forall|i: int| 0 <= i < contents@.len() ==> contents@[i] == T::spec_zero(),
            decreases L - contents@.len(),
        {
            contents.push(T::zero());
        }
        Vct { contents }
    }

    /// A vector owning the given coordinates.
    pub fn from_array(array: Vec<T>) -> (r: Self)
        requires
            array@.len() == L,
        ensures
            r.wf(),
            r@ == array@,
    {
        Vct { contents: array }
    }

    /// A vector read out of a borrowed row.  The borrowed storage is copied
    /// one element at a time: a defensive copy of L scalars in place of the
    /// zero-copy reinterpretation that safe code cannot express.
    pub fn from_array_ref(array: &Vec<T>) -> (r: Self)
        requires
            array@.len() == L,
        ensures
            r.wf(),
            r@ == array@,
    {
        let mut contents: Vec<T> = Vec::new();
        let mut i: usize = 0;
        while i < L
            invariant
                i <= L,
                array@.len() == L,
                contents@ == array@.subrange(0, i as int),
            decreases L - i,
        {
            contents.push(array[i]);
            assert(contents@ == array@.subrange(0, i + 1 as int));
            i += 1;
        }
        assert(array@.subrange(0, L as int) == array@);
        Vct { contents }
    }

    /// The vector whose `i`-th coordinate is `generator(i)`.
    pub fn generate<F: Fn(usize) -> T>(generator: F) -> (r: Self)
        requires
            forall|i: usize| i < L ==> call_requires(generator, (i,)),
        ensures
            r.wf(),
            forall|i: int|
                0 <= i < L ==> call_ensures(generator, (i as usize,), #[trigger] r@[i]),
    {
        let mut contents: Vec<T> = Vec::new();
        let mut i: usize = 0;
        while i < L
            invariant
                i <= L,
                contents@.len() == i,
                forall|j: usize| j < L ==> call_requires(generator, (j,)),
                forall|j: int|
                    0 <= j < i ==> call_ensures(generator, (j as usize,), #[trigger] contents@[j]),
            decreases L - i,
        {
            contents.push(generator(i));
            i += 1;
        }
        Vct { contents }
    }

    /// The coordinate at `i`; indexing out of range is a caller error kept
    /// out by the precondition.
    pub fn at(&self, i: usize) -> (r: T)
        requires
            self.wf(),
            i < L,
        ensures
            r == self@[i as int],
    {
        self.contents[i]
    }

    /// Σ components pairwise: the inner product of two length-L vectors.
    pub fn dot(&self, rhs: &Self) -> (r: T)
        requires
            self.wf(),
            rhs.wf(),
        ensures
            r == spec_vdot(self@, rhs@),
    {
        let mut acc = T::zero();
        let mut i: usize = 0;
        while i < L
            invariant
                i <= L,
                self.wf(),
                rhs.wf(),
                acc == sum_prods(self@, rhs@, i as int),
            decreases L - i,
        {
            acc = acc.add(self.contents[i].mul(rhs.contents[i]));
            i += 1;
        }
        acc
    }

    /// Pairwise sum.
    pub fn add(&self, rhs: &Self) -> (r: Self)
        requires
            self.wf(),
            rhs.wf(),
        ensures
            r.wf(),
            forall|i: int| 0 <= i < L ==> r@[i] == self@[i].spec_add(#[trigger] rhs@[i]),
    {
        let mut contents: Vec<T> = Vec::new();
        let mut i: usize = 0;
        while i < L
            invariant
                i <= L,
                self.wf(),
                rhs.wf(),
                contents@.len() == i,
                forall|j: int| 0 <= j < i ==> contents@[j] == self@[j].spec_add(#[trigger] rhs@[j]),
            decreases L - i,
        {
            contents.push(self.contents[i].add(rhs.contents[i]));
            i += 1;
        }
        Vct { contents }
    }

    /// Pairwise product.
    pub fn mul(&self, rhs: &Self) -> (r: Self)
        requires
            self.wf(),
            rhs.wf(),
        ensures
            r.wf(),
            forall|i: int| 0 <= i < L ==> r@[i] == self@[i].spec_mul(#[trigger] rhs@[i]),
    {
        let mut contents: Vec<T> = Vec::new();
        let mut i: usize = 0;
        while i < L
            invariant
                i <= L,
                self.wf(),
                rhs.wf(),
                contents@.len() == i,
                forall|j: int| 0 <= j < i ==> contents@[j] == self@[j].spec_mul(#[trigger] rhs@[j]),
            decreases L - i,
        {
            contents.push(self.contents[i].mul(rhs.contents[i]));
            i += 1;
        }
        Vct { contents }
    }

    /// Pairwise quotient.
    pub fn div(&self, rhs: &Self) -> (r: Self)
        requires
            self.wf(),
            rhs.wf(),
        ensures
            r.wf(),
            forall|i: int| 0 <= i < L ==> r@[i] == self@[i].spec_div(#[trigger] rhs@[i]),
    {
        let mut contents: Vec<T> = Vec::new();
        let mut i: usize = 0;
        while i < L
            invariant
                i <= L,
                self.wf(),
                rhs.wf(),
                contents@.len() == i,
                forall|j: int| 0 <= j < i ==> contents@[j] == self@[j].spec_div(#[trigger] rhs@[j]),
            decreases L - i,
        {
            contents.push(self.contents[i].div(rhs.contents[i]));
            i += 1;
        }
        Vct { contents }
    }

    /// Every coordinate multiplied by `k`, as a new vector.
    pub fn mul_scalar(&self, k: T) -> (r: Self)
        requires
            self.wf(),
        ensures
            r.wf(),
            r@ == spec_scaled(self@, k),
    {
        let mut contents: Vec<T> = Vec::new();
        let mut i: usize = 0;
        while i < L
            invariant
                i <= L,
                self.wf(),
                contents@.len() == i,
                forall|j: int| 0 <= j < i ==> contents@[j] == self@[j].spec_mul(k),
            decreases L - i,
        {
            contents.push(self.contents[i].mul(k));
            i += 1;
        }
        assert(contents@ =~= spec_scaled(self@, k));
        Vct { contents }
    }

    /// Every coordinate divided by `k`, as a new vector.
    pub fn div_scalar(&self, k: T) -> (r: Self)
        requires
            self.wf(),
        ensures
            r.wf(),
            forall|i: int| 0 <= i < L ==> #[trigger] r@[i] == self@[i].spec_div(k),
    {
        let mut contents: Vec<T> = Vec::new();
        let mut i: usize = 0;
        while i < L
            invariant
                i <= L,
                self.wf(),
                contents@.len() == i,
                forall|j: int| 0 <= j < i ==> #[trigger] contents@[j] == self@[j].spec_div(k),
            decreases L - i,
        {
            contents.push(self.contents[i].div(k));
            i += 1;
        }
        Vct { contents }
    }

    /// In-place scalar multiply: the receiver's coordinates are scaled by `k`.
    pub fn mul_assign_scalar(&mut self, k: T)
        requires
            old(self).wf(),
        ensures
            final(self).wf(),
            final(self)@ == spec_scaled(old(self)@, k),
    {
        let mut i: usize = 0;
        while i < L
            invariant
                i <= L,
                self@.len() == L,
                forall|j: int| 0 <= j < i ==> self@[j] == old(self)@[j].spec_mul(k),
                forall|j: int| i <= j < L ==> self@[j] == old(self)@[j],
            decreases L - i,
        {
            let x = self.contents[i];
            self.contents.set(i, x.mul(k));
            i += 1;
        }
        assert(self@ =~= spec_scaled(old(self)@, k));
    }

    /// In-place pairwise multiply: each coordinate is multiplied by the
    /// matching coordinate of `rhs`.
    pub fn mul_assign(&mut self, rhs: &Self)
        requires
            old(self).wf(),
            rhs.wf(),
        ensures
            final(self).wf(),
            forall|i: int|
                0 <= i < L ==> #[trigger] final(self)@[i] == old(self)@[i].spec_mul(rhs@[i]),
    {
        let mut i: usize = 0;
        while i < L
            invariant
                i <= L,
                rhs.wf(),
                self@.len() == L,
                forall|j: int| 0 <= j < i ==> #[trigger] self@[j] == old(self)@[j].spec_mul(rhs@[j]),
                forall|j: int| i <= j < L ==> self@[j] == old(self)@[j],
            decreases L - i,
        {
            let x = self.contents[i];
            self.contents.set(i, x.mul(rhs.contents[i]));
            i += 1;
        }
    }

    /// The 2-D point of a longer vector: its first two coordinates, the rest
    /// discarded.  Used when handing coordinates to a drawing surface.
    pub fn to_point(&self) -> (r: Vct<T, 2>)
        requires
            self.wf(),
            L >= 2,
        ensures
            r.wf(),
            r@ == seq![self@[0], self@[1]],
    {
        let mut contents: Vec<T> = Vec::new();
        contents.push(self.contents[0]);
        contents.push(self.contents[1]);
        assert(contents@ =~= seq![self@[0], self@[1]]);
        Vct { contents }
    }
}

/// A homogeneous vector after its perspective divide: untouched when its
/// `w` coordinate is zero, otherwise every coordinate divided by `w`.
pub open spec fn spec_homogenized<T: Scalar>(v: Seq<T>) -> Seq<T> {
    if v[3] == T::spec_zero() {
        v
    } else {
        v.map_values(|x: T| x.spec_div(v[3]))
    }
}

impl<T: Scalar> Vct<T, 4> {
    /// The perspective divide of a homogeneous vertex: all four coordinates
    /// are divided by `w`, so a nonzero `w` becomes one.  A vertex whose `w`
    /// is zero is degenerate and is left untouched; the renderer skips the
    /// edges that reach it.
    pub fn homogenize(&mut self)
        requires
            old(self).wf(),
        ensures
            final(self).wf(),
            final(self)@ == spec_homogenized(old(self)@),
            old(self)@[3] != T::spec_zero() ==> final(self)@[3] == T::spec_one(),
    {
        let w = self.contents[3];
        if !w.is_zero() {
            let r = self.div_scalar(w);
            proof {
                T::law_div_self(w);
            }
            assert(r@ =~= spec_homogenized(self@));
            *self = r;
        }
    }
}

/// In-place scaling of a homogeneous collection: every member is scaled
/// independently, so no iteration order is better than another.
pub trait Scale<Rhs>: Sized {
    /// What the receiver must satisfy before scaling.
    spec fn scale_pre(self, rhs: Rhs) -> bool;

    /// How the scaled value relates to the original.
    spec fn scale_rel(pre: Self, rhs: Rhs, post: Self) -> bool;

    fn scale(&mut self, rhs: Rhs)
        requires
            old(self).scale_pre(rhs),
        ensures
            Self::scale_rel(*old(self), rhs, *final(self)),
    ;
}

impl<T: Scalar, const L: usize> Scale<T> for Vec<Vct<T, L>> {
    open spec fn scale_pre(self, rhs: T) -> bool {
        forall|i: int| 0 <= i < self@.len() ==> (#[trigger] self@[i]).wf()
    }

    open spec fn scale_rel(pre: Self, rhs: T, post: Self) -> bool {
        &&& post@.len() == pre@.len()
        &&& forall|i: int|
            0 <= i < pre@.len() ==> (#[trigger] post@[i])@ == spec_scaled(pre@[i]@, rhs)
                && post@[i].wf()
    }

    /// Scalar multiply applied to every vector of the collection in place.
    fn scale(&mut self, rhs: T) {
        let n = self.len();
        let mut i: usize = 0;
        while i < n
            invariant
                i <= n,
                self@.len() == n == old(self)@.len(),
                forall|a: int| 0 <= a < n ==> (#[trigger] self@[a]).wf(),
                forall|a: int| i <= a < n ==> #[trigger] self@[a] == old(self)@[a],
                forall|a: int|
                    0 <= a < i ==> (#[trigger] self@[a])@ == spec_scaled(old(self)@[a]@, rhs),
            decreases n - i,
        {
            let nv = self[i].mul_scalar(rhs);
            self.set(i, nv);
            i += 1;
        }
    }
}

/// The inner product of a fixed-point vector with itself is never negative:
/// every summand is a square, and saturating sums of nonnegative values stay
/// nonnegative.
pub proof fn lemma_dot_self_nonneg(v: Seq<Fx>)
    ensures
        spec_vdot(v, v).v >= 0,
{
    lemma_sum_prods_self_nonneg(v, v.len() as int);
}

proof fn lemma_sum_prods_self_nonneg(v: Seq<Fx>, n: int)
    ensures
        sum_prods(v, v, n).v >= 0,
    decreases n,
{
    if n > 0 {
        lemma_sum_prods_self_nonneg(v, n - 1);
        let x = v[n - 1];
        assert(x.v * x.v >= 0) by (nonlinear_arith);
    }
}

} // verus!
