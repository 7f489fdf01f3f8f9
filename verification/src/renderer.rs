use vstd::prelude::*;
use crate::mat::Mat;
use crate::polygon::{spec_segments, Poly};
use crate::scalar::Scalar;
use crate::vct::Vct;

verus! {

/// The view transform for a drawing surface centered at (cx, cy): a flip of
/// the y axis (the surface's vertical axis grows downward while the algebra's
/// grows upward) composed with a translation to the center.
pub open spec fn spec_view_transform<T: Scalar>(cx: T, cy: T) -> Seq<Seq<T>> {
    seq![
        seq![T::spec_one(), T::spec_zero(), T::spec_zero(), cx],
        seq![T::spec_zero(), T::spec_one().spec_neg(), T::spec_zero(), cy],
        seq![T::spec_zero(), T::spec_zero(), T::spec_one(), T::spec_zero()],
        seq![T::spec_zero(), T::spec_zero(), T::spec_zero(), T::spec_one()],
    ]
}

/// The outline segments of the first `n` polygons, in order, concatenated.
pub open spec fn spec_all_segments<T: Scalar>(
    view: Seq<Seq<T>>,
    ps: Seq<Poly<T>>,
    n: int,
) -> Seq<(Seq<T>, Seq<T>)>
    decreases n,
{
    if n <= 0 {
        Seq::empty()
    } else {
        spec_all_segments(view, ps, n - 1) + spec_segments(view, ps[n - 1])
    }
}

/// A stateful drawing pipeline: a set of polygons fixed at construction and
/// one 4×4 view transform.  Only vertex contents ever change, and only
/// through `modify_polys`; the view transform is replaced whole whenever the
/// center changes, never patched.
pub struct Renderer<T> {
    polys: Vec<Poly<T>>,
    transform_matrix: Mat<T, 4, 4>,
}

impl<T: Scalar> Renderer<T> {
    /// The stored polygons.
    pub closed spec fn spec_polys(self) -> Seq<Poly<T>> {
        self.polys@
    }

    /// The stored view transform.
    pub closed spec fn spec_transform(self) -> Seq<Seq<T>> {
        self.transform_matrix@
    }

    /// The transform is a real 4×4 grid and every polygon is well formed.
    pub closed spec fn wf(self) -> bool {
        self.transform_matrix.wf() && forall|i: int|
            0 <= i < self.polys@.len() ==> (#[trigger] self.polys@[i]).wf()
    }

    /// The view transform for `center`, computed afresh.
    fn compute_transform_matrix(center: &Vct<T, 2>) -> (m: Mat<T, 4, 4>)
        requires
            center.wf(),
        ensures
            m.wf(),
            m@ == spec_view_transform(center.view().index(0), center.view().index(1)),
    {
        let o = T::one();
        let z = T::zero();
        let no = o.neg();
        let cx = center.at(0);
        let cy = center.at(1);
        let m = Mat::<T, 4, 4>::from_arrays(
            vec![
                vec![o, z, z, cx],
                vec![z, no, z, cy],
                vec![z, z, o, z],
                vec![z, z, z, o],
            ],
        );
        assert(m@ =~~= spec_view_transform(center.view().index(0), center.view().index(1)));
        m
    }

    /// A renderer owning `polys`, with its initial view transform computed
    /// for `center`.
    pub fn new(polys: Vec<Poly<T>>, center: Vct<T, 2>) -> (r: Self)
        requires
            center.wf(),
            forall|i: int| 0 <= i < polys@.len() ==> (#[trigger] polys@[i]).wf(),
        ensures
            r.wf(),
            r.spec_polys() == polys@,
            r.spec_transform() == spec_view_transform(center.view().index(0), center.view().index(1)),
    {
        let transform_matrix = Self::compute_transform_matrix(&center);
        Renderer { polys, transform_matrix }
    }

    /// The polygons as stored, for reading.
    pub fn polys(&self) -> (r: &Vec<Poly<T>>)
        ensures
            r@ == self.spec_polys(),
    {
        &self.polys
    }

    /// The view transform as stored, for reading.
    pub fn transform_matrix(&self) -> (r: &Mat<T, 4, 4>)
        ensures
            r@ == self.spec_transform(),
    {
        &self.transform_matrix
    }

    /// Recomputes the view transform for the new center and replaces the
    /// stored one whole; the polygons are untouched.
    pub fn set_center(&mut self, center: Vct<T, 2>)
        requires
            old(self).wf(),
            center.wf(),
        ensures
            final(self).wf(),
            final(self).spec_polys() == old(self).spec_polys(),
            final(self).spec_transform() == spec_view_transform(
                center.view().index(0),
                center.view().index(1),
            ),
    {
        self.transform_matrix = Self::compute_transform_matrix(&center);
    }

    /// `f` applied to every stored polygon in place, first to last: the one
    /// path that changes vertex data.  The callback must accept any well
    /// formed polygon and hand back a well formed one.
    pub fn modify_polys<F: Fn(Poly<T>) -> Poly<T>>(&mut self, f: F)
        requires
            old(self).wf(),
            forall|p: Poly<T>| p.wf() ==> #[trigger] call_requires(f, (p,)),
            forall|p: Poly<T>, q: Poly<T>| #[trigger] call_ensures(f, (p,), q) ==> q.wf(),
        ensures
            final(self).wf(),
            final(self).spec_transform() == old(self).spec_transform(),
            final(self).spec_polys().len() == old(self).spec_polys().len(),
            forall|i: int|
                0 <= i < old(self).spec_polys().len() ==> call_ensures(
                    f,
                    (old(self).spec_polys()[i],),
                    #[trigger] final(self).spec_polys()[i],
                ),
    {
        let n = self.polys.len();
        let mut out: Vec<Poly<T>> = Vec::new();
        while out.len() < n
            invariant
                out@.len() <= n,
                n == old(self).spec_polys().len(),
                self.transform_matrix == old(self).transform_matrix,
                old(self).wf(),
                self.polys@ == old(self).spec_polys().subrange(out@.len() as int, n as int),
                forall|p: Poly<T>| p.wf() ==> #[trigger] call_requires(f, (p,)),
                forall|p: Poly<T>, q: Poly<T>| #[trigger] call_ensures(f, (p,), q) ==> q.wf(),
                forall|k: int|
                    0 <= k < out@.len() ==> call_ensures(
                        f,
                        (old(self).spec_polys()[k],),
                        #[trigger] out@[k],
                    ),
            decreases n - out@.len(),
        {
            let ghost done = out@.len() as int;
            let p = self.polys.remove(0);
            assert(p == old(self).spec_polys()[done]);
            assert(p.wf());
            let q = f(p);
            out.push(q);
            assert(self.polys@ =~= old(self).spec_polys().subrange(done + 1, n as int));
        }
        self.polys = out;
        assert forall|i: int| 0 <= i < n implies (#[trigger] self.polys@[i]).wf() by {
            assert(call_ensures(f, (old(self).spec_polys()[i],), self.polys@[i]));
        }
    }

    /// One whole draw pass: each polygon's outline segments under the stored
    /// view transform, in polygon order.  The receiver is only read — the
    /// stored polygons come out of a draw exactly as they went in — and the
    /// caller hands the segments to its drawing surface.
    pub fn draw(&self) -> (segs: Vec<(Vct<T, 2>, Vct<T, 2>)>)
        requires
            self.wf(),
        ensures
            ({
                let ss = spec_all_segments(
                    self.spec_transform(),
                    self.spec_polys(),
                    self.spec_polys().len() as int,
                );
                &&& segs@.len() == ss.len()
                &&& forall|k: int|
                    0 <= k < ss.len() ==> (#[trigger] segs@[k]).0@ == ss[k].0 && segs@[k].1@
                        == ss[k].1
                &&& forall|k: int|
                    0 <= k < ss.len() ==> (#[trigger] segs@[k]).0.wf() && segs@[k].1.wf()
            }),
    {
        let n = self.polys.len();
        let mut segs: Vec<(Vct<T, 2>, Vct<T, 2>)> = Vec::new();
        let mut i: usize = 0;
        while i < n
            invariant
                i <= n,
                self.wf(),
                n == self.spec_polys().len(),
                ({
                    let ss = spec_all_segments(self.spec_transform(), self.spec_polys(), i as int);
                    &&& segs@.len() == ss.len()
                    &&& forall|k: int|
                        0 <= k < ss.len() ==> (#[trigger] segs@[k]).0@ == ss[k].0 && segs@[k].1@
                            == ss[k].1
                    &&& forall|k: int|
                        0 <= k < ss.len() ==> (#[trigger] segs@[k]).0.wf() && segs@[k].1.wf()
                }),
            decreases n - i,
        {
            let mut ps = self.polys[i].draw(&self.transform_matrix);
            segs.append(&mut ps);
            i += 1;
        }
        segs
    }
}

} // verus!
