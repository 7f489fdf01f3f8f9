use vstd::prelude::*;
use crate::mat::{spec_mat_vec, Mat};
use crate::scalar::Scalar;
use crate::vct::{spec_homogenized, spec_scaled, Scale, Vct};

verus! {

/// A 3-vertex primitive, each vertex a homogeneous-coordinate 4-vector
/// (x, y, z, w).
pub struct Poly<T> {
    pub vertices: Vec<Vct<T, 4>>,
}

/// Whether the `i`-th vertex of `p`, once `view` is applied, is degenerate:
/// its w coordinate lands on zero, so the perspective divide is undefined.
pub open spec fn spec_degenerate<T: Scalar>(view: Seq<Seq<T>>, p: Poly<T>, i: int) -> bool {
    spec_mat_vec(view, p.vertices@[i]@)[3] == T::spec_zero()
}

/// The 2-D point of the `i`-th vertex of `p` after the view transform and
/// the perspective divide.
pub open spec fn spec_point<T: Scalar>(view: Seq<Seq<T>>, p: Poly<T>, i: int) -> Seq<T> {
    let hv = spec_homogenized(spec_mat_vec(view, p.vertices@[i]@));
    seq![hv[0], hv[1]]
}

/// The segment of the outline edge from vertex `i` to vertex `j`: one
/// segment when neither endpoint is degenerate, nothing otherwise.
pub open spec fn spec_edge<T: Scalar>(view: Seq<Seq<T>>, p: Poly<T>, i: int, j: int) -> Seq<
    (Seq<T>, Seq<T>),
> {
    if !spec_degenerate(view, p, i) && !spec_degenerate(view, p, j) {
        seq![(spec_point(view, p, i), spec_point(view, p, j))]
    } else {
        Seq::empty()
    }
}

/// The segments of a polygon's closed outline under `view`: the edges
/// (0,1), (1,2), (2,0), each kept only when both of its endpoints survive
/// the perspective divide.
pub open spec fn spec_segments<T: Scalar>(view: Seq<Seq<T>>, p: Poly<T>) -> Seq<
    (Seq<T>, Seq<T>),
> {
    spec_edge(view, p, 0, 1) + spec_edge(view, p, 1, 2) + spec_edge(view, p, 2, 0)
}

impl<T: Scalar> Poly<T> {
    /// A polygon holds exactly three well-formed vertices.
    pub open spec fn wf(self) -> bool {
        self.vertices@.len() == 3 && forall|i: int|
            0 <= i < 3 ==> (#[trigger] self.vertices@[i]).wf()
    }

    /// A polygon owning exactly three homogeneous vertices.  The w component
    /// of each vertex is the caller's choice and is stored as given: 0 for a
    /// direction, 1 for a position.
    pub fn new(vertices: Vec<Vct<T, 4>>) -> (r: Self)
        requires
            vertices@.len() == 3,
            forall|i: int| 0 <= i < 3 ==> (#[trigger] vertices@[i]).wf(),
        ensures
            r.wf(),
            r.vertices@ == vertices@,
    {
        Poly { vertices }
    }

    /// A square transform applied in place to the three vertices, each
    /// independently of the others.
    pub fn transform(&mut self, m: &Mat<T, 4, 4>)
        requires
            m.wf(),
            old(self).wf(),
        ensures
            final(self).wf(),
            forall|i: int|
                0 <= i < 3 ==> (#[trigger] final(self).vertices@[i])@ == spec_mat_vec(
                    m@,
                    old(self).vertices@[i]@,
                ),
    {
        m.transform_each(&mut self.vertices);
    }

    /// One polygon's draw pass.  The transform is applied to a private copy
    /// of each vertex, the copies are homogenized, and the closed outline's
    /// edges come back as 2-D segments ready for a drawing surface; the
    /// stored vertices are untouched.  An edge touching a degenerate vertex
    /// is skipped, so no meaningless coordinate ever reaches the surface.
    pub fn draw(&self, transform: &Mat<T, 4, 4>) -> (segs: Vec<(Vct<T, 2>, Vct<T, 2>)>)
        requires
            self.wf(),
            transform.wf(),
        ensures
            ({
                let ss = spec_segments(transform@, *self);
                &&& segs@.len() == ss.len()
                &&& forall|k: int|
                    0 <= k < ss.len() ==> (#[trigger] segs@[k]).0@ == ss[k].0 && segs@[k].1@
                        == ss[k].1
                &&& forall|k: int|
                    0 <= k < ss.len() ==> (#[trigger] segs@[k]).0.wf() && segs@[k].1.wf()
            }),
    {
        let mut h0 = transform.times_vector(&self.vertices[0]);
        let mut h1 = transform.times_vector(&self.vertices[1]);
        let mut h2 = transform.times_vector(&self.vertices[2]);
        let d0 = h0.at(3).is_zero();
        let d1 = h1.at(3).is_zero();
        let d2 = h2.at(3).is_zero();
        h0.homogenize();
        h1.homogenize();
        h2.homogenize();
        let mut segs: Vec<(Vct<T, 2>, Vct<T, 2>)> = Vec::new();
        if !d0 && !d1 {
            segs.push((h0.to_point(), h1.to_point()));
        }
        if !d1 && !d2 {
            segs.push((h1.to_point(), h2.to_point()));
        }
        if !d2 && !d0 {
            segs.push((h2.to_point(), h0.to_point()));
        }
        proof {
            let ss = spec_segments(transform@, *self);
            assert(segs@.len() == ss.len());
        }
        segs
    }
}

impl<T: Scalar> Scale<T> for Poly<T> {
    open spec fn scale_pre(self, rhs: T) -> bool {
        self.wf()
    }

    open spec fn scale_rel(pre: Self, rhs: T, post: Self) -> bool {
        &&& post.wf()
        &&& forall|i: int|
            0 <= i < 3 ==> (#[trigger] post.vertices@[i])@ == spec_scaled(
                pre.vertices@[i]@,
                rhs,
            )
    }

    /// Scalar multiply applied to each of the three vertices in place.
    fn scale(&mut self, rhs: T) {
        self.vertices.scale(rhs);
    }
}

} // verus!
