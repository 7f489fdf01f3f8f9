use vstd::prelude::*;
use crate::mat::{spec_matmul, Mat};
use crate::scalar::Scalar;

verus! {

/// The 2×2 planar rotation grid for an angle whose cosine is `c` and whose
/// sine is `s`: [[c, -s], [s, c]].
pub open spec fn spec_rotation2<T: Scalar>(c: T, s: T) -> Seq<Seq<T>> {
    seq![seq![c, s.spec_neg()], seq![s, c]]
}

/// The 4×4 roll rotation: the planar block in the x/y plane, identity
/// elsewhere, homogeneous row and column fixed.
pub open spec fn spec_roll<T: Scalar>(c: T, s: T) -> Seq<Seq<T>> {
    seq![
        seq![c, s.spec_neg(), T::spec_zero(), T::spec_zero()],
        seq![s, c, T::spec_zero(), T::spec_zero()],
        seq![T::spec_zero(), T::spec_zero(), T::spec_one(), T::spec_zero()],
        seq![T::spec_zero(), T::spec_zero(), T::spec_zero(), T::spec_one()],
    ]
}

/// The 4×4 pitch rotation: the planar block in the x/z plane.
pub open spec fn spec_pitch<T: Scalar>(c: T, s: T) -> Seq<Seq<T>> {
    seq![
        seq![c, T::spec_zero(), s, T::spec_zero()],
        seq![T::spec_zero(), T::spec_one(), T::spec_zero(), T::spec_zero()],
        seq![s.spec_neg(), T::spec_zero(), c, T::spec_zero()],
        seq![T::spec_zero(), T::spec_zero(), T::spec_zero(), T::spec_one()],
    ]
}

/// The 4×4 yaw rotation: the planar block in the y/z plane.
pub open spec fn spec_yaw<T: Scalar>(c: T, s: T) -> Seq<Seq<T>> {
    seq![
        seq![T::spec_one(), T::spec_zero(), T::spec_zero(), T::spec_zero()],
        seq![T::spec_zero(), c, s.spec_neg(), T::spec_zero()],
        seq![T::spec_zero(), s, c, T::spec_zero()],
        seq![T::spec_zero(), T::spec_zero(), T::spec_zero(), T::spec_one()],
    ]
}

/// The 2×2 planar rotation matrix for an angle whose cosine is `c` and
/// whose sine is `s`; the trigonometry itself is the caller's.
pub fn rotation2<T: Scalar>(c: T, s: T) -> (r: Mat<T, 2, 2>)
    ensures
        r.wf(),
        r@ == spec_rotation2(c, s),
{
    let ns = s.neg();
    let r = Mat::<T, 2, 2>::from_arrays(vec![vec![c, ns], vec![s, c]]);
    assert(r@ =~~= spec_rotation2(c, s));
    r
}

/// The 4×4 roll rotation matrix (x/y plane).
pub fn roll_mat<T: Scalar>(c: T, s: T) -> (r: Mat<T, 4, 4>)
    ensures
        r.wf(),
        r@ == spec_roll(c, s),
{
    let ns = s.neg();
    let o = T::one();
    let z = T::zero();
    let r = Mat::<T, 4, 4>::from_arrays(
        vec![
            vec![c, ns, z, z],
            vec![s, c, z, z],
            vec![z, z, o, z],
            vec![z, z, z, o],
        ],
    );
    assert(r@ =~~= spec_roll(c, s));
    r
}

/// The 4×4 pitch rotation matrix (x/z plane).
pub fn pitch_mat<T: Scalar>(c: T, s: T) -> (r: Mat<T, 4, 4>)
    ensures
        r.wf(),
        r@ == spec_pitch(c, s),
{
    let ns = s.neg();
    let o = T::one();
    let z = T::zero();
    let r = Mat::<T, 4, 4>::from_arrays(
        vec![
            vec![c, z, s, z],
            vec![z, o, z, z],
            vec![ns, z, c, z],
            vec![z, z, z, o],
        ],
    );
    assert(r@ =~~= spec_pitch(c, s));
    r
}

/// The 4×4 yaw rotation matrix (y/z plane).
pub fn yaw_mat<T: Scalar>(c: T, s: T) -> (r: Mat<T, 4, 4>)
    ensures
        r.wf(),
        r@ == spec_yaw(c, s),
{
    let ns = s.neg();
    let o = T::one();
    let z = T::zero();
    let r = Mat::<T, 4, 4>::from_arrays(
        vec![
            vec![o, z, z, z],
            vec![z, c, ns, z],
            vec![z, s, c, z],
            vec![z, z, z, o],
        ],
    );
    assert(r@ =~~= spec_yaw(c, s));
    r
}

/// The combined rotation, composed as yaw · pitch · roll: applied to a
/// vertex, the roll acts first and the yaw last.  The composition order is a
/// deliberate choice — the three rotations do not commute — and is fixed
/// here once for every caller.  Each angle arrives as its cosine and sine.
pub fn rotation_mat<T: Scalar>(
    yaw_c: T,
    yaw_s: T,
    pitch_c: T,
    pitch_s: T,
    roll_c: T,
    roll_s: T,
) -> (r: Mat<T, 4, 4>)
    ensures
        r.wf(),
        r@ == spec_matmul(
            spec_yaw(yaw_c, yaw_s),
            spec_matmul(spec_pitch(pitch_c, pitch_s), spec_roll(roll_c, roll_s), 4),
            4,
        ),
{
    let y = yaw_mat(yaw_c, yaw_s);
    let p = pitch_mat(pitch_c, pitch_s);
    let ro = roll_mat(roll_c, roll_s);
    let pr = p.multiply(&ro);
    y.multiply(&pr)
}

} // verus!
