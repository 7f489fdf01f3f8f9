//! Fixed-dimension numeric algebra — matrices and vectors whose shapes are
//! checked by the type system — together with a small transform pipeline
//! that rotates homogeneous-coordinate vertices and projects triangular
//! wireframes into line segments for a caller-owned drawing surface.
//!
//! The algebra is generic over a [`scalar::Scalar`], whose operations carry
//! specification-level twins and a few algebraic laws; [`scalar::Fx`], a
//! saturating fixed-point number, is the verified instance.  Every contract
//! below speaks over sequences of such scalars.
pub mod scalar;
pub mod vct;
pub mod mat;
pub mod transform;
pub mod polygon;
pub mod renderer;
