//! Small-dimension geometry: vectors, square matrices and quaternions over a
//! generic scalar.
//!
//! The scalar is abstracted by the [`Num`] and [`Float`] traits; every
//! arithmetic step a function takes is pinned down in its contract through
//! the spec-level counterparts those traits declare.  The crate ships one
//! fully verified scalar, the fixed-point type [`fixed::Fx`], and the
//! quaternion rotation laws — composition, length preservation, the
//! conjugate undoing a rotation — are proved once and for all over exact
//! integer arithmetic in [`algebra`].
//!
//! Quaternions are stored as `[i, j, k, r]` arrays, vectors as `[F; D]`
//! arrays, and matrices as row-major `[F; R * C]` arrays.

pub mod algebra;
pub mod fixed;
pub mod matrix;
pub mod quat;
pub mod traits;
pub mod vector;

pub use traits::Float;
pub use traits::Num;
