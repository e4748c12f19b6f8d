//! A 3D affine-transform algebra core: a 4x4 homogeneous matrix with a
//! symbolic cell-addressing scheme, together with the 3- and 4-component
//! vector types used to apply and compose transforms.
//!
//! The matrix and vector types are generic over their scalar type, so the
//! storage layout, the row/column addressing scheme and every operation
//! that only moves scalars around are verified once for all scalars.
//! Numeric instantiations supply the scalar arithmetic (for example a dot
//! product handed to [`matrices::AffineMatrix::multiply_with`]) from
//! outside.

pub mod cells;
pub mod matrices;
pub mod vectors;
