//! Copying rectangular regions between two-dimensional grids of values,
//! with optional flips, quarter-turn rotations and integer up-scaling.
//!
//! A grid is anything that implements [`Surface`] (and [`SurfaceMut`] to be
//! written to): it has a size and answers for every position with a value
//! or with `None`. [`blit`] and its relatives copy a rectangle from one
//! surface to another through an ordered list of [`Transform`]s; positions
//! that either surface lacks are skipped, so a blit never fails.
//!
//! The functions named `blit_fixed…` work on [`Buffer`]s, grids with a plain
//! width and height, at offsets that may be negative, and crop the rectangle
//! ahead of the copy.

pub mod blit;
pub mod chain;
pub mod fixed;
pub mod frame;
pub mod generic_surface;
pub mod geometry;
pub mod masked;
pub mod single_value;
pub mod store;
pub mod sub_surface;
pub mod surface;
pub mod transform;

pub use blit::{blit, blit_convert, blit_whole, blit_with};
pub use chain::{checked_transformed_size, transformed_size, unapply_all};
pub use fixed::{
    blit_fixed, blit_fixed_convert, blit_fixed_whole, blit_fixed_with, crop, offset, Buffer,
    BufferMut, Crop, Flip, Offset,
};
pub use frame::RgbaFrame;
pub use generic_surface::GenericSurface;
pub use geometry::{offset_point, point, size, Point, Size};
pub use masked::{blit_fixed_masked, blit_masked};
pub use single_value::SingleValueSurface;
pub use store::{Store, StoreMut};
pub use sub_surface::SubSurface;
pub use surface::{Surface, SurfaceMut};
pub use transform::{reversed, Transform};
