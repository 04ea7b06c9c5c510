//! Verified core of a small physically-based-rendering viewer.
//!
//! The crate holds the parts of the viewer that decide something: how a mesh
//! is assembled and validated, how a decoded image is mapped to a GPU pixel
//! format, which uniform slot a frame may write, and how the per-frame
//! presentation protocol reacts to each outcome the surface reports.

pub mod material;
pub mod mesh;
pub mod object;
pub mod presenter;
pub mod ring;
pub mod setup;
pub mod texture;
