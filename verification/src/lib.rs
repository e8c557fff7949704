//! A hexagonal-grid terrain model: axial coordinates, a height field with
//! surface classification, corner-height interpolation for seamless meshes,
//! slope-based material selection, and a registry of placed objects.

pub mod cellmap;
pub mod cursor;
pub mod hex;
pub mod interact;
pub mod material;
pub mod object;
pub mod grid;
pub mod registry;
pub mod surface;
pub mod rotation;
