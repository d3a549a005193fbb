//! Hex graphs: axial, offset and double coordinates.
pub mod shapes;
pub mod double_coord;
pub mod offset_based;
pub mod axial_based;
pub mod hex2d;
