//! Lattice (grid) based graph structures: square grids, hex grids and an abstract
//! lattice graph whose behaviour is decided by a shape.
pub mod array2;
pub mod array2d;
pub mod bitset;
pub mod fixedvec2d;
pub mod hex;
pub mod lattice_abstract;
pub mod square;

pub use array2::Array2;
pub use square::SquareGraph;

