//! Integer core of a family of procedural noise generators: the shuffled
//! hash table, the gradient tables, simplex corner selection and toroidal
//! lattice addressing.
pub mod gradients;
pub mod lattice;
pub mod permutation;
pub mod simplex;

pub use gradients::{grad2, grad4};
pub use lattice::{perlin_cell, tile_offsets, CellNodes};
pub use permutation::PermutationTable;
pub use simplex::{simplex2_corners, simplex4_corners, simplex4_ranks, Corner2, Corner4};
