//! Autotiled wall geometry: classifies each quadrant of every wall cell of a
//! wall/floor grid into one of four bevel pieces and builds one indexed mesh
//! from the pieces.
pub mod assembly;
pub mod compass;
pub mod geometry;
pub mod grid;
pub mod mesh;
pub mod tiles;
