//! Reading Wavefront OBJ lines: positions, normals and texture coordinates,
//! each from its own kind of line, and faces resolved against them.
//!
//! Numbers are kept as exact decimal numerals (see [`decimal`]); nothing in
//! this crate rounds them.

use crate::mesh::{MeshData, MeshModel};
use vstd::prelude::*;

pub mod decimal;
pub mod digits;
pub mod error;
pub mod face;
pub mod index;
pub mod mesh;
pub mod pattern;
pub mod vertex;
pub mod views;

verus! {

/// A mesh with the layout of one vertex set and no data yet.
pub fn get_default_mesh_data() -> (mesh: MeshData)
    ensures
        mesh@ == MeshModel::initial(),
{
    MeshData::default()
}

} // verus!
