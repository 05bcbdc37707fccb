//! The packed buffer of a mesh and the layout of one vertex in it.

use vstd::prelude::*;

verus! {

/// The number of bytes of one component in the buffer.
pub const COMPONENT_SIZE: u32 = 4;

/// What a [`MeshData`] holds. Offsets and sizes are in bytes.
pub struct MeshModel {
    pub vertex_offset: u32,
    pub vert_component_count: u32,
    pub vertex_component_size: u32,
    pub texture_coord_offset: u32,
    pub texture_coord_component_count: u32,
    pub texture_coord_component_size: u32,
    pub normal_offset: u32,
    pub normal_component_count: u32,
    pub normal_component_size: u32,
    pub buffer: Seq<u8>,
}

impl MeshModel {
    /// The layout of a mesh before any data is written: a position of three
    /// components, then a texture coordinate of two, then a normal of three,
    /// each component of [`COMPONENT_SIZE`] bytes, and an empty buffer.
    pub open spec fn initial() -> MeshModel {
        MeshModel {
            vertex_offset: 0,
            vert_component_count: 3,
            vertex_component_size: COMPONENT_SIZE,
            texture_coord_offset: 12,
            texture_coord_component_count: 2,
            texture_coord_component_size: COMPONENT_SIZE,
            normal_offset: 20,
            normal_component_count: 3,
            normal_component_size: COMPONENT_SIZE,
            buffer: Seq::empty(),
        }
    }

    /// Whether the three attributes follow one another without a gap, the
    /// position first.
    pub open spec fn interleaved(self) -> bool {
        &&& self.vertex_offset == 0
        &&& self.texture_coord_offset == self.vertex_offset + self.vert_component_count
            * self.vertex_component_size
        &&& self.normal_offset == self.texture_coord_offset + self.texture_coord_component_count
            * self.texture_coord_component_size
    }
}

/// The vertex data of a mesh, packed, with the layout of one vertex.
#[derive(Debug, PartialEq, Eq)]
pub struct MeshData {
    vertex_offset: u32,
    /// Number of components used to define a vertex
    vert_component_count: u32,
    /// Number of bytes required for a single vertex component
    vertex_component_size: u32,
    texture_coord_offset: u32,
    /// Number of components used to define a texture coordinate
    texture_coord_component_count: u32,
    /// Number of bytes required for a single texture coordinate component
    texture_coord_component_size: u32,
    normal_offset: u32,
    /// Number of components used to define a vertex normal
    normal_component_count: u32,
    /// Number of bytes required for a single normal component
    normal_component_size: u32,
    /// Raw mesh data vector
    buffer: Vec<u8>,
}

impl View for MeshData {
    type V = MeshModel;

    closed spec fn view(&self) -> MeshModel {
        MeshModel {
            vertex_offset: self.vertex_offset,
            vert_component_count: self.vert_component_count,
            vertex_component_size: self.vertex_component_size,
            texture_coord_offset: self.texture_coord_offset,
            texture_coord_component_count: self.texture_coord_component_count,
            texture_coord_component_size: self.texture_coord_component_size,
            normal_offset: self.normal_offset,
            normal_component_count: self.normal_component_count,
            normal_component_size: self.normal_component_size,
            buffer: self.buffer@,
        }
    }
}

impl Default for MeshData {
    fn default() -> (mesh: Self)
        ensures
            mesh@ == MeshModel::initial(),
            mesh@.interleaved(),
    {
        Self {
            vertex_offset: 0,
            vert_component_count: 3,
            vertex_component_size: COMPONENT_SIZE,
            texture_coord_offset: 3 * COMPONENT_SIZE,
            texture_coord_component_count: 2,
            texture_coord_component_size: COMPONENT_SIZE,
            normal_offset: 5 * COMPONENT_SIZE,
            normal_component_count: 3,
            normal_component_size: COMPONENT_SIZE,
            buffer: Vec::new(),
        }
    }
}

impl MeshData {
    /// Where the position starts within one vertex, in bytes.
    pub fn vertex_offset(&self) -> (offset: u32)
        ensures
            offset == self@.vertex_offset,
    {
        self.vertex_offset
    }

    /// The number of components of a position.
    pub fn vert_component_count(&self) -> (count: u32)
        ensures
            count == self@.vert_component_count,
    {
        self.vert_component_count
    }

    /// The number of bytes of one component of a position.
    pub fn vertex_component_size(&self) -> (size: u32)
        ensures
            size == self@.vertex_component_size,
    {
        self.vertex_component_size
    }

    /// Where the texture coordinate starts within one vertex, in bytes.
    pub fn texture_coord_offset(&self) -> (offset: u32)
        ensures
            offset == self@.texture_coord_offset,
    {
        self.texture_coord_offset
    }

    /// The number of components of a texture coordinate.
    pub fn texture_coord_component_count(&self) -> (count: u32)
        ensures
            count == self@.texture_coord_component_count,
    {
        self.texture_coord_component_count
    }

    /// The number of bytes of one component of a texture coordinate.
    pub fn texture_coord_component_size(&self) -> (size: u32)
        ensures
            size == self@.texture_coord_component_size,
    {
        self.texture_coord_component_size
    }

    /// Where the normal starts within one vertex, in bytes.
    pub fn normal_offset(&self) -> (offset: u32)
        ensures
            offset == self@.normal_offset,
    {
        self.normal_offset
    }

    /// The number of components of a normal.
    pub fn normal_component_count(&self) -> (count: u32)
        ensures
            count == self@.normal_component_count,
    {
        self.normal_component_count
    }

    /// The number of bytes of one component of a normal.
    pub fn normal_component_size(&self) -> (size: u32)
        ensures
            size == self@.normal_component_size,
    {
        self.normal_component_size
    }

    /// The packed data.
    pub fn buffer(&self) -> (buffer: &Vec<u8>)
        ensures
            buffer@ == self@.buffer,
    {
        &self.buffer
    }
}

} // verus!
