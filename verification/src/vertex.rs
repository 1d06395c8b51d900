//! Layout of vertex members in a vertex buffer.

use vstd::prelude::*;

verus! {

/// Where a vertex member lies in its vertex: its byte offset, its number of elements and its
/// stride.
#[derive(Debug, Clone, Copy, PartialEq, Eq, Structural)]
pub struct VertexMemberLayout {
    pub offset: u32,
    pub num_elements: u32,
    pub stride: u32,
}

/// Lays out vertex members one after another.
#[derive(Debug)]
pub struct CreateVertexMembers {
    offset: usize,
}

impl CreateVertexMembers {
    /// The offset the next member will get.
    pub closed spec fn spec_offset(&self) -> usize {
        self.offset
    }

    /// A layout that starts at offset zero.
    pub fn default() -> (r: Self)
        ensures
            r.spec_offset() == 0,
    {
        CreateVertexMembers { offset: 0 }
    }

    /// The offset the next member will get.
    pub fn offset(&self) -> (r: usize)
        ensures
            r == self.spec_offset(),
    {
        self.offset
    }

    /// Places a member of `size` bytes whose format has blocks of `block_size` bytes: the
    /// member takes the current offset, one element, and the block size as stride, and the
    /// next member starts right after it. The member's size must be its format's block size.
    pub fn create(&mut self, size: usize, block_size: u64) -> (r: VertexMemberLayout)
        requires
            size as u64 == block_size,
            0 < block_size <= u32::MAX,
            old(self).spec_offset() <= u32::MAX,
            old(self).spec_offset() + size <= usize::MAX,
        ensures
            r.offset == old(self).spec_offset(),
            r.num_elements == 1,
            r.stride == block_size,
            final(self).spec_offset() == old(self).spec_offset() + size,
    {
        let block = block_size as u32;
        let out = VertexMemberLayout {
            offset: self.offset as u32,
            num_elements: (size as u32) / block,
            stride: block,
        };
        self.offset = self.offset + size;
        out
    }
}

/// Byte size of a vertex position or texture coordinate (two 32-bit floats).
pub const POS_SIZE: usize = 8;
/// Byte size of a vertex colour (four bytes).
pub const COLOR_SIZE: usize = 4;

/// The members of an imgui vertex: position, texture coordinate and colour, laid out one after
/// another from offset zero (at 0, 8 and 16 bytes).
pub fn draw_vert_members() -> (r: (VertexMemberLayout, VertexMemberLayout, VertexMemberLayout))
    ensures
        r.0 == (VertexMemberLayout { offset: 0, num_elements: 1, stride: 8 }),
        r.1 == (VertexMemberLayout { offset: 8, num_elements: 1, stride: 8 }),
        r.2 == (VertexMemberLayout { offset: 16, num_elements: 1, stride: 4 }),
{
    let mut builder = CreateVertexMembers::default();
    let pos = builder.create(POS_SIZE, 8);
    let uv = builder.create(POS_SIZE, 8);
    let col = builder.create(COLOR_SIZE, 4);
    (pos, uv, col)
}

} // verus!

verus! {

/// Vertices (`V`) and the indices of the triangles drawn from them.
#[derive(Debug)]
pub struct AppDrawData3D<V> {
    vertices: Vec<V>,
    indices: Vec<u32>,
}

impl<V> AppDrawData3D<V> {
    /// The vertices.
    pub closed spec fn spec_vertices(&self) -> Seq<V> {
        self.vertices@
    }

    /// The indices.
    pub closed spec fn spec_indices(&self) -> Seq<u32> {
        self.indices@
    }

    /// The vertices.
    pub fn get_vertices(&self) -> (r: &[V])
        ensures
            r@ == self.spec_vertices(),
    {
        self.vertices.as_slice()
    }

    /// The indices.
    pub fn get_indices(&self) -> (r: &[u32])
        ensures
            r@ == self.spec_indices(),
    {
        self.indices.as_slice()
    }

    /// Draw data made of the given vertices and indices.
    pub fn new(vertices: Vec<V>, indices: Vec<u32>) -> (r: Self)
        ensures
            r.spec_vertices() == vertices@,
            r.spec_indices() == indices@,
    {
        AppDrawData3D { vertices, indices }
    }

    /// Draw data with no vertices and no indices.
    pub fn empty() -> (r: Self)
        ensures
            r.spec_vertices() == Seq::<V>::empty(),
            r.spec_indices() == Seq::<u32>::empty(),
    {
        AppDrawData3D { vertices: Vec::new(), indices: Vec::new() }
    }
}

} // verus!
