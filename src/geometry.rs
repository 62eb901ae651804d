//! The fixed pentagon: five vertices drawn as three triangles through an
//! index list, and the layout of one vertex in a vertex buffer.

use vstd::prelude::*;

verus! {

/// Number of vertices of the pentagon.
pub const VERTEX_COUNT: u32 = 5;

/// Bytes of one 32-bit float.
pub const FLOAT_BYTES: u64 = 4;

/// Floats in a position, and in a colour.
pub const COMPONENTS: u64 = 3;

/// The index list: a fan of three triangles around the last vertex.
pub open spec fn pentagon_index_seq() -> Seq<u16> {
    seq![0u16, 1, 4, 1, 2, 4, 2, 3, 4]
}

/// Every index names one of `vertex_count` vertices.
pub open spec fn indices_within(indices: Seq<u16>, vertex_count: int) -> bool {
    forall|i: int| 0 <= i < indices.len() ==> (#[trigger] indices[i]) < vertex_count
}

/// The index list, in drawing order.
pub fn pentagon_indices() -> (r: Vec<u16>)
    ensures
        r@ == pentagon_index_seq(),
{
    let r: Vec<u16> = vec![0u16, 1, 4, 1, 2, 4, 2, 3, 4];
    assert(r@ == pentagon_index_seq());
    r
}

/// The index list names only the pentagon's vertices, and forms whole triangles.
pub proof fn lemma_pentagon_indices_valid()
    ensures
        indices_within(pentagon_index_seq(), VERTEX_COUNT as int),
        pentagon_index_seq().len() % 3 == 0,
{
    let s = pentagon_index_seq();
    assert forall|i: int| 0 <= i < s.len() implies (#[trigger] s[i]) < VERTEX_COUNT as int by {
        assert(0 <= i < 9);
    }
}

/// `lo` and `hi` stored in this order encode `v` with the low byte first.
pub open spec fn low_first(lo: u8, hi: u8, v: u16) -> bool {
    lo as int + 256 * (hi as int) == v as int
}

/// `b` holds each value of `v` in two bytes, all in one byte order: the
/// machine's own, which is either order.
pub open spec fn native_u16_bytes(v: Seq<u16>, b: Seq<u8>) -> bool {
    &&& b.len() == 2 * v.len()
    &&& {
        ||| forall|i: int| 0 <= i < v.len() ==> low_first(b[2 * i], b[2 * i + 1], #[trigger] v[i])
        ||| forall|i: int| 0 <= i < v.len() ==> low_first(b[2 * i + 1], b[2 * i], #[trigger] v[i])
    }
}

/// Relies on bytemuck::cast_slice from `u16` to `u8`: the same memory, read
/// as bytes, so two bytes per value in the machine's byte order.
#[verifier::external_body]
fn u16_slice_bytes(v: &[u16]) -> (r: Vec<u8>)
    ensures
        native_u16_bytes(v@, r@),
{
    bytemuck::cast_slice::<u16, u8>(v).to_vec()
}

/// The contents of the index buffer: the index list as bytes.
pub fn index_buffer_bytes() -> (r: Vec<u8>)
    ensures
        native_u16_bytes(pentagon_index_seq(), r@),
        r@.len() == 18,
{
    let indices = pentagon_indices();
    u16_slice_bytes(indices.as_slice())
}

/// Where one vertex attribute sits: a three-float vector at `offset` bytes
/// from the vertex start, read at `shader_location`.
#[derive(Clone, Copy, Debug, PartialEq, Eq, Structural)]
pub struct AttributeSlot {
    pub offset: u64,
    pub shader_location: u32,
}

/// How vertices lie in a vertex buffer: `array_stride` bytes apart, one per vertex.
#[derive(Clone, Debug)]
pub struct VertexLayout {
    pub array_stride: u64,
    pub attributes: Vec<AttributeSlot>,
}

/// Position first, then colour, packed without gaps.
pub open spec fn vertex_attribute_seq() -> Seq<AttributeSlot> {
    seq![
        AttributeSlot { offset: 0, shader_location: 0 },
        AttributeSlot { offset: (COMPONENTS * FLOAT_BYTES) as u64, shader_location: 1 },
    ]
}

/// The layout of a vertex: a position at location 0, a colour at location 1
/// right after it, and a stride of both together.
pub fn vertex_layout() -> (l: VertexLayout)
    ensures
        l.array_stride == 2 * COMPONENTS * FLOAT_BYTES,
        l.array_stride == 24,
        l.attributes@ == vertex_attribute_seq(),
{
    let position_bytes: u64 = COMPONENTS * FLOAT_BYTES;
    let attributes: Vec<AttributeSlot> = vec![
        AttributeSlot { offset: 0, shader_location: 0 },
        AttributeSlot { offset: position_bytes, shader_location: 1 },
    ];
    assert(attributes@ == vertex_attribute_seq());
    VertexLayout { array_stride: 2 * position_bytes, attributes }
}

} // verus!
