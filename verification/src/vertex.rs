//! The triangle's vertices, how they are laid out for the vertex input
//! stage, and what their buffer needs.
//!
//! Floating-point components are carried as their IEEE 754 single precision
//! bit patterns, which is what ends up in the buffer.

use crate::command::SHARING_MODE_EXCLUSIVE;
use crate::error::Error;
use crate::search::{least, lemma_least_absent, lemma_least_found, lemma_least_is_least};
use vstd::prelude::*;

verus! {

/// `VK_FORMAT_R32G32_SFLOAT`: two 32-bit floats.
pub const FORMAT_R32G32_SFLOAT: i32 = 103;

/// `VK_FORMAT_R32G32B32_SFLOAT`: three 32-bit floats.
pub const FORMAT_R32G32B32_SFLOAT: i32 = 106;

/// `VK_VERTEX_INPUT_RATE_VERTEX`.
pub const VERTEX_INPUT_RATE_VERTEX: i32 = 0;

/// `VK_BUFFER_USAGE_TRANSFER_SRC_BIT`.
pub const BUFFER_USAGE_TRANSFER_SRC: u32 = 0x1;

/// `VK_BUFFER_USAGE_TRANSFER_DST_BIT`.
pub const BUFFER_USAGE_TRANSFER_DST: u32 = 0x2;

/// `VK_BUFFER_USAGE_VERTEX_BUFFER_BIT`.
pub const BUFFER_USAGE_VERTEX_BUFFER: u32 = 0x80;

/// `VK_MEMORY_PROPERTY_DEVICE_LOCAL_BIT`.
pub const MEMORY_PROPERTY_DEVICE_LOCAL: u32 = 0x1;

/// `VK_MEMORY_PROPERTY_HOST_VISIBLE_BIT`.
pub const MEMORY_PROPERTY_HOST_VISIBLE: u32 = 0x2;

/// `VK_MEMORY_PROPERTY_HOST_COHERENT_BIT`.
pub const MEMORY_PROPERTY_HOST_COHERENT: u32 = 0x4;

/// The bit pattern of the float 0.0.
pub const F32_ZERO: u32 = 0x0000_0000;

/// The bit pattern of the float 0.5.
pub const F32_HALF: u32 = 0x3F00_0000;

/// The bit pattern of the float -0.5.
pub const F32_MINUS_HALF: u32 = 0xBF00_0000;

/// The bit pattern of the float 1.0.
pub const F32_ONE: u32 = 0x3F80_0000;

/// The size of one float in bytes.
pub const FLOAT_SIZE: u32 = 4;

/// The size of one vertex in bytes: two floats of position, three of
/// colour.
pub const VERTEX_SIZE: u32 = 20;

/// The number of vertices of the triangle.
pub const VERTEX_COUNT: usize = 3;

/// Two floats, as bit patterns.
#[derive(Clone, Copy, Debug, PartialEq, Eq, Structural)]
pub struct Vec2 {
    pub x: u32,
    pub y: u32,
}

/// Three floats, as bit patterns.
#[derive(Clone, Copy, Debug, PartialEq, Eq, Structural)]
pub struct Vec3 {
    pub x: u32,
    pub y: u32,
    pub z: u32,
}

/// A vertex: a position in the plane and a colour. In a vertex buffer the
/// position comes first and the colour follows it directly.
#[derive(Clone, Copy, Debug, PartialEq, Eq, Structural)]
pub struct Vertex {
    pub pos: Vec2,
    pub color: Vec3,
}

/// How the vertex input stage steps through a vertex buffer.
#[derive(Clone, Copy, Debug, PartialEq, Eq, Structural)]
pub struct VertexInputBindingDescription {
    pub binding: u32,
    pub stride: u32,
    pub input_rate: i32,
}

/// Where the vertex input stage finds one attribute of a vertex.
#[derive(Clone, Copy, Debug, PartialEq, Eq, Structural)]
pub struct VertexInputAttributeDescription {
    pub binding: u32,
    pub location: u32,
    pub format: i32,
    pub offset: u32,
}

/// The triangle: blue at the top, green at the lower right, red at the
/// lower left.
pub open spec fn triangle() -> Seq<Vertex> {
    seq![
        Vertex {
            pos: Vec2 { x: F32_ZERO, y: F32_MINUS_HALF },
            color: Vec3 { x: F32_ZERO, y: F32_ZERO, z: F32_ONE },
        },
        Vertex {
            pos: Vec2 { x: F32_HALF, y: F32_HALF },
            color: Vec3 { x: F32_ZERO, y: F32_ONE, z: F32_ZERO },
        },
        Vertex {
            pos: Vec2 { x: F32_MINUS_HALF, y: F32_HALF },
            color: Vec3 { x: F32_ONE, y: F32_ZERO, z: F32_ZERO },
        },
    ]
}

/// The vertices of the triangle.
pub fn vertices() -> (v: [Vertex; 3])
    ensures
        v@ == triangle(),
{
    let v = [
        Vertex::new(
            Vec2 { x: F32_ZERO, y: F32_MINUS_HALF },
            Vec3 { x: F32_ZERO, y: F32_ZERO, z: F32_ONE },
        ),
        Vertex::new(
            Vec2 { x: F32_HALF, y: F32_HALF },
            Vec3 { x: F32_ZERO, y: F32_ONE, z: F32_ZERO },
        ),
        Vertex::new(
            Vec2 { x: F32_MINUS_HALF, y: F32_HALF },
            Vec3 { x: F32_ONE, y: F32_ZERO, z: F32_ZERO },
        ),
    ];
    assert(v@ =~= triangle());
    v
}

impl Vertex {
    pub fn new(pos: Vec2, color: Vec3) -> (vertex: Vertex)
        ensures
            vertex == (Vertex { pos, color }),
    {
        Vertex { pos, color }
    }

    /// The one binding of the vertex buffer: binding 0, read vertex by
    /// vertex, one vertex every [`VERTEX_SIZE`] bytes.
    pub fn binding_descriptions() -> (binding: VertexInputBindingDescription)
        ensures
            binding == (VertexInputBindingDescription {
                binding: 0,
                stride: VERTEX_SIZE,
                input_rate: VERTEX_INPUT_RATE_VERTEX,
            }),
    {
        VertexInputBindingDescription {
            binding: 0,
            stride: VERTEX_SIZE,
            input_rate: VERTEX_INPUT_RATE_VERTEX,
        }
    }

    /// The two attributes of a vertex, both in binding 0: at location 0 the
    /// position, two floats at the start of the vertex; at location 1 the
    /// colour, three floats right behind the position.
    pub fn attribute_descriptions() -> (attributes: [VertexInputAttributeDescription; 2])
        ensures
            attributes@ == seq![
                VertexInputAttributeDescription {
                    binding: 0,
                    location: 0,
                    format: FORMAT_R32G32_SFLOAT,
                    offset: 0,
                },
                VertexInputAttributeDescription {
                    binding: 0,
                    location: 1,
                    format: FORMAT_R32G32B32_SFLOAT,
                    offset: (2 * FLOAT_SIZE) as u32,
                },
            ],
            attributes@[1].offset + 3 * FLOAT_SIZE == VERTEX_SIZE,
    {
        let pos = VertexInputAttributeDescription {
            binding: 0,
            location: 0,
            format: FORMAT_R32G32_SFLOAT,
            offset: 0,
        };
        let color = VertexInputAttributeDescription {
            binding: 0,
            location: 1,
            format: FORMAT_R32G32B32_SFLOAT,
            offset: 8,
        };
        let attributes = [pos, color];
        assert(attributes@ =~= seq![pos, color]);
        attributes
    }
}

/// What a buffer is created with, and the properties its memory must have.
#[derive(Clone, Copy, Debug, PartialEq, Eq, Structural)]
pub struct BufferRequest {
    pub size: u64,
    pub usage: u32,
    pub sharing_mode: i32,
    pub properties: u32,
}

/// The two buffers through which the vertices reach the device.
#[derive(Clone, Copy, Debug, PartialEq, Eq, Structural)]
pub struct VertexBufferPlan {
    /// The size of the vertex data in bytes.
    pub size: u64,
    /// The buffer the host writes the vertices to.
    pub staging: BufferRequest,
    /// The buffer the device draws from, filled by a copy from the staging
    /// buffer.
    pub vertex: BufferRequest,
}

/// The plan for the triangle's vertex data: a staging buffer that is a
/// transfer source in memory the host sees coherently, and a vertex buffer
/// that is a transfer destination in device-local memory, each as large as
/// the vertices, used by one queue family.
pub open spec fn vertex_buffer_plan() -> VertexBufferPlan {
    let size = (VERTEX_SIZE * VERTEX_COUNT) as u64;
    VertexBufferPlan {
        size,
        staging: BufferRequest {
            size,
            usage: BUFFER_USAGE_TRANSFER_SRC,
            sharing_mode: SHARING_MODE_EXCLUSIVE,
            properties: MEMORY_PROPERTY_HOST_COHERENT | MEMORY_PROPERTY_HOST_VISIBLE,
        },
        vertex: BufferRequest {
            size,
            usage: BUFFER_USAGE_TRANSFER_DST | BUFFER_USAGE_VERTEX_BUFFER,
            sharing_mode: SHARING_MODE_EXCLUSIVE,
            properties: MEMORY_PROPERTY_DEVICE_LOCAL,
        },
    }
}

/// Works out which buffers the upload of the triangle's vertices needs.
pub fn create_vertex_buffer() -> (plan: VertexBufferPlan)
    ensures
        plan == vertex_buffer_plan(),
        plan.size == 60,
{
    let size: u64 = 60;
    VertexBufferPlan {
        size,
        staging: BufferRequest {
            size,
            usage: BUFFER_USAGE_TRANSFER_SRC,
            sharing_mode: SHARING_MODE_EXCLUSIVE,
            properties: MEMORY_PROPERTY_HOST_COHERENT | MEMORY_PROPERTY_HOST_VISIBLE,
        },
        vertex: BufferRequest {
            size,
            usage: BUFFER_USAGE_TRANSFER_DST | BUFFER_USAGE_VERTEX_BUFFER,
            sharing_mode: SHARING_MODE_EXCLUSIVE,
            properties: MEMORY_PROPERTY_DEVICE_LOCAL,
        },
    }
}

/// The number of memory types that a 32-bit mask can speak of.
pub const MAX_MEMORY_TYPES: usize = 32;

/// One memory type of a physical device.
#[derive(Clone, Copy, Debug, PartialEq, Eq, Structural)]
pub struct MemoryType {
    pub property_flags: u32,
    pub heap_index: u32,
}

/// What a resource asks of its memory. Bit `i` of `memory_type_bits` is set
/// where memory type `i` is allowed.
#[derive(Clone, Copy, Debug, PartialEq, Eq, Structural)]
pub struct MemoryRequirements {
    pub size: u64,
    pub alignment: u64,
    pub memory_type_bits: u32,
}

/// Whether memory type `i` is allowed by the mask `bits`. A type beyond the
/// mask's 32 bits is never allowed.
pub open spec fn type_allowed(bits: u32, i: int) -> bool {
    0 <= i < MAX_MEMORY_TYPES && bits & (1u32 << (i as u32)) != 0
}

/// Whether memory type `i` is allowed for the resource and has all of the
/// properties asked for.
pub open spec fn type_suitable(
    memory_types: Seq<MemoryType>,
    properties: u32,
    requirements: MemoryRequirements,
    i: int,
) -> bool {
    &&& type_allowed(requirements.memory_type_bits, i)
    &&& memory_types[i].property_flags & properties == properties
}

/// The first suitable memory type.
pub open spec fn memory_type_index(
    memory_types: Seq<MemoryType>,
    properties: u32,
    requirements: MemoryRequirements,
) -> Option<int> {
    least(
        memory_types.len() as int,
        |i: int| type_suitable(memory_types, properties, requirements, i),
    )
}

/// Finds the first memory type that the resource allows and that has the
/// properties asked for.
pub fn get_memory_type_index(
    memory_types: &Vec<MemoryType>,
    properties: u32,
    requirements: MemoryRequirements,
) -> (r: Result<u32, Error>)
    ensures
        match memory_type_index(memory_types@, properties, requirements) {
            Some(i) => r == Ok::<u32, Error>(i as u32) && i < MAX_MEMORY_TYPES,
            None => r == Err::<u32, Error>(Error::NoSuitableMemoryType),
        },
{
    let ghost p = |i: int| type_suitable(memory_types@, properties, requirements, i);
    let mut i: usize = 0;
    while i < memory_types.len() && i < MAX_MEMORY_TYPES
        invariant
            i <= memory_types.len(),
            i <= MAX_MEMORY_TYPES,
            p == |i: int| type_suitable(memory_types@, properties, requirements, i),
            forall|j: int| 0 <= j < i ==> !#[trigger] p(j),
        decreases memory_types.len() - i,
    {
        let allowed = requirements.memory_type_bits & (1u32 << (i as u32)) != 0;
        if allowed && memory_types[i].property_flags & properties == properties {
            proof {
                assert(p(i as int));
                lemma_least_found(memory_types@.len() as int, p, i as int);
            }
            return Ok(i as u32);
        }
        assert(!p(i as int));
        i += 1;
    }
    proof {
        assert forall|j: int| 0 <= j < memory_types@.len() implies !#[trigger] p(j) by {
            if j >= i {
                assert(!type_allowed(requirements.memory_type_bits, j));
            }
        }
        lemma_least_absent(memory_types@.len() as int, p);
    }
    Err(Error::NoSuitableMemoryType)
}

/// The memory type that is found is allowed by the resource's mask and has
/// every property asked for, and no type before it is both. Where none is
/// found, no type is both.
pub proof fn lemma_memory_type_first_suitable(
    memory_types: Seq<MemoryType>,
    properties: u32,
    requirements: MemoryRequirements,
)
    ensures
        match memory_type_index(memory_types, properties, requirements) {
            Some(i) => {
                &&& 0 <= i < memory_types.len()
                &&& i < MAX_MEMORY_TYPES
                &&& type_suitable(memory_types, properties, requirements, i)
                &&& forall|j: int|
                    0 <= j < i ==> !type_suitable(memory_types, properties, requirements, j)
            },
            None => forall|j: int|
                0 <= j < memory_types.len() ==> !type_suitable(
                    memory_types,
                    properties,
                    requirements,
                    j,
                ),
        },
{
    let p = |i: int| type_suitable(memory_types, properties, requirements, i);
    lemma_least_is_least(memory_types.len() as int, p);
    match memory_type_index(memory_types, properties, requirements) {
        Some(i) => {
            assert forall|j: int| 0 <= j < i implies !type_suitable(
                memory_types,
                properties,
                requirements,
                j,
            ) by {
                assert(!p(j));
            }
        },
        None => {
            assert forall|j: int| 0 <= j < memory_types.len() implies !type_suitable(
                memory_types,
                properties,
                requirements,
                j,
            ) by {
                assert(!p(j));
            }
        },
    }
}

/// A mask with only bit `i` set allows memory type `i` and no other; the
/// empty mask allows none.
pub proof fn lemma_single_bit_mask(i: u32, j: u32)
    requires
        i < 32,
        j < 32,
    ensures
        type_allowed(1u32 << i, j as int) <==> i == j,
        !type_allowed(0, j as int),
{
    assert(((1u32 << i) & (1u32 << j) != 0) <==> i == j) by (bit_vector)
        requires
            i < 32,
            j < 32,
    ;
    assert(0u32 & (1u32 << j) == 0) by (bit_vector);
}

} // verus!
