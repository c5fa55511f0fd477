use vk_triangle::descriptor::{create_descriptor_set_layout, DescriptorSetLayoutBinding};
use vk_triangle::error::Error;
use vk_triangle::vertex::{
    create_vertex_buffer, get_memory_type_index, vertices, BufferRequest, MemoryRequirements,
    MemoryType, Vec2, Vec3, Vertex, VertexInputAttributeDescription,
    VertexInputBindingDescription, F32_HALF, F32_MINUS_HALF, F32_ONE, F32_ZERO, VERTEX_COUNT,
    VERTEX_SIZE,
};

fn memory_type(flags: u32) -> MemoryType {
    MemoryType { property_flags: flags, heap_index: 0 }
}

fn requirements(bits: u32) -> MemoryRequirements {
    MemoryRequirements { size: 60, alignment: 4, memory_type_bits: bits }
}

#[test]
fn float_bit_patterns() {
    assert_eq!(f32::from_bits(F32_ZERO), 0.0);
    assert_eq!(f32::from_bits(F32_HALF), 0.5);
    assert_eq!(f32::from_bits(F32_MINUS_HALF), -0.5);
    assert_eq!(f32::from_bits(F32_ONE), 1.0);
}

#[test]
fn triangle_vertices() {
    let v = vertices();
    assert_eq!(v.len(), VERTEX_COUNT);
    let floats: Vec<[f32; 5]> = v
        .iter()
        .map(|v| {
            [
                f32::from_bits(v.pos.x),
                f32::from_bits(v.pos.y),
                f32::from_bits(v.color.x),
                f32::from_bits(v.color.y),
                f32::from_bits(v.color.z),
            ]
        })
        .collect();
    assert_eq!(
        floats,
        vec![[0.0, -0.5, 0.0, 0.0, 1.0], [0.5, 0.5, 0.0, 1.0, 0.0], [-0.5, 0.5, 1.0, 0.0, 0.0]]
    );
}

#[test]
fn vertex_is_made_of_its_parts() {
    let pos = Vec2 { x: 1, y: 2 };
    let color = Vec3 { x: 3, y: 4, z: 5 };
    assert_eq!(Vertex::new(pos, color), Vertex { pos, color });
}

#[test]
fn vertex_layout() {
    assert_eq!(VERTEX_SIZE, 20);
    assert_eq!(
        Vertex::binding_descriptions(),
        VertexInputBindingDescription { binding: 0, stride: 20, input_rate: 0 }
    );
    assert_eq!(
        Vertex::attribute_descriptions(),
        [
            VertexInputAttributeDescription { binding: 0, location: 0, format: 103, offset: 0 },
            VertexInputAttributeDescription { binding: 0, location: 1, format: 106, offset: 8 },
        ]
    );
}

#[test]
fn vertex_buffer_plan() {
    let plan = create_vertex_buffer();
    assert_eq!(plan.size, 60);
    assert_eq!(
        plan.staging,
        BufferRequest { size: 60, usage: 0x1, sharing_mode: 0, properties: 0x6 }
    );
    assert_eq!(
        plan.vertex,
        BufferRequest { size: 60, usage: 0x82, sharing_mode: 0, properties: 0x1 }
    );
}

#[test]
fn memory_type_first_allowed_with_all_properties() {
    let types = vec![memory_type(0x1), memory_type(0x6), memory_type(0x7), memory_type(0x6)];
    assert_eq!(get_memory_type_index(&types, 0x6, requirements(0b1111)), Ok(1));
    assert_eq!(get_memory_type_index(&types, 0x6, requirements(0b1100)), Ok(2));
    assert_eq!(get_memory_type_index(&types, 0x6, requirements(0b1000)), Ok(3));
    assert_eq!(get_memory_type_index(&types, 0x1, requirements(0b1111)), Ok(0));
    assert_eq!(get_memory_type_index(&types, 0x1, requirements(0b1110)), Ok(2));
    assert_eq!(get_memory_type_index(&types, 0x0, requirements(0b0001)), Ok(0));
}

#[test]
fn memory_type_bit_i_speaks_of_type_i() {
    let types = vec![memory_type(0x1); 32];
    for i in 0..32u32 {
        assert_eq!(get_memory_type_index(&types, 0x1, requirements(1 << i)), Ok(i));
    }
}

#[test]
fn memory_type_none_suitable() {
    let types = vec![memory_type(0x1), memory_type(0x2)];
    assert_eq!(
        get_memory_type_index(&types, 0x6, requirements(0b11)),
        Err(Error::NoSuitableMemoryType)
    );
    assert_eq!(
        get_memory_type_index(&types, 0x1, requirements(0b10)),
        Err(Error::NoSuitableMemoryType)
    );
    assert_eq!(
        get_memory_type_index(&types, 0x1, requirements(0)),
        Err(Error::NoSuitableMemoryType)
    );
    assert_eq!(
        get_memory_type_index(&vec![], 0x1, requirements(u32::MAX)),
        Err(Error::NoSuitableMemoryType)
    );
}

#[test]
fn memory_type_beyond_the_mask_is_never_allowed() {
    let mut types = vec![memory_type(0x0); 32];
    types.push(memory_type(0x1));
    assert_eq!(
        get_memory_type_index(&types, 0x1, requirements(u32::MAX)),
        Err(Error::NoSuitableMemoryType)
    );
}

#[test]
fn descriptor_binding_of_the_uniform_buffer() {
    assert_eq!(
        create_descriptor_set_layout(),
        DescriptorSetLayoutBinding {
            binding: 0,
            descriptor_type: 6,
            descriptor_count: 1,
            stage_flags: 1,
        }
    );
}
