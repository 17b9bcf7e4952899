use render_resources::instance_buffer::{encode, layout};
use render_resources::main_instance::{
    MainInstance, MainInstanceRaw, INSTANCE_LOCATION_BASE, INSTANCE_STRIDE,
};
use render_resources::model::{ModelVertex, VERTEX_STRIDE};
use render_resources::vertex::{VertexAttribute, VertexFormat, VertexStepMode};

fn bits(matrix: [f32; 16]) -> [u32; 16] {
    let mut out = [0u32; 16];
    for (o, m) in out.iter_mut().zip(matrix.iter()) {
        *o = m.to_bits();
    }
    out
}

/// A rotation about the z axis by `angle`, then a translation, four floats
/// at a time as the shader reads them.
fn transform(angle: f32, x: f32, y: f32, z: f32) -> [f32; 16] {
    let (s, c) = angle.sin_cos();
    [c, s, 0.0, 0.0, -s, c, 0.0, 0.0, 0.0, 0.0, 1.0, 0.0, x, y, z, 1.0]
}

fn instance(angle: f32, x: f32, linear: bool, layer: i32) -> MainInstance {
    MainInstance {
        model: bits(transform(angle, x, 2.0 * x, -x)),
        use_linear_sampler: linear,
        texture_index: layer,
    }
}

fn word_at(bytes: &[u8], at: usize) -> u32 {
    u32::from_ne_bytes([bytes[at], bytes[at + 1], bytes[at + 2], bytes[at + 3]])
}

#[test]
fn to_raw_keeps_matrix_and_layer_and_collapses_the_flag() {
    let linear = instance(0.5, 1.0, true, 3).to_raw();
    assert_eq!(linear.model, bits(transform(0.5, 1.0, 2.0, -1.0)));
    assert_eq!(linear.use_linear_sampler, 1);
    assert_eq!(linear.texture_index, 3);
    let nearest = instance(0.5, 1.0, false, -4).to_raw();
    assert_eq!(nearest.use_linear_sampler, 0);
    assert_eq!(nearest.texture_index, -4);
}

#[test]
fn encoding_no_instances_gives_no_bytes() {
    assert!(encode(&Vec::new()).is_empty());
}

#[test]
fn encoding_takes_72_bytes_for_each_instance() {
    for n in 0..6usize {
        let instances: Vec<MainInstance> =
            (0..n).map(|i| instance(i as f32, i as f32, i % 2 == 0, i as i32)).collect();
        assert_eq!(encode(&instances).len(), 72 * n);
        assert_eq!(encode(&instances).len() as u64, INSTANCE_STRIDE * n as u64);
    }
}

#[test]
fn encoded_record_is_matrix_then_flag_then_layer() {
    let one = instance(1.25, 3.0, true, 7);
    let bytes = encode(&vec![one]);
    let mut expected: Vec<u8> = Vec::new();
    for word in one.model {
        expected.extend_from_slice(&word.to_ne_bytes());
    }
    expected.extend_from_slice(&1i32.to_ne_bytes());
    expected.extend_from_slice(&7i32.to_ne_bytes());
    assert_eq!(bytes, expected);
}

#[test]
fn encoded_records_follow_each_other_without_padding() {
    let instances = vec![
        instance(0.1, 1.0, false, 0),
        instance(0.2, 2.0, true, 1),
        instance(0.3, 3.0, false, -1),
    ];
    let bytes = encode(&instances);
    for (i, inst) in instances.iter().enumerate() {
        let alone = encode(&vec![*inst]);
        assert_eq!(&bytes[72 * i..72 * (i + 1)], &alone[..]);
    }
}

#[test]
fn decoding_the_first_64_bytes_gives_back_the_transform() {
    let instances: Vec<MainInstance> = (0..5)
        .map(|i| instance(0.37 * i as f32, 1.5 * i as f32 - 2.0, i % 2 == 1, 10 - i))
        .collect();
    let bytes = encode(&instances);
    for (i, inst) in instances.iter().enumerate() {
        let record = &bytes[72 * i..72 * (i + 1)];
        let x = 1.5 * i as f32 - 2.0;
        let expected = transform(0.37 * i as f32, x, 2.0 * x, -x);
        for k in 0..16 {
            let word = word_at(record, 4 * k);
            assert_eq!(word, inst.model[k]);
            assert!((f32::from_bits(word) - expected[k]).abs() <= 1e-6);
        }
        assert_eq!(word_at(record, 64) as i32, if inst.use_linear_sampler { 1 } else { 0 });
        assert_eq!(word_at(record, 68) as i32, inst.texture_index);
    }
}

#[test]
fn encoding_keeps_negative_layers_and_extreme_bit_patterns() {
    let inst = MainInstance {
        model: [
            u32::MAX, 0, 0x8000_0000, 0x7fc0_0000, 1, 2, 3, 4, 5, 6, 7, 8, 9, 10, 11, 0xdead_beef,
        ],
        use_linear_sampler: false,
        texture_index: i32::MIN,
    };
    let bytes = encode(&vec![inst]);
    for k in 0..16 {
        assert_eq!(word_at(&bytes, 4 * k), inst.model[k]);
    }
    assert_eq!(word_at(&bytes, 64), 0);
    assert_eq!(word_at(&bytes, 68) as i32, i32::MIN);
}

#[test]
fn push_words_appends_the_18_words_of_a_record() {
    let raw = MainInstanceRaw {
        model: bits(transform(0.0, 1.0, 2.0, 3.0)),
        use_linear_sampler: 1,
        texture_index: -2,
    };
    let mut words = vec![99u32];
    raw.push_words(&mut words);
    assert_eq!(words.len(), 19);
    assert_eq!(words[0], 99);
    assert_eq!(&words[1..17], &raw.model[..]);
    assert_eq!(words[17], 1);
    assert_eq!(words[18], (-2i32) as u32);
}

#[test]
fn instance_layout_describes_the_record() {
    let desc = MainInstanceRaw::desc();
    assert_eq!(desc.array_stride, 72);
    assert_eq!(desc.step_mode, VertexStepMode::Instance);
    assert_eq!(
        desc.attributes,
        vec![
            VertexAttribute { offset: 0, shader_location: 5, format: VertexFormat::Float32x4 },
            VertexAttribute { offset: 16, shader_location: 6, format: VertexFormat::Float32x4 },
            VertexAttribute { offset: 32, shader_location: 7, format: VertexFormat::Float32x4 },
            VertexAttribute { offset: 48, shader_location: 8, format: VertexFormat::Float32x4 },
            VertexAttribute { offset: 64, shader_location: 9, format: VertexFormat::Sint32 },
            VertexAttribute { offset: 68, shader_location: 10, format: VertexFormat::Sint32 },
        ]
    );
    let again = layout();
    assert_eq!(again.array_stride, desc.array_stride);
    assert_eq!(again.step_mode, desc.step_mode);
    assert_eq!(again.attributes, desc.attributes);
}

#[test]
fn instance_attributes_cover_the_record_without_gaps() {
    let desc = MainInstanceRaw::desc();
    let mut at = 0u64;
    for (i, a) in desc.attributes.iter().enumerate() {
        assert_eq!(a.offset, at);
        assert_eq!(a.shader_location, INSTANCE_LOCATION_BASE + i as u32);
        at += a.format.size();
    }
    assert_eq!(at, desc.array_stride);
}

#[test]
fn vertex_layout_describes_a_mesh_vertex() {
    let desc = ModelVertex::desc();
    assert_eq!(desc.array_stride, 32);
    assert_eq!(desc.array_stride, VERTEX_STRIDE);
    assert_eq!(desc.step_mode, VertexStepMode::Vertex);
    assert_eq!(
        desc.attributes,
        vec![
            VertexAttribute { offset: 0, shader_location: 0, format: VertexFormat::Float32x3 },
            VertexAttribute { offset: 12, shader_location: 1, format: VertexFormat::Float32x2 },
            VertexAttribute { offset: 20, shader_location: 2, format: VertexFormat::Float32x3 },
        ]
    );
}

#[test]
fn instance_locations_avoid_the_vertex_locations() {
    let vertex = ModelVertex::desc();
    let instance = MainInstanceRaw::desc();
    for v in &vertex.attributes {
        assert!(v.shader_location < INSTANCE_LOCATION_BASE);
        for i in &instance.attributes {
            assert_ne!(v.shader_location, i.shader_location);
        }
    }
}

#[test]
fn vertex_format_sizes() {
    assert_eq!(VertexFormat::Float32x2.size(), 8);
    assert_eq!(VertexFormat::Float32x3.size(), 12);
    assert_eq!(VertexFormat::Float32x4.size(), 16);
    assert_eq!(VertexFormat::Sint32.size(), 4);
}

#[test]
fn encoding_round_trips_a_translation_composed_with_a_rotation() {
    let position = cgmath::Vector3::new(1.5f32, -2.0, 0.25);
    let rotation = cgmath::Quaternion::new(0.5f32, 0.5, -0.5, 0.5);
    let model: [[f32; 4]; 4] =
        (cgmath::Matrix4::from_translation(position) * cgmath::Matrix4::from(rotation)).into();
    let mut composed = [0u32; 16];
    for row in 0..4 {
        for column in 0..4 {
            composed[4 * row + column] = model[row][column].to_bits();
        }
    }
    let inst = MainInstance { model: composed, use_linear_sampler: true, texture_index: 1 };
    let bytes = encode(&vec![inst]);
    assert_eq!(bytes.len(), 72);
    for row in 0..4 {
        for column in 0..4 {
            let decoded = f32::from_bits(word_at(&bytes, 4 * (4 * row + column)));
            assert!((decoded - model[row][column]).abs() <= f32::EPSILON);
        }
    }
    // The translation stands in the last four floats.
    assert_eq!(f32::from_bits(word_at(&bytes, 48)), 1.5);
    assert_eq!(f32::from_bits(word_at(&bytes, 52)), -2.0);
    assert_eq!(f32::from_bits(word_at(&bytes, 56)), 0.25);
    assert_eq!(f32::from_bits(word_at(&bytes, 60)), 1.0);
}
