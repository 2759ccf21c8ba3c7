use deferred_viewer::layout::{
    Vertex, VertexAttribute, VertexBufferLayout, VertexFormat, VertexStepMode,
};
use deferred_viewer::model::{
    assemble_vertices, IndexedDraw, LoadedMesh, Model, ModelVertex, ZERO_BITS,
};

fn bits(values: &[f32]) -> Vec<u32> {
    values.iter().map(|value| value.to_bits()).collect()
}

fn floats(record: [u32; 3]) -> [f32; 3] {
    [f32::from_bits(record[0]), f32::from_bits(record[1]), f32::from_bits(record[2])]
}

fn triangle() -> LoadedMesh {
    LoadedMesh {
        positions: bits(&[0.0, 0.0, 0.0, 1.0, 0.0, 0.0, 0.0, 1.0, 0.0]),
        normals: bits(&[0.0, 0.0, 1.0, 0.0, 0.0, 1.0, 0.0, 0.0, 1.0]),
        indices: vec![0, 1, 2],
    }
}

#[test]
fn zero_bits_are_positive_zero() {
    assert_eq!(ZERO_BITS, 0.0f32.to_bits());
    assert_eq!(f32::from_bits(ZERO_BITS), 0.0);
    assert!(f32::from_bits(ZERO_BITS).is_sign_positive());
}

#[test]
fn vertices_interleave_positions_and_normals() {
    let positions = bits(&[1.0, 2.0, 3.0, 4.0, 5.0, 6.0]);
    let normals = bits(&[0.0, 1.0, 0.0, -1.0, 0.0, 0.5]);
    let vertices = assemble_vertices(&positions, &normals);
    assert_eq!(vertices.len(), 2);
    assert_eq!(floats(vertices[0].position), [1.0, 2.0, 3.0]);
    assert_eq!(floats(vertices[0].normal), [0.0, 1.0, 0.0]);
    assert_eq!(floats(vertices[0].color), [0.0, 0.0, 0.0]);
    assert_eq!(floats(vertices[1].position), [4.0, 5.0, 6.0]);
    assert_eq!(floats(vertices[1].normal), [-1.0, 0.0, 0.5]);
    assert_eq!(floats(vertices[1].color), [0.0, 0.0, 0.0]);
}

#[test]
fn absent_normals_become_zero_vectors() {
    let positions = bits(&[1.0, 2.0, 3.0, 4.0, 5.0, 6.0, 7.0, 8.0, 9.0]);
    let vertices = assemble_vertices(&positions, &Vec::new());
    assert_eq!(vertices.len(), 3);
    for (i, vertex) in vertices.iter().enumerate() {
        let base = (3 * i) as f32;
        assert_eq!(floats(vertex.position), [base + 1.0, base + 2.0, base + 3.0]);
        assert_eq!(vertex.normal, [0, 0, 0]);
        assert_eq!(vertex.color, [0, 0, 0]);
    }
}

#[test]
fn vertex_records_keep_bit_patterns() {
    let positions = vec![0x7fc0_0001, 0x8000_0000, 0xffff_ffff];
    let normals = vec![0x0000_0001, 0x7f80_0000, 0xff80_0000];
    let vertices = assemble_vertices(&positions, &normals);
    assert_eq!(
        vertices,
        vec![ModelVertex {
            position: [0x7fc0_0001, 0x8000_0000, 0xffff_ffff],
            color: [0, 0, 0],
            normal: [0x0000_0001, 0x7f80_0000, 0xff80_0000],
        }]
    );
}

#[test]
fn no_positions_give_no_vertices() {
    assert!(assemble_vertices(&Vec::new(), &Vec::new()).is_empty());
    assert!(assemble_vertices(&bits(&[1.0, 2.0]), &Vec::new()).is_empty());
}

#[test]
fn trailing_scalars_are_left_out() {
    let positions = bits(&[1.0, 2.0, 3.0, 4.0, 5.0]);
    let normals = bits(&[0.0, 0.0, 1.0]);
    let vertices = assemble_vertices(&positions, &normals);
    assert_eq!(vertices.len(), 1);
    assert_eq!(floats(vertices[0].position), [1.0, 2.0, 3.0]);
    assert_eq!(floats(vertices[0].normal), [0.0, 0.0, 1.0]);
}

#[test]
fn surplus_normals_are_left_out() {
    let positions = bits(&[1.0, 2.0, 3.0]);
    let normals = bits(&[0.0, 1.0, 0.0, 9.0, 9.0, 9.0, 9.0]);
    let vertices = assemble_vertices(&positions, &normals);
    assert_eq!(vertices.len(), 1);
    assert_eq!(floats(vertices[0].normal), [0.0, 1.0, 0.0]);
}

#[test]
fn loadable_meshes_have_no_or_all_normals() {
    assert!(triangle().is_loadable());
    let without = LoadedMesh { normals: Vec::new(), ..triangle() };
    assert!(without.is_loadable());
    let partial = LoadedMesh { normals: bits(&[0.0, 0.0, 1.0, 0.0, 0.0, 1.0]), ..triangle() };
    assert!(!partial.is_loadable());
    let short = LoadedMesh { normals: bits(&[0.0, 0.0, 1.0, 0.0, 0.0, 1.0, 0.0, 0.0]), ..triangle() };
    assert!(!short.is_loadable());
    let empty = LoadedMesh { positions: Vec::new(), normals: Vec::new(), indices: Vec::new() };
    assert!(empty.is_loadable());
    let stray = LoadedMesh {
        positions: bits(&[1.0, 2.0]),
        normals: bits(&[1.0]),
        indices: Vec::new(),
    };
    assert!(stray.is_loadable());
}

#[test]
fn load_builds_the_model_from_the_mesh() {
    let model = Model::load("teapot.obj", &vec![triangle()]);
    assert_eq!(model.name(), "teapot.obj");
    assert_eq!(model.indices(), &vec![0, 1, 2]);
    assert_eq!(model.num_indices(), 3);
    let vertices = model.vertices();
    assert_eq!(vertices.len(), 3);
    assert_eq!(floats(vertices[0].position), [0.0, 0.0, 0.0]);
    assert_eq!(floats(vertices[1].position), [1.0, 0.0, 0.0]);
    assert_eq!(floats(vertices[2].position), [0.0, 1.0, 0.0]);
    for vertex in vertices {
        assert_eq!(floats(vertex.normal), [0.0, 0.0, 1.0]);
        assert_eq!(vertex.color, [0, 0, 0]);
    }
}

#[test]
fn load_uses_only_the_first_mesh() {
    let second = LoadedMesh {
        positions: bits(&[9.0, 9.0, 9.0]),
        normals: Vec::new(),
        indices: vec![0, 0, 0, 0, 0, 0],
    };
    let model = Model::load("two.obj", &vec![triangle(), second]);
    assert_eq!(model.num_indices(), 3);
    assert_eq!(model.vertices().len(), 3);
    assert_eq!(model.indices(), &vec![0, 1, 2]);
}

#[test]
fn load_without_normals_fills_in_zero_vectors() {
    let mesh = LoadedMesh { normals: Vec::new(), ..triangle() };
    let model = Model::load("flat.obj", &vec![mesh]);
    assert_eq!(model.vertices().len(), 3);
    for vertex in model.vertices() {
        assert_eq!(floats(vertex.normal), [0.0, 0.0, 0.0]);
    }
}

#[test]
fn load_keeps_repeated_indices() {
    let mesh = LoadedMesh { indices: vec![0, 1, 2, 2, 1, 0], ..triangle() };
    let model = Model::load("quad.obj", &vec![mesh]);
    assert_eq!(model.indices(), &vec![0, 1, 2, 2, 1, 0]);
    assert_eq!(model.num_indices(), 6);
}

#[test]
fn load_of_an_empty_mesh_gives_an_empty_model() {
    let mesh = LoadedMesh { positions: Vec::new(), normals: Vec::new(), indices: Vec::new() };
    let model = Model::load("", &vec![mesh]);
    assert_eq!(model.name(), "");
    assert!(model.vertices().is_empty());
    assert!(model.indices().is_empty());
    assert_eq!(model.num_indices(), 0);
}

#[test]
fn draw_call_covers_the_whole_mesh_once() {
    let mesh = LoadedMesh { indices: vec![0, 1, 2, 2, 1, 0], ..triangle() };
    let model = Model::load("quad.obj", &vec![mesh]);
    assert_eq!(
        model.draw_call(),
        IndexedDraw {
            first_index: 0,
            index_count: 6,
            base_vertex: 0,
            first_instance: 0,
            instance_count: 1,
        }
    );
}

#[test]
fn model_vertex_layout_is_three_packed_float_triples() {
    let layout = ModelVertex::desc();
    assert_eq!(
        layout,
        VertexBufferLayout {
            array_stride: 36,
            step_mode: VertexStepMode::Vertex,
            attributes: vec![
                VertexAttribute { format: VertexFormat::Float32x3, offset: 0, shader_location: 0 },
                VertexAttribute { format: VertexFormat::Float32x3, offset: 12, shader_location: 1 },
                VertexAttribute { format: VertexFormat::Float32x3, offset: 24, shader_location: 2 },
            ],
        }
    );
}

#[test]
fn model_vertex_stride_is_the_record_size() {
    assert_eq!(ModelVertex::RECORD_BYTES, 36);
    assert_eq!(ModelVertex::desc().array_stride, std::mem::size_of::<ModelVertex>() as u64);
}

#[test]
fn vertex_formats_have_four_bytes_per_component() {
    assert_eq!(VertexFormat::Float32.size(), 4);
    assert_eq!(VertexFormat::Float32x2.size(), 8);
    assert_eq!(VertexFormat::Float32x3.size(), 12);
    assert_eq!(VertexFormat::Float32x4.size(), 16);
}
