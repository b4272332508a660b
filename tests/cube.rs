use cube_scene::mesh::{cube_indices, cube_vertex, cube_vertices, CubeStyle, DrawCall, Mesh, Vertex};
use cube_scene::pipeline::{
    pack_vertices, Attribute, BlendFactor, BlendState, Channel, Comparison, CullFace, PipelineDesc,
    VertexFormat,
};
use cube_scene::setup::CubeSetup;
use cube_scene::shader::{meta, UniformType, COLORED_VERTEX, TEXTURED_FRAGMENT, TEXTURED_VERTEX};

const TEXTURED_TABLE: [f32; 216] = [
    -1.0, -1.0, -1.0,    1.0, 0.5, 0.5, 1.0,     0.0, 0.0,
     1.0, -1.0, -1.0,    1.0, 0.5, 0.5, 1.0,     1.0, 0.0,
     1.0,  1.0, -1.0,    1.0, 0.5, 0.5, 1.0,     1.0, 1.0,
    -1.0,  1.0, -1.0,    1.0, 0.5, 0.5, 1.0,     0.0, 1.0,

    -1.0, -1.0,  1.0,    0.5, 1.0, 0.5, 1.0,     0.0, 0.0,
     1.0, -1.0,  1.0,    0.5, 1.0, 0.5, 1.0,     1.0, 0.0,
     1.0,  1.0,  1.0,    0.5, 1.0, 0.5, 1.0,     1.0, 1.0,
    -1.0,  1.0,  1.0,    0.5, 1.0, 0.5, 1.0,     0.0, 1.0,

    -1.0, -1.0, -1.0,    0.5, 0.5, 1.0, 1.0,     0.0, 0.0,
    -1.0,  1.0, -1.0,    0.5, 0.5, 1.0, 1.0,     1.0, 0.0,
    -1.0,  1.0,  1.0,    0.5, 0.5, 1.0, 1.0,     1.0, 1.0,
    -1.0, -1.0,  1.0,    0.5, 0.5, 1.0, 1.0,     0.0, 1.0,

     1.0, -1.0, -1.0,    1.0, 0.5, 0.0, 1.0,     0.0, 0.0,
     1.0,  1.0, -1.0,    1.0, 0.5, 0.0, 1.0,     1.0, 0.0,
     1.0,  1.0,  1.0,    1.0, 0.5, 0.0, 1.0,     1.0, 1.0,
     1.0, -1.0,  1.0,    1.0, 0.5, 0.0, 1.0,     0.0, 1.0,

    -1.0, -1.0, -1.0,    0.0, 0.5, 1.0, 1.0,     0.0, 0.0,
    -1.0, -1.0,  1.0,    0.0, 0.5, 1.0, 1.0,     1.0, 0.0,
     1.0, -1.0,  1.0,    0.0, 0.5, 1.0, 1.0,     1.0, 1.0,
     1.0, -1.0, -1.0,    0.0, 0.5, 1.0, 1.0,     0.0, 1.0,

    -1.0,  1.0, -1.0,    1.0, 0.0, 0.5, 1.0,     0.0, 0.0,
    -1.0,  1.0,  1.0,    1.0, 0.0, 0.5, 1.0,     1.0, 0.0,
     1.0,  1.0,  1.0,    1.0, 0.0, 0.5, 1.0,     1.0, 1.0,
     1.0,  1.0, -1.0,    1.0, 0.0, 0.5, 1.0,     0.0, 1.0,
];

const COLORED_TABLE: [f32; 168] = [
    -1.0, -1.0, -1.0,    1.0, 0.5, 0.5, 1.0,
     1.0, -1.0, -1.0,    1.0, 0.5, 0.5, 1.0,
     1.0,  1.0, -1.0,    1.0, 0.5, 0.5, 1.0,
    -1.0,  1.0, -1.0,    1.0, 0.5, 0.5, 1.0,

    -1.0, -1.0,  1.0,    0.5, 1.0, 0.5, 0.5,
     1.0, -1.0,  1.0,    0.5, 1.0, 0.5, 0.0,
     1.0,  1.0,  1.0,    0.5, 1.0, 0.5, 0.0,
    -1.0,  1.0,  1.0,    0.5, 1.0, 0.5, 0.0,

    -1.0, -1.0, -1.0,    0.5, 0.5, 1.0, 1.0,
    -1.0,  1.0, -1.0,    0.5, 0.5, 1.0, 1.0,
    -1.0,  1.0,  1.0,    0.5, 0.5, 1.0, 1.0,
    -1.0, -1.0,  1.0,    0.5, 0.5, 1.0, 1.0,

     1.0, -1.0, -1.0,    1.0, 0.5, 0.0, 1.0,
     1.0,  1.0, -1.0,    1.0, 0.5, 0.0, 1.0,
     1.0,  1.0,  1.0,    1.0, 0.5, 0.0, 1.0,
     1.0, -1.0,  1.0,    1.0, 0.5, 0.0, 1.0,

    -1.0, -1.0, -1.0,    0.0, 0.5, 1.0, 1.0,
    -1.0, -1.0,  1.0,    0.0, 0.5, 1.0, 1.0,
     1.0, -1.0,  1.0,    0.0, 0.5, 1.0, 1.0,
     1.0, -1.0, -1.0,    0.0, 0.5, 1.0, 1.0,

    -1.0,  1.0, -1.0,    1.0, 0.0, 0.5, 1.0,
    -1.0,  1.0,  1.0,    1.0, 0.0, 0.5, 1.0,
     1.0,  1.0,  1.0,    1.0, 0.0, 0.5, 1.0,
     1.0,  1.0, -1.0,    1.0, 0.0, 0.5, 1.0,
];

const INDEX_TABLE: [u16; 36] = [
    0, 1, 2,  0, 2, 3,
    6, 5, 4,  7, 6, 4,
    8, 9, 10,  8, 10, 11,
    14, 13, 12,  15, 14, 12,
    16, 17, 18,  16, 18, 19,
    22, 21, 20,  23, 22, 20,
];

fn as_floats(halves: &[i16]) -> Vec<f32> {
    halves.iter().map(|h| *h as f32 / 2.0).collect()
}

fn position(v: &Vertex) -> [i32; 3] {
    [v.x as i32, v.y as i32, v.z as i32]
}

#[test]
fn index_buffer_matches_table() {
    assert_eq!(cube_indices(), INDEX_TABLE.to_vec());
}

#[test]
fn textured_stream_matches_table() {
    let setup = CubeSetup::new(CubeStyle::Textured);
    assert_eq!(setup.vertex_data.len(), 216);
    assert_eq!(as_floats(&setup.vertex_data), TEXTURED_TABLE.to_vec());
}

#[test]
fn colored_stream_matches_table() {
    let setup = CubeSetup::new(CubeStyle::Colored);
    assert_eq!(setup.vertex_data.len(), 168);
    assert_eq!(as_floats(&setup.vertex_data), COLORED_TABLE.to_vec());
}

#[test]
fn colored_front_face_fades() {
    let alphas: Vec<u8> = (4..8).map(|k| cube_vertex(CubeStyle::Colored, k).a).collect();
    assert_eq!(alphas, vec![1, 0, 0, 0]);
    let textured: Vec<u8> = (4..8).map(|k| cube_vertex(CubeStyle::Textured, k).a).collect();
    assert_eq!(textured, vec![2, 2, 2, 2]);
}

#[test]
fn twelve_triangles_cover_every_vertex() {
    let mesh = Mesh::cube(CubeStyle::Textured);
    assert_eq!(mesh.vertices.len(), 24);
    assert_eq!(mesh.triangle_count(), 12);
    let mut used = [false; 24];
    for t in 0..mesh.triangle_count() {
        let (a, b, c) = mesh.triangle(t);
        assert!(a != b && b != c && a != c);
        for i in [a, b, c] {
            assert!((i as usize) < 24);
            assert_eq!(i as usize / 4, t / 2);
            used[i as usize] = true;
        }
    }
    assert!(used.iter().all(|u| *u));
}

#[test]
fn every_triangle_faces_inward() {
    let mesh = Mesh::cube(CubeStyle::Colored);
    for t in 0..12 {
        let (a, b, c) = mesh.triangle(t);
        let p0 = position(&mesh.vertices[a as usize]);
        let p1 = position(&mesh.vertices[b as usize]);
        let p2 = position(&mesh.vertices[c as usize]);
        let e1 = [p1[0] - p0[0], p1[1] - p0[1], p1[2] - p0[2]];
        let e2 = [p2[0] - p0[0], p2[1] - p0[1], p2[2] - p0[2]];
        let n = [
            e1[1] * e2[2] - e1[2] * e2[1],
            e1[2] * e2[0] - e1[0] * e2[2],
            e1[0] * e2[1] - e1[1] * e2[0],
        ];
        // The centroid of the triangle lies on the cube's surface; the
        // normal points back toward the centre.
        let centre = [p0[0] + p1[0] + p2[0], p0[1] + p1[1] + p2[1], p0[2] + p1[2] + p2[2]];
        let dot = n[0] * centre[0] + n[1] * centre[1] + n[2] * centre[2];
        assert!(dot < 0, "triangle {t}");
        assert_eq!(n.iter().filter(|c| **c != 0).count(), 1);
        assert_eq!(n.iter().map(|c| c.abs()).sum::<i32>(), 16);
    }
}

#[test]
fn setup_is_deterministic() {
    for style in [CubeStyle::Textured, CubeStyle::Colored] {
        let a = CubeSetup::new(style);
        let b = CubeSetup::new(style);
        assert_eq!(a.mesh.vertices, b.mesh.vertices);
        assert_eq!(a.mesh.indices, b.mesh.indices);
        assert_eq!(a.vertex_data, b.vertex_data);
        assert_eq!(a.draw, b.draw);
    }
}

#[test]
fn draw_call_covers_all_indices() {
    let mesh = Mesh::cube(CubeStyle::Textured);
    assert_eq!(
        mesh.draw_call(),
        DrawCall { base_element: 0, num_elements: 36, num_instances: 1 }
    );
    let custom = Mesh { vertices: cube_vertices(CubeStyle::Textured), indices: vec![0, 1, 2] };
    assert_eq!(custom.draw_call().num_elements, 3);
    assert_eq!(custom.triangle_count(), 1);
}

#[test]
fn textured_pipeline_state() {
    let p = PipelineDesc::for_cube(CubeStyle::Textured);
    let names: Vec<&str> = p.attributes.iter().map(|a| a.name).collect();
    assert_eq!(names, vec!["pos", "color0", "uv0"]);
    let channels: Vec<Channel> = p.attributes.iter().map(|a| a.channel).collect();
    assert_eq!(channels, vec![Channel::Position, Channel::Color, Channel::TexCoord]);
    assert_eq!(p.cull_face, CullFace::Nothing);
    assert_eq!(p.depth_test, Comparison::Always);
    assert!(!p.depth_write);
    assert_eq!(
        p.color_blend,
        Some(BlendState { src: BlendFactor::SourceAlpha, dst: BlendFactor::OneMinusSourceAlpha })
    );
    assert_eq!(p.alpha_blend, Some(BlendState { src: BlendFactor::Zero, dst: BlendFactor::One }));
}

#[test]
fn colored_pipeline_state() {
    let p = PipelineDesc::for_cube(CubeStyle::Colored);
    let names: Vec<&str> = p.attributes.iter().map(|a| a.name).collect();
    assert_eq!(names, vec!["pos", "color0"]);
    assert_eq!(p.cull_face, CullFace::Nothing);
    assert_eq!(p.depth_test, Comparison::LessOrEqual);
    assert!(p.depth_write);
    assert_eq!(p.color_blend, None);
    assert_eq!(p.alpha_blend, None);
}

#[test]
fn channel_formats() {
    assert_eq!(Channel::Position.format(), VertexFormat::Float3);
    assert_eq!(Channel::Color.format(), VertexFormat::Float4);
    assert_eq!(Channel::TexCoord.format(), VertexFormat::Float2);
}

#[test]
fn pack_follows_layout_order() {
    let vertices = vec![cube_vertex(CubeStyle::Textured, 2), cube_vertex(CubeStyle::Textured, 20)];
    let layout = vec![
        Attribute { name: "uv", channel: Channel::TexCoord },
        Attribute { name: "p", channel: Channel::Position },
    ];
    assert_eq!(pack_vertices(&vertices, &layout), vec![2, 2, 2, 2, -2, 0, 0, -2, 2, -2]);
    assert_eq!(pack_vertices(&vertices, &vec![]), Vec::<i16>::new());
    assert_eq!(pack_vertices(&vec![], &layout), Vec::<i16>::new());
}

#[test]
fn shader_declarations() {
    let m = meta();
    assert_eq!(m.images, vec!["tex".to_string()]);
    assert_eq!(m.uniforms.len(), 1);
    assert_eq!(m.uniforms[0].name, "mvp");
    assert_eq!(m.uniforms[0].uniform_type, UniformType::Mat4);
}

#[test]
fn setup_picks_shaders_by_style() {
    let t = CubeSetup::new(CubeStyle::Textured);
    assert_eq!(t.vertex_source, TEXTURED_VERTEX);
    assert_eq!(t.fragment_source, TEXTURED_FRAGMENT);
    assert!(t.vertex_source.contains("uniform mat4 mvp;"));
    let c = CubeSetup::new(CubeStyle::Colored);
    assert_eq!(c.vertex_source, COLORED_VERTEX);
    assert_eq!(c.shader.images, vec!["tex".to_string()]);
}
