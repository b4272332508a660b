//! The shaders of the cube pipelines: their sources, and the images and
//! uniforms that they declare.
use vstd::prelude::*;

verus! {

/// Vertex shader of the textured cube.
pub const TEXTURED_VERTEX: &'static str = r#"#version 100
    attribute vec4 pos;
    attribute vec4 color0;
    attribute vec2 uv0;
    varying lowp vec4 color;
    varying lowp vec2 uv;
    uniform mat4 mvp;
    void main() {
        gl_Position = mvp * pos;
        color = color0;
        uv = uv0;
    }"#;

/// Fragment shader of the textured cube: vertex colour times the texture.
pub const TEXTURED_FRAGMENT: &'static str = r#"#version 100
    varying lowp vec4 color;
    varying lowp vec2 uv;
    uniform sampler2D tex;
    void main() {
        gl_FragColor = color * texture2D(tex, uv);
    }"#;

/// Vertex shader of the coloured cube.
pub const COLORED_VERTEX: &'static str = r#"#version 400
    attribute vec4 pos;
    attribute vec4 color0;
    attribute vec2 uv0;
    varying lowp vec4 color;
    uniform mat4 mvp;
    void main() {
        gl_Position = mvp * pos;
        color = color0;
    }
    "#;

/// Fragment shader of the coloured cube: the vertex colour alone.
pub const COLORED_FRAGMENT: &'static str = r#"#version 400
    varying lowp vec4 color;
    void main() {
        gl_FragColor = color;
    }
    "#;

/// Type of a shader uniform.
#[derive(Clone, Copy, PartialEq, Eq, Structural, Debug)]
pub enum UniformType {
    Float1,
    Float2,
    Float3,
    Float4,
    /// A 4x4 matrix of 32-bit floats.
    Mat4,
}

/// One uniform that a shader declares.
pub struct UniformDesc {
    pub name: String,
    pub uniform_type: UniformType,
}

/// The images and uniforms that a shader declares, in binding order.
pub struct ShaderMeta {
    pub images: Vec<String>,
    pub uniforms: Vec<UniformDesc>,
}

impl ShaderMeta {
    /// What both cube shaders declare: one image, `tex`, and one uniform,
    /// the model-view-projection matrix `mvp`.
    pub open spec fn is_cube_meta(&self) -> bool {
        &&& self.images@.len() == 1
        &&& self.images@[0]@ == "tex"@
        &&& self.uniforms@.len() == 1
        &&& self.uniforms@[0].name@ == "mvp"@
        &&& self.uniforms@[0].uniform_type == UniformType::Mat4
    }
}

/// The declarations of the cube shaders.
pub fn meta() -> (r: ShaderMeta)
    ensures
        r.is_cube_meta(),
{
    let mut images: Vec<String> = Vec::new();
    images.push("tex".to_owned());
    let mut uniforms: Vec<UniformDesc> = Vec::new();
    uniforms.push(UniformDesc { name: "mvp".to_owned(), uniform_type: UniformType::Mat4 });
    ShaderMeta { images, uniforms }
}

} // verus!
