//! Everything the host uploads once, before the first frame, for one cube.
use crate::mesh::{CubeStyle, DrawCall, Mesh, VERTEX_COUNT};
use crate::pipeline::{
    cube_stride, lemma_packed_layout, layout_channels, pack_vertices, packed, PipelineDesc,
};
use crate::shader::{
    meta, ShaderMeta, COLORED_FRAGMENT, COLORED_VERTEX, TEXTURED_FRAGMENT, TEXTURED_VERTEX,
};
use vstd::prelude::*;

verus! {

/// Side, in pixels, of the square colour target that the coloured cube
/// binds as its image.
pub const COLOR_TARGET_SIZE: u32 = 256;

/// The buffers, pipeline, shaders and draw call of one cube.
pub struct CubeSetup {
    pub mesh: Mesh,
    /// The mesh's vertices packed for `pipeline`, in halves.
    pub vertex_data: Vec<i16>,
    pub pipeline: PipelineDesc,
    pub vertex_source: &'static str,
    pub fragment_source: &'static str,
    pub shader: ShaderMeta,
    pub draw: DrawCall,
}

impl CubeSetup {
    /// This is the setup of the cube of the given style.
    pub open spec fn is_setup_of(&self, style: CubeStyle) -> bool {
        &&& self.mesh.is_cube(style)
        &&& self.mesh.wf()
        &&& self.pipeline.is_cube_pipeline(style)
        &&& self.vertex_data@ == packed(self.mesh.vertices@, layout_channels(self.pipeline.attributes@))
        &&& self.shader.is_cube_meta()
        &&& self.vertex_source@ == match style {
            CubeStyle::Textured => TEXTURED_VERTEX@,
            CubeStyle::Colored => COLORED_VERTEX@,
        }
        &&& self.fragment_source@ == match style {
            CubeStyle::Textured => TEXTURED_FRAGMENT@,
            CubeStyle::Colored => COLORED_FRAGMENT@,
        }
        &&& self.draw == DrawCall { base_element: 0, num_elements: 36, num_instances: 1 }
    }

    /// Builds the setup of the cube of the given style.
    pub fn new(style: CubeStyle) -> (r: CubeSetup)
        ensures
            r.is_setup_of(style),
            r.vertex_data@.len() == VERTEX_COUNT * cube_stride(style),
    {
        let mesh = Mesh::cube(style);
        let pipeline = PipelineDesc::for_cube(style);
        let vertex_data = pack_vertices(&mesh.vertices, &pipeline.attributes);
        proof {
            lemma_packed_layout(mesh.vertices@, layout_channels(pipeline.attributes@));
        }
        let draw = mesh.draw_call();
        let (vertex_source, fragment_source) = match style {
            CubeStyle::Textured => (TEXTURED_VERTEX, TEXTURED_FRAGMENT),
            CubeStyle::Colored => (COLORED_VERTEX, COLORED_FRAGMENT),
        };
        CubeSetup {
            mesh,
            vertex_data,
            pipeline,
            vertex_source,
            fragment_source,
            shader: meta(),
            draw,
        }
    }
}

/// Running the setup twice for one style gives identical buffers and the
/// same draw call.
pub proof fn lemma_setup_deterministic(style: CubeStyle, a: CubeSetup, b: CubeSetup)
    requires
        a.is_setup_of(style),
        b.is_setup_of(style),
    ensures
        a.mesh.vertices@ == b.mesh.vertices@,
        a.mesh.indices@ == b.mesh.indices@,
        a.vertex_data@ == b.vertex_data@,
        a.draw == b.draw,
{
}

} // verus!
