//! Vertex layouts and fixed-function state of the render pipelines, and the
//! packing of cube vertices into the interleaved stream that a layout reads.
use crate::mesh::{CubeStyle, Vertex};
use vstd::prelude::*;

verus! {

/// The part of a vertex that an attribute reads.
#[derive(Clone, Copy, PartialEq, Eq, Structural, Debug)]
pub enum Channel {
    /// x, y, z.
    Position,
    /// r, g, b, a.
    Color,
    /// u, v.
    TexCoord,
}

/// The GPU vertex formats that the channels are uploaded as: so many
/// 32-bit floats.
#[derive(Clone, Copy, PartialEq, Eq, Structural, Debug)]
pub enum VertexFormat {
    Float2,
    Float3,
    Float4,
}

/// Number of values that a channel contributes to each vertex.
pub open spec fn channel_width(c: Channel) -> nat {
    match c {
        Channel::Position => 3,
        Channel::Color => 4,
        Channel::TexCoord => 2,
    }
}

/// The values of channel `c` of vertex `v`, in halves.
pub open spec fn channel_values(v: Vertex, c: Channel) -> Seq<i16> {
    match c {
        Channel::Position => seq![v.x as i16, v.y as i16, v.z as i16],
        Channel::Color => seq![v.r as i16, v.g as i16, v.b as i16, v.a as i16],
        Channel::TexCoord => seq![v.u as i16, v.v as i16],
    }
}

impl Channel {
    /// The vertex format that holds this channel.
    pub fn format(&self) -> (r: VertexFormat)
        ensures
            r == match *self {
                Channel::Position => VertexFormat::Float3,
                Channel::Color => VertexFormat::Float4,
                Channel::TexCoord => VertexFormat::Float2,
            },
    {
        match self {
            Channel::Position => VertexFormat::Float3,
            Channel::Color => VertexFormat::Float4,
            Channel::TexCoord => VertexFormat::Float2,
        }
    }
}

/// One named vertex attribute of a pipeline; the name is the shader's.
pub struct Attribute {
    pub name: &'static str,
    pub channel: Channel,
}

/// Depth comparison that a fragment must pass to be drawn.
#[derive(Clone, Copy, PartialEq, Eq, Structural, Debug)]
pub enum Comparison {
    LessOrEqual,
    Always,
}

/// Which faces the rasteriser drops.
#[derive(Clone, Copy, PartialEq, Eq, Structural, Debug)]
pub enum CullFace {
    Nothing,
    Front,
    Back,
}

/// Factor that a blend applies to a source or destination value.
#[derive(Clone, Copy, PartialEq, Eq, Structural, Debug)]
pub enum BlendFactor {
    Zero,
    One,
    SourceAlpha,
    OneMinusSourceAlpha,
}

/// Additive blend: `source * src + destination * dst`.
#[derive(Clone, Copy, PartialEq, Eq, Structural, Debug)]
pub struct BlendState {
    pub src: BlendFactor,
    pub dst: BlendFactor,
}

/// Everything a render pipeline fixes besides its shader: the vertex
/// layout (one interleaved buffer) and the fixed-function state. Primitives
/// are always triangle lists.
pub struct PipelineDesc {
    pub attributes: Vec<Attribute>,
    pub cull_face: CullFace,
    pub depth_test: Comparison,
    pub depth_write: bool,
    pub color_blend: Option<BlendState>,
    pub alpha_blend: Option<BlendState>,
}

/// The channels that the cube pipeline of the given style reads.
pub open spec fn cube_channels(style: CubeStyle) -> Seq<Channel> {
    match style {
        CubeStyle::Textured => seq![Channel::Position, Channel::Color, Channel::TexCoord],
        CubeStyle::Colored => seq![Channel::Position, Channel::Color],
    }
}

/// Values per vertex in the stream of the cube of the given style.
pub open spec fn cube_stride(style: CubeStyle) -> nat {
    match style {
        CubeStyle::Textured => 9,
        CubeStyle::Colored => 7,
    }
}

impl PipelineDesc {
    /// This is the pipeline of the cube of the given style.
    ///
    /// Both read `pos` and `color0`; the textured one also reads `uv0`,
    /// ignores depth and blends by source alpha, while the coloured one
    /// keeps the nearest fragment and writes depth. Neither culls.
    pub open spec fn is_cube_pipeline(&self, style: CubeStyle) -> bool {
        &&& layout_channels(self.attributes@) == cube_channels(style)
        &&& self.attributes@[0].name@ == "pos"@
        &&& self.attributes@[1].name@ == "color0"@
        &&& self.cull_face == CullFace::Nothing
        &&& style == CubeStyle::Textured ==> {
            &&& self.attributes@[2].name@ == "uv0"@
            &&& self.depth_test == Comparison::Always
            &&& !self.depth_write
            &&& self.color_blend == Some(
                BlendState { src: BlendFactor::SourceAlpha, dst: BlendFactor::OneMinusSourceAlpha },
            )
            &&& self.alpha_blend == Some(BlendState { src: BlendFactor::Zero, dst: BlendFactor::One })
        }
        &&& style == CubeStyle::Colored ==> {
            &&& self.depth_test == Comparison::LessOrEqual
            &&& self.depth_write
            &&& self.color_blend is None
            &&& self.alpha_blend is None
        }
    }

    /// The pipeline that draws the cube of the given style.
    pub fn for_cube(style: CubeStyle) -> (r: PipelineDesc)
        ensures
            r.is_cube_pipeline(style),
            stride(layout_channels(r.attributes@)) == cube_stride(style),
    {
        let mut attributes: Vec<Attribute> = Vec::new();
        attributes.push(Attribute { name: "pos", channel: Channel::Position });
        attributes.push(Attribute { name: "color0", channel: Channel::Color });
        match style {
            CubeStyle::Textured => {
                attributes.push(Attribute { name: "uv0", channel: Channel::TexCoord });
                let r = PipelineDesc {
                    attributes,
                    cull_face: CullFace::Nothing,
                    depth_test: Comparison::Always,
                    depth_write: false,
                    color_blend: Some(
                        BlendState {
                            src: BlendFactor::SourceAlpha,
                            dst: BlendFactor::OneMinusSourceAlpha,
                        },
                    ),
                    alpha_blend: Some(BlendState { src: BlendFactor::Zero, dst: BlendFactor::One }),
                };
                proof {
                    let cs = layout_channels(r.attributes@);
                    assert(cs[0] == Channel::Position && cs[1] == Channel::Color);
                    assert(cs[2] == Channel::TexCoord);
                    assert(stride(cs.drop_last().drop_last().drop_last()) == 0);
                    assert(cs.drop_last().drop_last().last() == cs[0]);
                    assert(stride(cs.drop_last().drop_last()) == 3);
                    assert(stride(cs.drop_last()) == 7);
                    assert(cs =~= cube_channels(style));
                }
                r
            },
            CubeStyle::Colored => {
                let r = PipelineDesc {
                    attributes,
                    cull_face: CullFace::Nothing,
                    depth_test: Comparison::LessOrEqual,
                    depth_write: true,
                    color_blend: None,
                    alpha_blend: None,
                };
                proof {
                    let cs = layout_channels(r.attributes@);
                    assert(cs[0] == Channel::Position && cs[1] == Channel::Color);
                    assert(stride(cs.drop_last().drop_last()) == 0);
                    assert(cs.drop_last().last() == cs[0]);
                    assert(stride(cs.drop_last()) == 3);
                    assert(cs =~= cube_channels(style));
                }
                r
            },
        }
    }
}

/// The channels that a list of attributes reads, in order.
pub open spec fn layout_channels(attrs: Seq<Attribute>) -> Seq<Channel> {
    attrs.map_values(|a: Attribute| a.channel)
}

/// Number of values per vertex in a stream laid out as `cs`.
pub open spec fn stride(cs: Seq<Channel>) -> nat
    decreases cs.len(),
{
    if cs.len() == 0 {
        0
    } else {
        stride(cs.drop_last()) + channel_width(cs.last())
    }
}

/// The values of vertex `v` laid out as `cs`: each channel in turn.
pub open spec fn vertex_stream(v: Vertex, cs: Seq<Channel>) -> Seq<i16>
    decreases cs.len(),
{
    if cs.len() == 0 {
        seq![]
    } else {
        vertex_stream(v, cs.drop_last()) + channel_values(v, cs.last())
    }
}

/// The interleaved stream of the vertices `vs` laid out as `cs`: each
/// vertex in turn.
pub open spec fn packed(vs: Seq<Vertex>, cs: Seq<Channel>) -> Seq<i16>
    decreases vs.len(),
{
    if vs.len() == 0 {
        seq![]
    } else {
        packed(vs.drop_last(), cs) + vertex_stream(vs.last(), cs)
    }
}

/// Packs `vertices` into one interleaved stream that the attributes
/// `layout` read: for each vertex, the values of each attribute's channel in
/// the layout's order. Values are in halves, as in the vertices.
pub fn pack_vertices(vertices: &Vec<Vertex>, layout: &Vec<Attribute>) -> (r: Vec<i16>)
    ensures
        r@ == packed(vertices@, layout_channels(layout@)),
{
    let ghost cs = layout_channels(layout@);
    let mut out: Vec<i16> = Vec::new();
    for i in 0..vertices.len()
        invariant
            cs == layout_channels(layout@),
            out@ == packed(vertices@.take(i as int), cs),
    {
        let v = vertices[i];
        let ghost before = out@;
        for j in 0..layout.len()
            invariant
                cs == layout_channels(layout@),
                v == vertices@[i as int],
                out@ == before + vertex_stream(v, cs.take(j as int)),
        {
            let ghost mid = out@;
            match layout[j].channel {
                Channel::Position => {
                    out.push(v.x as i16);
                    out.push(v.y as i16);
                    out.push(v.z as i16);
                },
                Channel::Color => {
                    out.push(v.r as i16);
                    out.push(v.g as i16);
                    out.push(v.b as i16);
                    out.push(v.a as i16);
                },
                Channel::TexCoord => {
                    out.push(v.u as i16);
                    out.push(v.v as i16);
                },
            }
            proof {
                assert(cs.take(j + 1).drop_last() =~= cs.take(j as int));
                assert(out@ =~= mid + channel_values(v, cs[j as int]));
            }
        }
        proof {
            assert(cs.take(layout@.len() as int) =~= cs);
            assert(vertices@.take(i + 1).drop_last() =~= vertices@.take(i as int));
        }
    }
    proof {
        assert(vertices@.take(vertices@.len() as int) =~= vertices@);
    }
    out
}

/// Each vertex contributes exactly `stride(cs)` values.
pub proof fn lemma_vertex_stream_len(v: Vertex, cs: Seq<Channel>)
    ensures
        vertex_stream(v, cs).len() == stride(cs),
    decreases cs.len(),
{
    if cs.len() > 0 {
        lemma_vertex_stream_len(v, cs.drop_last());
    }
}

/// The packed stream holds `stride(cs)` values for every vertex, and the
/// values of vertex `k` are those at `k * stride(cs)` up to
/// `(k + 1) * stride(cs)`: a pipeline that steps through the stream by its
/// stride reads each vertex whole and in order.
pub proof fn lemma_packed_layout(vs: Seq<Vertex>, cs: Seq<Channel>)
    ensures
        packed(vs, cs).len() == vs.len() * stride(cs),
        forall|k: int|
            0 <= k < vs.len() ==> #[trigger] packed(vs, cs).subrange(
                k * stride(cs),
                (k + 1) * stride(cs),
            ) == vertex_stream(vs[k], cs),
    decreases vs.len(),
{
    let s = stride(cs) as int;
    if vs.len() > 0 {
        let front = vs.drop_last();
        lemma_packed_layout(front, cs);
        lemma_vertex_stream_len(vs.last(), cs);
        let n = vs.len() as int;
        assert(packed(front, cs).len() == (n - 1) * s);
        assert((n - 1) * s + s == n * s) by (nonlinear_arith);
        assert forall|k: int| 0 <= k < vs.len() implies #[trigger] packed(vs, cs).subrange(
            k * s,
            (k + 1) * s,
        ) == vertex_stream(vs[k], cs) by {
            assert((k + 1) * s == k * s + s) by (nonlinear_arith);
            if k < n - 1 {
                assert(k * s + s <= (n - 1) * s) by (nonlinear_arith)
                    requires
                        k < n - 1,
                        s >= 0,
                ;
                assert(0 <= k * s) by (nonlinear_arith)
                    requires
                        k >= 0,
                        s >= 0,
                ;
                assert(packed(vs, cs).subrange(k * s, (k + 1) * s) =~= packed(front, cs).subrange(
                    k * s,
                    (k + 1) * s,
                ));
                assert(front[k] == vs[k]);
            } else {
                assert(packed(vs, cs).subrange(k * s, (k + 1) * s) =~= vertex_stream(
                    vs.last(),
                    cs,
                ));
            }
        }
    }
}

} // verus!
