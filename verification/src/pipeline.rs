//! The fixed pipeline configuration and the vertex buffer layouts.
//!
//! The layouts are the binary agreement with the shader program: which
//! attribute sits at which byte offset of a vertex or instance record, and
//! under which shader location the vertex stage finds it.

use vstd::prelude::*;
use crate::depth::DepthFormat;

verus! {

/// Slot to which the quad's vertex buffer is bound.
pub const QUAD_VERTEX_SLOT: u32 = 0;

/// Slot to which the instance buffer is bound.
pub const INSTANCE_SLOT: u32 = 1;

/// Index of the bind group that holds the atlas texture and its sampler.
pub const ATLAS_BIND_GROUP: u32 = 0;

/// Bit pattern of the depth to which the depth target is cleared: 1.0, the
/// far plane.
pub const CLEAR_DEPTH: u32 = 0x3f80_0000;

/// Bit pattern of the grey level to which the colour target is cleared:
/// 0.01 in each channel.
pub const CLEAR_GRAY: u32 = 0x3c23_d70a;

/// Format of one vertex attribute: one, two or three 32-bit floating-point
/// numbers.
#[derive(Clone, Copy, Debug, PartialEq, Eq, Structural)]
pub enum VertexFormat {
    Float32,
    Float32x2,
    Float32x3,
}

impl VertexFormat {
    /// Size of an attribute of this format in bytes.
    pub open spec fn size_of(self) -> nat {
        match self {
            VertexFormat::Float32 => 4,
            VertexFormat::Float32x2 => 8,
            VertexFormat::Float32x3 => 12,
        }
    }

    /// Size of an attribute of this format in bytes.
    pub fn size(&self) -> (n: u64)
        ensures
            n == self.size_of(),
    {
        match self {
            VertexFormat::Float32 => 4,
            VertexFormat::Float32x2 => 8,
            VertexFormat::Float32x3 => 12,
        }
    }
}

/// Whether a buffer advances once per vertex or once per instance.
#[derive(Clone, Copy, Debug, PartialEq, Eq, Structural)]
pub enum StepMode {
    Vertex,
    Instance,
}

/// One attribute of a vertex buffer.
#[derive(Clone, Copy, Debug, PartialEq, Eq, Structural)]
pub struct VertexAttribute {
    pub format: VertexFormat,
    pub offset: u64,
    pub shader_location: u32,
}

/// The layout of one vertex buffer.
#[derive(Clone, Debug, PartialEq, Eq)]
pub struct VertexBufferLayout {
    pub array_stride: u64,
    pub step_mode: StepMode,
    pub attributes: Vec<VertexAttribute>,
}

/// Offset of attribute `i` when attributes of the given formats are laid
/// out one after the other without gaps: the sizes of the first `i` of them
/// added up.
pub open spec fn packed_offset(formats: Seq<VertexFormat>, i: int) -> nat
    decreases i,
{
    if i <= 0 {
        0
    } else {
        packed_offset(formats, i - 1) + formats[i - 1].size_of()
    }
}

/// Attribute `i` of the packed layout of `formats`, with shader locations
/// counted up from `first_location`.
pub open spec fn packed_attribute(
    formats: Seq<VertexFormat>,
    first_location: u32,
    i: int,
) -> VertexAttribute {
    VertexAttribute {
        format: formats[i],
        offset: packed_offset(formats, i) as u64,
        shader_location: (first_location + i) as u32,
    }
}

/// No attribute is larger than twelve bytes, so `i` packed attributes end
/// within `12 * i` bytes.
pub proof fn lemma_packed_offset_bound(formats: Seq<VertexFormat>, i: int)
    requires
        0 <= i <= formats.len(),
    ensures
        packed_offset(formats, i) <= 12 * i,
    decreases i,
{
    if i > 0 {
        lemma_packed_offset_bound(formats, i - 1);
    }
}

/// Lays attributes of the given formats out one after the other without
/// gaps. Attribute `i` gets the shader location `first_location + i`; the
/// stride is the size of all attributes together.
pub fn packed_layout(formats: &[VertexFormat], first_location: u32, step_mode: StepMode) -> (l:
    VertexBufferLayout)
    requires
        first_location + formats@.len() <= u32::MAX,
    ensures
        l.step_mode == step_mode,
        l.array_stride == packed_offset(formats@, formats@.len() as int),
        l.attributes@.len() == formats@.len(),
        forall|i: int|
            0 <= i < formats@.len() ==> l.attributes@[i] == packed_attribute(
                formats@,
                first_location,
                i,
            ),
{
    let mut attributes: Vec<VertexAttribute> = Vec::new();
    let mut offset: u64 = 0;
    let mut i: usize = 0;
    while i < formats.len()
        invariant
            i <= formats@.len(),
            first_location + formats@.len() <= u32::MAX,
            offset == packed_offset(formats@, i as int),
            attributes@.len() == i,
            forall|j: int|
                0 <= j < i ==> attributes@[j] == packed_attribute(formats@, first_location, j),
        decreases formats@.len() - i,
    {
        proof {
            lemma_packed_offset_bound(formats@, i as int);
        }
        let format = formats[i];
        attributes.push(
            VertexAttribute { format, offset, shader_location: first_location + (i as u32) },
        );
        offset = offset + format.size();
        i += 1;
    }
    VertexBufferLayout { array_stride: offset, step_mode, attributes }
}

/// In a packed layout every attribute starts where the one before it ends,
/// the first starts at offset zero, and the last ends at the stride: the
/// attributes cover the record exactly, without gap or overlap.
pub proof fn lemma_packed_is_contiguous(formats: Seq<VertexFormat>, i: int)
    requires
        0 <= i < formats.len(),
    ensures
        packed_offset(formats, 0) == 0,
        packed_offset(formats, i + 1) == packed_offset(formats, i) + formats[i].size_of(),
        packed_offset(formats, i) + formats[i].size_of() <= packed_offset(
            formats,
            formats.len() as int,
        ),
    decreases formats.len() - i,
{
    if i + 1 < formats.len() {
        lemma_packed_is_contiguous(formats, i + 1);
    }
}

/// The formats of the quad's vertex attributes: position, then texture
/// coordinates.
pub open spec fn quad_vertex_formats() -> Seq<VertexFormat> {
    seq![VertexFormat::Float32x2, VertexFormat::Float32x2]
}

/// The formats of the per-instance attributes: the three rows of the
/// transform, the texture origin, the texture extent, the tint, the depth.
pub open spec fn sprite_instance_formats() -> Seq<VertexFormat> {
    seq![
        VertexFormat::Float32x3,
        VertexFormat::Float32x3,
        VertexFormat::Float32x3,
        VertexFormat::Float32x2,
        VertexFormat::Float32x2,
        VertexFormat::Float32x3,
        VertexFormat::Float32,
    ]
}

/// The layout of the quad's vertex buffer: 16 bytes per vertex, position at
/// shader location 0 and texture coordinates at shader location 1.
pub fn quad_vertex_layout() -> (l: VertexBufferLayout)
    ensures
        l.step_mode == StepMode::Vertex,
        l.array_stride == 16,
        l.attributes@ == seq![
            VertexAttribute { format: VertexFormat::Float32x2, offset: 0, shader_location: 0 },
            VertexAttribute { format: VertexFormat::Float32x2, offset: 8, shader_location: 1 },
        ],
{
    let formats: [VertexFormat; 2] = [VertexFormat::Float32x2, VertexFormat::Float32x2];
    assert(formats@ =~= quad_vertex_formats());
    let l = packed_layout(formats.as_slice(), 0, StepMode::Vertex);
    proof {
        reveal_with_fuel(packed_offset, 4);
        assert(l.attributes@[0] == packed_attribute(formats@, 0, 0));
        assert(l.attributes@[1] == packed_attribute(formats@, 0, 1));
        assert(l.attributes@ =~= seq![
            VertexAttribute { format: VertexFormat::Float32x2, offset: 0, shader_location: 0 },
            VertexAttribute { format: VertexFormat::Float32x2, offset: 8, shader_location: 1 },
        ]);
    }
    l
}

/// The layout of the instance buffer: one 68-byte record per instance, its
/// seven attributes packed in field order at shader locations 2 to 8.
pub fn sprite_instance_layout() -> (l: VertexBufferLayout)
    ensures
        l.step_mode == StepMode::Instance,
        l.array_stride == 68,
        l.attributes@ == seq![
            VertexAttribute { format: VertexFormat::Float32x3, offset: 0, shader_location: 2 },
            VertexAttribute { format: VertexFormat::Float32x3, offset: 12, shader_location: 3 },
            VertexAttribute { format: VertexFormat::Float32x3, offset: 24, shader_location: 4 },
            VertexAttribute { format: VertexFormat::Float32x2, offset: 36, shader_location: 5 },
            VertexAttribute { format: VertexFormat::Float32x2, offset: 44, shader_location: 6 },
            VertexAttribute { format: VertexFormat::Float32x3, offset: 52, shader_location: 7 },
            VertexAttribute { format: VertexFormat::Float32, offset: 64, shader_location: 8 },
        ],
{
    let formats: [VertexFormat; 7] = [
        VertexFormat::Float32x3,
        VertexFormat::Float32x3,
        VertexFormat::Float32x3,
        VertexFormat::Float32x2,
        VertexFormat::Float32x2,
        VertexFormat::Float32x3,
        VertexFormat::Float32,
    ];
    assert(formats@ =~= sprite_instance_formats());
    let l = packed_layout(formats.as_slice(), 2, StepMode::Instance);
    proof {
        reveal_with_fuel(packed_offset, 9);
        assert(l.attributes@[0] == packed_attribute(formats@, 2, 0));
        assert(l.attributes@[1] == packed_attribute(formats@, 2, 1));
        assert(l.attributes@[2] == packed_attribute(formats@, 2, 2));
        assert(l.attributes@[3] == packed_attribute(formats@, 2, 3));
        assert(l.attributes@[4] == packed_attribute(formats@, 2, 4));
        assert(l.attributes@[5] == packed_attribute(formats@, 2, 5));
        assert(l.attributes@[6] == packed_attribute(formats@, 2, 6));
        assert(l.attributes@ =~= seq![
            VertexAttribute { format: VertexFormat::Float32x3, offset: 0, shader_location: 2 },
            VertexAttribute { format: VertexFormat::Float32x3, offset: 12, shader_location: 3 },
            VertexAttribute { format: VertexFormat::Float32x3, offset: 24, shader_location: 4 },
            VertexAttribute { format: VertexFormat::Float32x2, offset: 36, shader_location: 5 },
            VertexAttribute { format: VertexFormat::Float32x2, offset: 44, shader_location: 6 },
            VertexAttribute { format: VertexFormat::Float32x3, offset: 52, shader_location: 7 },
            VertexAttribute { format: VertexFormat::Float32, offset: 64, shader_location: 8 },
        ]);
    }
    l
}

/// The shader stage that sees a binding.
#[derive(Clone, Copy, Debug, PartialEq, Eq, Structural)]
pub enum ShaderStage {
    Vertex,
    Fragment,
}

/// What is bound at an entry of a bind group.
#[derive(Clone, Copy, Debug, PartialEq, Eq, Structural)]
pub enum BindingKind {
    /// A single-sampled two-dimensional texture of filterable
    /// floating-point texels.
    FilterableTexture2d,
    /// A sampler that does not filter.
    NonFilteringSampler,
}

/// One entry of a bind group layout.
#[derive(Clone, Copy, Debug, PartialEq, Eq, Structural)]
pub struct BindGroupEntry {
    pub binding: u32,
    pub visibility: ShaderStage,
    pub kind: BindingKind,
}

/// The layout of the atlas bind group: the atlas texture at binding 0 and
/// its sampler at binding 1, both for the fragment stage only.
pub open spec fn atlas_bind_group_layout_of() -> Seq<BindGroupEntry> {
    seq![
        BindGroupEntry {
            binding: 0,
            visibility: ShaderStage::Fragment,
            kind: BindingKind::FilterableTexture2d,
        },
        BindGroupEntry {
            binding: 1,
            visibility: ShaderStage::Fragment,
            kind: BindingKind::NonFilteringSampler,
        },
    ]
}

/// The layout with which the atlas bind group is created.
pub fn atlas_bind_group_layout() -> (l: Vec<BindGroupEntry>)
    ensures
        l@ == atlas_bind_group_layout_of(),
{
    let l = vec![
        BindGroupEntry {
            binding: 0,
            visibility: ShaderStage::Fragment,
            kind: BindingKind::FilterableTexture2d,
        },
        BindGroupEntry {
            binding: 1,
            visibility: ShaderStage::Fragment,
            kind: BindingKind::NonFilteringSampler,
        },
    ];
    assert(l@ =~= atlas_bind_group_layout_of());
    l
}

/// How primitives are assembled from vertices.
#[derive(Clone, Copy, Debug, PartialEq, Eq, Structural)]
pub enum Topology {
    TriangleList,
    TriangleStrip,
}

/// Which winding marks a triangle's front.
#[derive(Clone, Copy, Debug, PartialEq, Eq, Structural)]
pub enum FrontFace {
    Ccw,
    Cw,
}

/// Which side of a triangle is discarded.
#[derive(Clone, Copy, Debug, PartialEq, Eq, Structural)]
pub enum CullMode {
    Off,
    Front,
    Back,
}

/// How a fragment is combined with what the colour target holds.
#[derive(Clone, Copy, Debug, PartialEq, Eq, Structural)]
pub enum BlendMode {
    Replace,
    AlphaBlending,
}

/// The depth test.
#[derive(Clone, Copy, Debug, PartialEq, Eq, Structural)]
pub enum DepthCompare {
    Less,
    LessEqual,
    Always,
}

/// The fixed state of the sprite pipeline.
#[derive(Clone, Copy, Debug, PartialEq, Eq, Structural)]
pub struct PipelineState {
    pub topology: Topology,
    pub front_face: FrontFace,
    pub cull_mode: CullMode,
    pub blend: BlendMode,
    pub depth_format: DepthFormat,
    pub depth_write_enabled: bool,
    pub depth_compare: DepthCompare,
    pub sample_count: u32,
    pub color_target_count: u32,
}

/// The state of the sprite pipeline: a list of triangles with clockwise
/// front faces, back faces culled; straight-alpha blending on the single
/// colour target; depth test "less" with depth writes on a 32-bit float
/// depth target; one sample per pixel.
pub open spec fn sprite_pipeline_state_of() -> PipelineState {
    PipelineState {
        topology: Topology::TriangleList,
        front_face: FrontFace::Cw,
        cull_mode: CullMode::Back,
        blend: BlendMode::AlphaBlending,
        depth_format: DepthFormat::Depth32Float,
        depth_write_enabled: true,
        depth_compare: DepthCompare::Less,
        sample_count: 1,
        color_target_count: 1,
    }
}

/// The fixed state with which the sprite pipeline is created.
pub fn sprite_pipeline_state() -> (s: PipelineState)
    ensures
        s == sprite_pipeline_state_of(),
{
    PipelineState {
        topology: Topology::TriangleList,
        front_face: FrontFace::Cw,
        cull_mode: CullMode::Back,
        blend: BlendMode::AlphaBlending,
        depth_format: DepthFormat::Depth32Float,
        depth_write_enabled: true,
        depth_compare: DepthCompare::Less,
        sample_count: 1,
        color_target_count: 1,
    }
}

} // verus!
