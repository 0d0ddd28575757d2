//! The fixed state of the rendering pipeline: how a vertex lies in memory and
//! how primitives are assembled, rasterised and written to the colour target.
//!
//! Everything here is configuration that is chosen once, before the first
//! frame, and shared read-only by all frames.

use vstd::prelude::*;

verus! {

/// Format of one vertex attribute: a vector of 32-bit floats.
#[derive(Clone, Copy, Debug, PartialEq, Eq, Structural)]
pub enum VertexFormat {
    /// One component.
    Float32,
    /// Two components.
    Float32x2,
    /// Three components.
    Float32x3,
    /// Four components.
    Float32x4,
}

impl VertexFormat {
    /// Number of components of the vector.
    pub open spec fn components(self) -> nat {
        match self {
            VertexFormat::Float32 => 1,
            VertexFormat::Float32x2 => 2,
            VertexFormat::Float32x3 => 3,
            VertexFormat::Float32x4 => 4,
        }
    }

    /// Bytes that an attribute of this format takes: four for each component.
    pub open spec fn byte_size(self) -> nat {
        4 * self.components()
    }

    /// Bytes that an attribute of this format takes.
    pub fn size(self) -> (bytes: u64)
        ensures
            bytes == self.byte_size(),
    {
        match self {
            VertexFormat::Float32 => 4,
            VertexFormat::Float32x2 => 8,
            VertexFormat::Float32x3 => 12,
            VertexFormat::Float32x4 => 16,
        }
    }
}

/// One attribute of a vertex, as the vertex shader reads it.
#[derive(Clone, Copy, Debug, PartialEq, Eq, Structural)]
pub struct VertexAttribute {
    /// Format of the attribute.
    pub format: VertexFormat,
    /// Byte offset of the attribute from the start of the vertex.
    pub offset: u64,
    /// Location at which the shader receives the attribute.
    pub shader_location: u32,
}

/// How the vertices of the geometry buffer lie in memory: a position followed
/// by a colour, advanced once per vertex.
#[derive(Clone, Copy, Debug, PartialEq, Eq, Structural)]
pub struct VertexLayout {
    /// Bytes from one vertex to the next.
    pub array_stride: u64,
    /// The position of the vertex.
    pub position: VertexAttribute,
    /// The colour of the vertex.
    pub color: VertexAttribute,
}

impl VertexLayout {
    /// Whether the two attributes lie back to back from the start of the
    /// vertex and fill it, each at a shader location of its own.
    pub open spec fn packed(self) -> bool {
        &&& self.position.offset == 0
        &&& self.color.offset == self.position.offset + self.position.format.byte_size()
        &&& self.array_stride == self.color.offset + self.color.format.byte_size()
        &&& self.position.shader_location != self.color.shader_location
    }

    /// The layout of a vertex: three floats of position at location 0, then
    /// three floats of colour at location 1.
    pub fn desc() -> (layout: VertexLayout)
        ensures
            layout.packed(),
            layout.position.format == VertexFormat::Float32x3,
            layout.position.offset == 0,
            layout.position.shader_location == 0,
            layout.color.format == VertexFormat::Float32x3,
            layout.color.offset == 12,
            layout.color.shader_location == 1,
            layout.array_stride == 24,
    {
        let position = VertexFormat::Float32x3;
        let color = VertexFormat::Float32x3;
        VertexLayout {
            array_stride: position.size() + color.size(),
            position: VertexAttribute { format: position, offset: 0, shader_location: 0 },
            color: VertexAttribute { format: color, offset: position.size(), shader_location: 1 },
        }
    }
}

/// Format of a colour target: 8-bit RGBA, stored linearly or gamma-encoded.
#[derive(Clone, Copy, Debug, PartialEq, Eq, Structural)]
pub enum TextureFormat {
    /// 8-bit RGBA, linear.
    Rgba8Unorm,
    /// 8-bit RGBA, gamma-encoded.
    Rgba8UnormSrgb,
}

/// How vertices are assembled into primitives.
#[derive(Clone, Copy, Debug, PartialEq, Eq, Structural)]
pub enum PrimitiveTopology {
    /// Each vertex is a point.
    PointList,
    /// Each pair of vertices is a line.
    LineList,
    /// Each triple of vertices is a triangle.
    TriangleList,
}

/// Winding order of a triangle that faces the viewer.
#[derive(Clone, Copy, Debug, PartialEq, Eq, Structural)]
pub enum FrontFace {
    /// Counter-clockwise.
    Ccw,
    /// Clockwise.
    Cw,
}

/// A side of a triangle.
#[derive(Clone, Copy, Debug, PartialEq, Eq, Structural)]
pub enum Face {
    /// The side that faces the viewer.
    Front,
    /// The side that faces away.
    Back,
}

/// How a triangle is rasterised.
#[derive(Clone, Copy, Debug, PartialEq, Eq, Structural)]
pub enum PolygonMode {
    /// Filled.
    Fill,
    /// Edges only.
    Line,
}

/// How a fragment is combined with what the target holds.
#[derive(Clone, Copy, Debug, PartialEq, Eq, Structural)]
pub enum Blend {
    /// The fragment replaces what the target holds.
    Replace,
    /// The fragment is laid over what the target holds, by its alpha.
    AlphaBlending,
}

/// The fixed state of the rendering pipeline.
#[derive(Clone, Copy, Debug, PartialEq, Eq, Structural)]
pub struct PipelineConfig {
    /// Layout of the single vertex stream.
    pub vertex: VertexLayout,
    /// Number of bind group layouts.
    pub bind_group_layouts: u32,
    /// Format of the colour target.
    pub target_format: TextureFormat,
    /// Blending into the colour target.
    pub blend: Blend,
    /// Assembly of primitives.
    pub topology: PrimitiveTopology,
    /// Winding order of front faces.
    pub front_face: FrontFace,
    /// The side of a triangle that is culled, if any.
    pub cull_mode: Option<Face>,
    /// Rasterisation of triangles.
    pub polygon_mode: PolygonMode,
    /// Whether the pipeline tests depth or stencil.
    pub depth_stencil: bool,
    /// Samples per pixel.
    pub sample_count: u32,
}

/// Format of the render target, which the pipeline must write in.
pub const RENDER_TARGET_FORMAT: TextureFormat = TextureFormat::Rgba8UnormSrgb;

/// Samples per pixel of the render target.
pub const RENDER_TARGET_SAMPLES: u32 = 1;

impl PipelineConfig {
    /// Whether a pipeline of this state can draw into the render target:
    /// its colour format and sample count are those of the target.
    pub open spec fn matches_render_target(self) -> bool {
        self.target_format == RENDER_TARGET_FORMAT && self.sample_count == RENDER_TARGET_SAMPLES
    }

    /// The state of the pipeline: a list of filled triangles, back faces
    /// culled, no depth or stencil test, one sample per pixel, no bind
    /// groups, fragments replacing the content of a gamma-encoded target.
    pub fn build() -> (config: PipelineConfig)
        ensures
            config.matches_render_target(),
            config.vertex.packed(),
            config.vertex.array_stride == 24,
            config.vertex.position == (VertexAttribute {
                format: VertexFormat::Float32x3,
                offset: 0,
                shader_location: 0,
            }),
            config.vertex.color == (VertexAttribute {
                format: VertexFormat::Float32x3,
                offset: 12,
                shader_location: 1,
            }),
            config.bind_group_layouts == 0,
            config.target_format == TextureFormat::Rgba8UnormSrgb,
            config.blend == Blend::Replace,
            config.topology == PrimitiveTopology::TriangleList,
            config.front_face == FrontFace::Ccw,
            config.cull_mode == Some(Face::Back),
            config.polygon_mode == PolygonMode::Fill,
            !config.depth_stencil,
            config.sample_count == 1,
    {
        PipelineConfig {
            vertex: VertexLayout::desc(),
            bind_group_layouts: 0,
            target_format: RENDER_TARGET_FORMAT,
            blend: Blend::Replace,
            topology: PrimitiveTopology::TriangleList,
            front_face: FrontFace::Ccw,
            cull_mode: Some(Face::Back),
            polygon_mode: PolygonMode::Fill,
            depth_stencil: false,
            sample_count: RENDER_TARGET_SAMPLES,
        }
    }
}

} // verus!
