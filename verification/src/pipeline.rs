//! The one pipeline the mesh is drawn with, as plain values.

use vstd::prelude::*;
use crate::surface::PixelFormat;

verus! {

/// How the vertices of a draw are put together.
#[derive(Clone, Copy, Debug, PartialEq, Eq, Structural)]
pub enum PrimitiveTopology {
    PointList,
    LineList,
    LineStrip,
    TriangleList,
    TriangleStrip,
}

/// The winding of a triangle that is seen from its front.
#[derive(Clone, Copy, Debug, PartialEq, Eq, Structural)]
pub enum FrontFace {
    /// Counter-clockwise.
    Ccw,
    /// Clockwise.
    Cw,
}

/// A side of a triangle.
#[derive(Clone, Copy, Debug, PartialEq, Eq, Structural)]
pub enum Face {
    Front,
    Back,
}

/// The width of one index.
#[derive(Clone, Copy, Debug, PartialEq, Eq, Structural)]
pub enum IndexFormat {
    Uint16,
    Uint32,
}

/// The format of a depth buffer.
#[derive(Clone, Copy, Debug, PartialEq, Eq, Structural)]
pub enum DepthFormat {
    Depth24Plus,
    Depth32Float,
}

/// How a fragment is combined with what the target holds.
#[derive(Clone, Copy, Debug, PartialEq, Eq, Structural)]
pub enum Blend {
    /// The fragment replaces it.
    Replace,
    /// The fragment is laid over it by its alpha.
    AlphaBlending,
}

/// The number of bytes from one vertex to the next: three coordinates of
/// four bytes.
pub const VERTEX_STRIDE: u64 = 12;

/// The number of bytes of one index.
pub const INDEX_BYTES: u64 = 4;

/// The number of bytes of the camera's matrix: four rows of four numbers of
/// four bytes.
pub const CAMERA_BYTES: u64 = 64;

/// What the pipeline is built from.
#[derive(Clone, Copy, Debug, PartialEq, Eq, Structural)]
pub struct PipelineConfig {
    /// The number of bytes from one vertex to the next in the one vertex
    /// buffer.
    pub vertex_stride: u64,
    /// Where in a vertex its position starts.
    pub position_offset: u64,
    /// The shader location the position is bound to.
    pub position_location: u32,
    /// The binding of the camera's matrix in the one bind group.
    pub camera_binding: u32,
    /// The size of the camera's matrix in bytes.
    pub camera_bytes: u64,
    pub topology: PrimitiveTopology,
    pub front_face: FrontFace,
    /// The side that is not drawn, if any.
    pub cull_mode: Option<Face>,
    pub index_format: IndexFormat,
    /// The depth buffer that fragments are tested against, if any.
    pub depth_stencil: Option<DepthFormat>,
    /// The number of samples per pixel.
    pub sample_count: u32,
    pub blend: Blend,
    /// The format of the colour target.
    pub format: PixelFormat,
}

impl PipelineConfig {
    /// The pipeline for a target of the given format: positions only, the
    /// camera's matrix at binding 0, a list of triangles whose front is
    /// counter-clockwise and whose back is left out, no depth or stencil
    /// test, one sample, and fragments that replace what the target holds.
    pub open spec fn fixed(format: PixelFormat) -> PipelineConfig {
        PipelineConfig {
            vertex_stride: VERTEX_STRIDE,
            position_offset: 0,
            position_location: 0,
            camera_binding: 0,
            camera_bytes: CAMERA_BYTES,
            topology: PrimitiveTopology::TriangleList,
            front_face: FrontFace::Ccw,
            cull_mode: Some(Face::Back),
            index_format: IndexFormat::Uint32,
            depth_stencil: None,
            sample_count: 1,
            blend: Blend::Replace,
            format,
        }
    }

    /// Describes the pipeline for a target of the given format.
    pub fn new(format: PixelFormat) -> (config: PipelineConfig)
        ensures
            config == PipelineConfig::fixed(format),
    {
        PipelineConfig {
            vertex_stride: VERTEX_STRIDE,
            position_offset: 0,
            position_location: 0,
            camera_binding: 0,
            camera_bytes: CAMERA_BYTES,
            topology: PrimitiveTopology::TriangleList,
            front_face: FrontFace::Ccw,
            cull_mode: Some(Face::Back),
            index_format: IndexFormat::Uint32,
            depth_stencil: None,
            sample_count: 1,
            blend: Blend::Replace,
            format,
        }
    }
}

} // verus!
