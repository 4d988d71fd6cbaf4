//! The extent of the presentable surface.

use vstd::prelude::*;

verus! {

/// A requested dimension, raised to one where the window reports zero.
pub open spec fn effective_dimension(requested: u32) -> u32 {
    if requested == 0 {
        1u32
    } else {
        requested
    }
}

/// The pixel format of the colour target.
#[derive(Clone, Copy, Debug, PartialEq, Eq, Structural)]
pub enum PixelFormat {
    /// Four 8-bit channels, sRGB-encoded.
    Rgba8UnormSrgb,
}

/// How finished frames are handed to the display.
#[derive(Clone, Copy, Debug, PartialEq, Eq, Structural)]
pub enum PresentMode {
    /// Frames queue up and are shown one per refresh.
    Fifo,
}

/// What the surface is configured with.
#[derive(Clone, Copy, Debug, PartialEq, Eq, Structural)]
pub struct SurfaceConfig {
    pub width: u32,
    pub height: u32,
    pub format: PixelFormat,
    pub present_mode: PresentMode,
    pub desired_maximum_frame_latency: u32,
}

impl SurfaceConfig {
    /// Both dimensions are at least one, so the surface can be configured.
    pub open spec fn well_formed(&self) -> bool {
        self.width >= 1 && self.height >= 1
    }

    /// The configuration for a window of the given inner size.
    pub open spec fn for_window(width: u32, height: u32) -> SurfaceConfig {
        SurfaceConfig {
            width: effective_dimension(width),
            height: effective_dimension(height),
            format: PixelFormat::Rgba8UnormSrgb,
            present_mode: PresentMode::Fifo,
            desired_maximum_frame_latency: 2,
        }
    }

    /// A configuration for a window of the given inner size; a dimension of
    /// zero is raised to one.
    pub fn new(width: u32, height: u32) -> (conf: SurfaceConfig)
        ensures
            conf == SurfaceConfig::for_window(width, height),
            conf.well_formed(),
    {
        SurfaceConfig {
            width: clamp_dimension(width),
            height: clamp_dimension(height),
            format: PixelFormat::Rgba8UnormSrgb,
            present_mode: PresentMode::Fifo,
            desired_maximum_frame_latency: 2,
        }
    }

    /// Takes a new size; a dimension of zero is raised to one. Format,
    /// presentation mode and latency stay as they are.
    pub fn resize(&mut self, width: u32, height: u32)
        ensures
            final(self).width == effective_dimension(width),
            final(self).height == effective_dimension(height),
            final(self).format == old(self).format,
            final(self).present_mode == old(self).present_mode,
            final(self).desired_maximum_frame_latency == old(self).desired_maximum_frame_latency,
            final(self).well_formed(),
    {
        self.width = clamp_dimension(width);
        self.height = clamp_dimension(height);
    }
}

/// Raises a dimension of zero to one and leaves any other as it is.
pub fn clamp_dimension(requested: u32) -> (effective: u32)
    ensures
        effective == effective_dimension(requested),
        effective >= 1,
{
    if requested == 0 {
        1
    } else {
        requested
    }
}

} // verus!
