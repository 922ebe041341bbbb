//! Common value types: resolutions, stream profiles and image layouts.

use vstd::prelude::*;
use crate::kind::{Format, StreamKind};

verus! {

/// How long a blocking wait lasts by default, in milliseconds.
pub const DEFAULT_TIMEOUT_MS: u64 = 15000;

/// Contains width and height of a frame.
#[derive(Clone, Copy, Debug, Hash, PartialEq, Eq, Structural)]
pub struct Resolution {
    pub width: usize,
    pub height: usize,
}

/// Represents the specification of a stream.
#[derive(Clone, Copy, Debug, PartialEq, Eq, Structural)]
pub struct StreamProfileData {
    pub stream: StreamKind,
    pub format: Format,
    pub index: usize,
    pub unique_id: i32,
    pub framerate: i32,
}

/// A concrete stream profile: what a device can produce, or what a resolved
/// configuration will produce.
#[derive(Clone, Copy, Debug, PartialEq, Eq, Structural)]
pub struct StreamProfile {
    pub data: StreamProfileData,
    pub resolution: Resolution,
}

/// The pixel layouts that a video frame can be viewed as an image in.
#[derive(Clone, Copy, Debug, PartialEq, Eq, Structural)]
pub enum ImageKind {
    Bgr8,
    Bgra8,
    Rgb8,
    Rgba8,
    Luma16,
}

/// The image layout of a stream format, if it has one.
pub open spec fn spec_image_kind(format: Format) -> Option<ImageKind> {
    match format {
        Format::Bgr8 => Some(ImageKind::Bgr8),
        Format::Bgra8 => Some(ImageKind::Bgra8),
        Format::Rgb8 => Some(ImageKind::Rgb8),
        Format::Rgba8 => Some(ImageKind::Rgba8),
        Format::Z16 => Some(ImageKind::Luma16),
        Format::Y16 => Some(ImageKind::Luma16),
        _ => None,
    }
}

/// The image layout that the stream's format dictates.
pub fn image_kind(format: Format) -> (r: Option<ImageKind>)
    ensures
        r == spec_image_kind(format),
{
    match format {
        Format::Bgr8 => Some(ImageKind::Bgr8),
        Format::Bgra8 => Some(ImageKind::Bgra8),
        Format::Rgb8 => Some(ImageKind::Rgb8),
        Format::Rgba8 => Some(ImageKind::Rgba8),
        Format::Z16 => Some(ImageKind::Luma16),
        Format::Y16 => Some(ImageKind::Luma16),
        _ => None,
    }
}

impl ImageKind {
    /// Bytes that one pixel of this layout takes.
    pub open spec fn spec_bytes_per_pixel(self) -> usize {
        match self {
            ImageKind::Bgr8 => 3,
            ImageKind::Bgra8 => 4,
            ImageKind::Rgb8 => 3,
            ImageKind::Rgba8 => 4,
            ImageKind::Luma16 => 2,
        }
    }

    pub fn bytes_per_pixel(self) -> (r: usize)
        ensures
            r == self.spec_bytes_per_pixel(),
    {
        match self {
            ImageKind::Bgr8 => 3,
            ImageKind::Bgra8 => 4,
            ImageKind::Rgb8 => 3,
            ImageKind::Rgba8 => 4,
            ImageKind::Luma16 => 2,
        }
    }
}

} // verus!
