//! Marker types and traits for [Frame](crate::frame::Frame).

use vstd::prelude::*;
use crate::frame::FrameData;
use crate::kind::Extension;

verus! {

/// The marker trait for frame kinds.
pub trait FrameKind {
    /// What a frame of this kind must hold besides a sound layout.
    spec fn admits(d: FrameData) -> bool;
}

/// The marker trait for frame kinds except [Any](Any): each stands for one
/// native extension tag.
pub trait NonAnyFrameKind: FrameKind {
    spec fn spec_extension() -> Extension;

    fn extension() -> (r: Extension)
        ensures
            r == Self::spec_extension(),
    ;
}

/// The marker trait for the kinds whose frames hold a video image.
pub trait VideoFrameKind: NonAnyFrameKind {}

#[derive(Debug)]
pub struct Composite;

impl FrameKind for Composite {
    open spec fn admits(d: FrameData) -> bool {
        true
    }
}

impl NonAnyFrameKind for Composite {
    open spec fn spec_extension() -> Extension {
        Extension::CompositeFrame
    }

    fn extension() -> (r: Extension) {
        Extension::CompositeFrame
    }
}

#[derive(Debug)]
pub struct Any;

impl FrameKind for Any {
    open spec fn admits(d: FrameData) -> bool {
        true
    }
}

#[derive(Debug)]
pub struct Video;

impl FrameKind for Video {
    open spec fn admits(d: FrameData) -> bool {
        true
    }
}

impl NonAnyFrameKind for Video {
    open spec fn spec_extension() -> Extension {
        Extension::VideoFrame
    }

    fn extension() -> (r: Extension) {
        Extension::VideoFrame
    }
}

impl VideoFrameKind for Video {}

#[derive(Debug)]
pub struct Motion;

impl FrameKind for Motion {
    open spec fn admits(d: FrameData) -> bool {
        true
    }
}

impl NonAnyFrameKind for Motion {
    open spec fn spec_extension() -> Extension {
        Extension::MotionFrame
    }

    fn extension() -> (r: Extension) {
        Extension::MotionFrame
    }
}

#[derive(Debug)]
pub struct Depth;

impl FrameKind for Depth {
    /// Depth samples are 16 bits wide.
    open spec fn admits(d: FrameData) -> bool {
        d.bits_per_pixel == 16
    }
}

impl NonAnyFrameKind for Depth {
    open spec fn spec_extension() -> Extension {
        Extension::DepthFrame
    }

    fn extension() -> (r: Extension) {
        Extension::DepthFrame
    }
}

impl VideoFrameKind for Depth {}

#[derive(Debug)]
pub struct Disparity;

impl FrameKind for Disparity {
    /// Depth samples are 16 bits wide.
    open spec fn admits(d: FrameData) -> bool {
        d.bits_per_pixel == 16
    }
}

impl NonAnyFrameKind for Disparity {
    open spec fn spec_extension() -> Extension {
        Extension::DisparityFrame
    }

    fn extension() -> (r: Extension) {
        Extension::DisparityFrame
    }
}

impl VideoFrameKind for Disparity {}

#[derive(Debug)]
pub struct Pose;

impl FrameKind for Pose {
    open spec fn admits(d: FrameData) -> bool {
        true
    }
}

impl NonAnyFrameKind for Pose {
    open spec fn spec_extension() -> Extension {
        Extension::PoseFrame
    }

    fn extension() -> (r: Extension) {
        Extension::PoseFrame
    }
}

#[derive(Debug)]
pub struct Points;

impl FrameKind for Points {
    open spec fn admits(d: FrameData) -> bool {
        true
    }
}

impl NonAnyFrameKind for Points {
    open spec fn spec_extension() -> Extension {
        Extension::Points
    }

    fn extension() -> (r: Extension) {
        Extension::Points
    }
}

} // verus!
