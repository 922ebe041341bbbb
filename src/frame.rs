//! Typed frames: a captured frame is generic until a checked narrowing step
//! reads its native extension tags and gives it a concrete kind.

use vstd::prelude::*;
use core::marker::PhantomData;
use crate::base::{image_kind, spec_image_kind, ImageKind, Resolution, StreamProfileData};
use crate::error::{ErrorKind, RsError};
use crate::frame_kind::{
    Any, Composite, Depth, Disparity, FrameKind, Motion, Points, Pose, Video, VideoFrameKind,
};
use crate::kind::Extension;

verus! {

/// What the native library reports of one captured frame.
#[derive(Debug)]
pub struct FrameData {
    /// The native frame handle, which the library carries but never reads.
    pub handle: usize,
    /// The extension tags that the frame can be read as.
    pub extensions: Vec<Extension>,
    /// The hardware sequence number.
    pub number: u64,
    pub profile: StreamProfileData,
    pub resolution: Resolution,
    /// Bytes from the start of one row to the start of the next.
    pub stride: usize,
    pub bits_per_pixel: usize,
    /// Micrometres per unit of a depth sample.
    pub depth_units_um: u32,
    /// The pixel buffer.
    pub data: Vec<u8>,
}

/// The buffer holds every row, and a row holds every pixel; a row's length
/// in bits fits a `usize`.
pub open spec fn layout_ok(d: FrameData) -> bool {
    &&& d.resolution.height * d.stride <= d.data@.len()
    &&& d.stride * 8 <= usize::MAX
    &&& d.resolution.width * d.bits_per_pixel <= d.stride * 8
}

/// The kind a frame with the tags `exts` narrows to: the most specific tag
/// wins (a disparity frame is also a depth frame, a depth frame also a video
/// frame).
pub open spec fn narrowed_kind(exts: Seq<Extension>) -> Option<Extension> {
    if exts.contains(Extension::CompositeFrame) {
        Some(Extension::CompositeFrame)
    } else if exts.contains(Extension::Points) {
        Some(Extension::Points)
    } else if exts.contains(Extension::DisparityFrame) {
        Some(Extension::DisparityFrame)
    } else if exts.contains(Extension::DepthFrame) {
        Some(Extension::DepthFrame)
    } else if exts.contains(Extension::VideoFrame) {
        Some(Extension::VideoFrame)
    } else if exts.contains(Extension::MotionFrame) {
        Some(Extension::MotionFrame)
    } else if exts.contains(Extension::PoseFrame) {
        Some(Extension::PoseFrame)
    } else {
        None
    }
}

/// A frame tagged with one known kind narrows to that kind.
pub proof fn lemma_single_tag_narrows(t: Extension)
    ensures
        narrowed_kind(seq![t]) == Some(t),
{
    let s = seq![t];
    assert(s.contains(t)) by {
        assert(s[0] == t);
    }
    assert forall|e: Extension| e != t implies !s.contains(e) by {
        if s.contains(e) {
            let i = choose|i: int| 0 <= i < s.len() && s[i] == e;
            assert(s[i] == t);
        }
    }
}

/// Depth and disparity frames hold 16-bit samples.
pub open spec fn is_depth_tag(t: Extension) -> bool {
    t == Extension::DepthFrame || t == Extension::DisparityFrame
}

/// The 16-bit little-endian depth sample at pixel `(x, y)`.
pub open spec fn depth_sample(d: FrameData, x: int, y: int) -> int {
    let off = y * d.stride + 2 * x;
    d.data@[off] as int + 256 * (d.data@[off + 1] as int)
}

/// A frame of kind `K`, owning one native frame.
#[derive(Debug)]
pub struct Frame<K: FrameKind> {
    data: FrameData,
    kind: PhantomData<K>,
}

impl<K: FrameKind> Frame<K> {
    #[verifier::type_invariant]
    spec fn inv(self) -> bool {
        layout_ok(self.data) && K::admits(self.data)
    }

    /// What the native library reported of this frame.
    pub closed spec fn spec_data(self) -> FrameData {
        self.data
    }
}

impl<K: FrameKind> Frame<K> {
    /// The native handle.
    pub fn handle(&self) -> (r: usize)
        ensures
            r == self.spec_data().handle,
    {
        self.data.handle
    }

    /// The hardware sequence number.
    pub fn number(&self) -> (r: u64)
        ensures
            r == self.spec_data().number,
    {
        self.data.number
    }

    /// The profile of the stream that produced the frame.
    pub fn profile(&self) -> (r: StreamProfileData)
        ensures
            r == self.spec_data().profile,
    {
        self.data.profile
    }

    /// What the native library reported of this frame.
    pub fn data(&self) -> (r: &FrameData)
        ensures
            *r == self.spec_data(),
            layout_ok(*r),
    {
        proof {
            use_type_invariant(self);
        }
        &self.data
    }
}

impl<K: VideoFrameKind> Frame<K> {
    pub fn resolution(&self) -> (r: Resolution)
        ensures
            r == self.spec_data().resolution,
    {
        self.data.resolution
    }

    /// Bytes from the start of one row to the start of the next.
    pub fn stride(&self) -> (r: usize)
        ensures
            r == self.spec_data().stride,
    {
        self.data.stride
    }

    pub fn bits_per_pixel(&self) -> (r: usize)
        ensures
            r == self.spec_data().bits_per_pixel,
    {
        self.data.bits_per_pixel
    }

    /// The image layout that the stream's format dictates, if it has one.
    pub fn image_kind(&self) -> (r: Option<ImageKind>)
        ensures
            r == spec_image_kind(self.spec_data().profile.format),
    {
        image_kind(self.data.profile.format)
    }

    /// The pixel buffer, without a copy.
    pub fn pixels(&self) -> (r: &[u8])
        ensures
            r@ == self.spec_data().data@,
    {
        self.data.data.as_slice()
    }
}

/// Whether `exts` holds `e`.
fn has_extension(exts: &Vec<Extension>, e: Extension) -> (r: bool)
    ensures
        r == exts@.contains(e),
{
    let mut i: usize = 0;
    while i < exts.len()
        invariant
            0 <= i <= exts@.len(),
            forall|k: int| 0 <= k < i ==> exts@[k] != e,
        decreases exts@.len() - i,
    {
        if exts[i] == e {
            assert(exts@[i as int] == e);
            return true;
        }
        i = i + 1;
    }
    false
}

/// A frame narrowed to its concrete kind.
#[derive(Debug)]
pub enum ExtendedFrame {
    Composite(Frame<Composite>),
    Points(Frame<Points>),
    Disparity(Frame<Disparity>),
    Depth(Frame<Depth>),
    Video(Frame<Video>),
    Motion(Frame<Motion>),
    Pose(Frame<Pose>),
}

impl ExtendedFrame {
    /// The extension tag of the variant.
    pub open spec fn spec_tag(self) -> Extension {
        match self {
            ExtendedFrame::Composite(_) => Extension::CompositeFrame,
            ExtendedFrame::Points(_) => Extension::Points,
            ExtendedFrame::Disparity(_) => Extension::DisparityFrame,
            ExtendedFrame::Depth(_) => Extension::DepthFrame,
            ExtendedFrame::Video(_) => Extension::VideoFrame,
            ExtendedFrame::Motion(_) => Extension::MotionFrame,
            ExtendedFrame::Pose(_) => Extension::PoseFrame,
        }
    }

    /// The frame inside the variant.
    pub open spec fn spec_data(self) -> FrameData {
        match self {
            ExtendedFrame::Composite(f) => f.spec_data(),
            ExtendedFrame::Points(f) => f.spec_data(),
            ExtendedFrame::Disparity(f) => f.spec_data(),
            ExtendedFrame::Depth(f) => f.spec_data(),
            ExtendedFrame::Video(f) => f.spec_data(),
            ExtendedFrame::Motion(f) => f.spec_data(),
            ExtendedFrame::Pose(f) => f.spec_data(),
        }
    }

    /// The extension tag of the variant.
    pub fn tag(&self) -> (r: Extension)
        ensures
            r == self.spec_tag(),
    {
        match self {
            ExtendedFrame::Composite(_) => Extension::CompositeFrame,
            ExtendedFrame::Points(_) => Extension::Points,
            ExtendedFrame::Disparity(_) => Extension::DisparityFrame,
            ExtendedFrame::Depth(_) => Extension::DepthFrame,
            ExtendedFrame::Video(_) => Extension::VideoFrame,
            ExtendedFrame::Motion(_) => Extension::MotionFrame,
            ExtendedFrame::Pose(_) => Extension::PoseFrame,
        }
    }
}

impl Frame<Any> {
    /// Takes ownership of a captured frame. A buffer too small for the
    /// declared layout is an `InvalidLayout` error.
    pub fn new(data: FrameData) -> (r: Result<Frame<Any>, RsError>)
        ensures
            r is Ok <==> layout_ok(data),
            r matches Ok(f) ==> f.spec_data() == data,
            r matches Err(e) ==> e.kind == ErrorKind::InvalidLayout,
    {
        let len = data.data.len();
        let rows_fit = match data.resolution.height.checked_mul(data.stride) {
            Some(n) => n <= len,
            None => false,
        };
        let row_bits = match data.stride.checked_mul(8) {
            Some(b) => match data.resolution.width.checked_mul(data.bits_per_pixel) {
                Some(a) => a <= b,
                None => false,
            },
            None => false,
        };
        if rows_fit && row_bits {
            Ok(Frame { data, kind: PhantomData })
        } else {
            Err(RsError::new(ErrorKind::InvalidLayout, String::new()))
        }
    }

    /// Narrows the frame to the kind its extension tags name (see
    /// `narrowed_kind`), keeping the same native frame; a frame with none of
    /// the known tags is an `UnsupportedExtension` error, and a depth or
    /// disparity frame whose pixels are not 16 bits wide an `InvalidLayout`
    /// error.
    pub fn try_extend(self) -> (r: Result<ExtendedFrame, RsError>)
        ensures
            match narrowed_kind(self.spec_data().extensions@) {
                None => (r matches Err(e) && e.kind == ErrorKind::UnsupportedExtension),
                Some(t) => if is_depth_tag(t) && self.spec_data().bits_per_pixel != 16 {
                    (r matches Err(e) && e.kind == ErrorKind::InvalidLayout)
                } else {
                    (r matches Ok(f) && f.spec_tag() == t && f.spec_data() == self.spec_data())
                },
            },
    {
        proof {
            use_type_invariant(&self);
        }
        let Frame { data, kind: _ } = self;
        if has_extension(&data.extensions, Extension::CompositeFrame) {
            Ok(ExtendedFrame::Composite(Frame { data, kind: PhantomData }))
        } else if has_extension(&data.extensions, Extension::Points) {
            Ok(ExtendedFrame::Points(Frame { data, kind: PhantomData }))
        } else if has_extension(&data.extensions, Extension::DisparityFrame) {
            if data.bits_per_pixel != 16 {
                return Err(RsError::new(ErrorKind::InvalidLayout, String::new()));
            }
            Ok(ExtendedFrame::Disparity(Frame { data, kind: PhantomData }))
        } else if has_extension(&data.extensions, Extension::DepthFrame) {
            if data.bits_per_pixel != 16 {
                return Err(RsError::new(ErrorKind::InvalidLayout, String::new()));
            }
            Ok(ExtendedFrame::Depth(Frame { data, kind: PhantomData }))
        } else if has_extension(&data.extensions, Extension::VideoFrame) {
            Ok(ExtendedFrame::Video(Frame { data, kind: PhantomData }))
        } else if has_extension(&data.extensions, Extension::MotionFrame) {
            Ok(ExtendedFrame::Motion(Frame { data, kind: PhantomData }))
        } else if has_extension(&data.extensions, Extension::PoseFrame) {
            Ok(ExtendedFrame::Pose(Frame { data, kind: PhantomData }))
        } else {
            Err(RsError::new(ErrorKind::UnsupportedExtension, String::new()))
        }
    }
}

impl Frame<Depth> {
    /// The distance at pixel `(x, y)`, in micrometres: the 16-bit depth sample
    /// there times the frame's depth unit. A pixel outside the frame is an
    /// `OutOfBounds` error.
    pub fn distance(&self, x: usize, y: usize) -> (r: Result<u64, RsError>)
        ensures
            (x >= self.spec_data().resolution.width || y >= self.spec_data().resolution.height)
                ==> (r matches Err(e) && e.kind == ErrorKind::OutOfBounds),
            (x < self.spec_data().resolution.width && y < self.spec_data().resolution.height)
                ==> (r matches Ok(v) && v == depth_sample(
                self.spec_data(),
                x as int,
                y as int,
            ) * self.spec_data().depth_units_um),
    {
        proof {
            use_type_invariant(self);
        }
        let d = &self.data;
        if x >= d.resolution.width || y >= d.resolution.height {
            return Err(RsError::new(ErrorKind::OutOfBounds, String::new()));
        }
        let ghost h = d.resolution.height as int;
        let ghost w = d.resolution.width as int;
        let ghost s = d.stride as int;
        proof {
            assert((y as int) * s + s <= h * s) by (nonlinear_arith)
                requires
                    (y as int) < h,
                    s >= 0,
            ;
            assert(2 * (x as int) + 2 <= s) by (nonlinear_arith)
                requires
                    (x as int) < w,
                    w * 16 <= s * 8,
            ;
        }
        let len = d.data.len();
        let off = y * d.stride + 2 * x;
        let lo = d.data[off] as u64;
        let hi = d.data[off + 1] as u64;
        let sample = lo + 256 * hi;
        let unit = d.depth_units_um as u64;
        assert(sample * unit <= 65535 * 4294967295) by (nonlinear_arith)
            requires
                sample <= 65535,
                unit <= 4294967295,
        ;
        Ok(sample * unit)
    }
}

} // verus!
