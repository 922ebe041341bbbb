//! Enumerations shared by the whole library, with their native codes.

use vstd::prelude::*;

verus! {

/// The kind of data a stream carries.
#[derive(Clone, Copy, Debug, PartialEq, Eq, Structural)]
pub enum StreamKind {
    Any,
    Depth,
    Color,
    Infrared,
    Fisheye,
    Gyro,
    Accel,
    Gpio,
    Pose,
    Confidence,
    Motion,
}

impl StreamKind {
    /// The native code of this stream kind.
    pub open spec fn spec_code(self) -> u32 {
        match self {
            StreamKind::Any => 0,
            StreamKind::Depth => 1,
            StreamKind::Color => 2,
            StreamKind::Infrared => 3,
            StreamKind::Fisheye => 4,
            StreamKind::Gyro => 5,
            StreamKind::Accel => 6,
            StreamKind::Gpio => 7,
            StreamKind::Pose => 8,
            StreamKind::Confidence => 9,
            StreamKind::Motion => 10,
        }
    }

    pub fn code(self) -> (r: u32)
        ensures
            r == self.spec_code(),
    {
        match self {
            StreamKind::Any => 0,
            StreamKind::Depth => 1,
            StreamKind::Color => 2,
            StreamKind::Infrared => 3,
            StreamKind::Fisheye => 4,
            StreamKind::Gyro => 5,
            StreamKind::Accel => 6,
            StreamKind::Gpio => 7,
            StreamKind::Pose => 8,
            StreamKind::Confidence => 9,
            StreamKind::Motion => 10,
        }
    }

    /// The stream kind with the given native code, if any.
    pub fn from_code(c: u32) -> (r: Option<StreamKind>)
        ensures
            r matches Some(k) ==> k.spec_code() == c,
            r is None ==> forall|k: StreamKind| #[trigger] k.spec_code() != c,
    {
        match c {
            0 => Some(StreamKind::Any),
            1 => Some(StreamKind::Depth),
            2 => Some(StreamKind::Color),
            3 => Some(StreamKind::Infrared),
            4 => Some(StreamKind::Fisheye),
            5 => Some(StreamKind::Gyro),
            6 => Some(StreamKind::Accel),
            7 => Some(StreamKind::Gpio),
            8 => Some(StreamKind::Pose),
            9 => Some(StreamKind::Confidence),
            10 => Some(StreamKind::Motion),
            _ => None,
        }
    }
}

/// The pixel or sample format of a stream.
#[derive(Clone, Copy, Debug, PartialEq, Eq, Structural)]
pub enum Format {
    Any,
    Z16,
    Disparity16,
    Xyz32F,
    Yuyv,
    Rgb8,
    Bgr8,
    Rgba8,
    Bgra8,
    Y8,
    Y16,
    Raw10,
    Raw16,
    Raw8,
    Uyvy,
    MotionRaw,
    MotionXyz32F,
    GpioRaw,
    SixDof,
    Disparity32,
    Y10BPack,
    Distance,
    Mjpeg,
    Y8I,
    Y12I,
    Inzi,
    Invi,
    W10,
    Z16H,
    Fg,
    Y411,
    Y16I,
    M420,
    CombinedMotion,
}

impl Format {
    /// The native code of this value.
    pub open spec fn spec_code(self) -> u32 {
        match self {
            Format::Any => 0,
            Format::Z16 => 1,
            Format::Disparity16 => 2,
            Format::Xyz32F => 3,
            Format::Yuyv => 4,
            Format::Rgb8 => 5,
            Format::Bgr8 => 6,
            Format::Rgba8 => 7,
            Format::Bgra8 => 8,
            Format::Y8 => 9,
            Format::Y16 => 10,
            Format::Raw10 => 11,
            Format::Raw16 => 12,
            Format::Raw8 => 13,
            Format::Uyvy => 14,
            Format::MotionRaw => 15,
            Format::MotionXyz32F => 16,
            Format::GpioRaw => 17,
            Format::SixDof => 18,
            Format::Disparity32 => 19,
            Format::Y10BPack => 20,
            Format::Distance => 21,
            Format::Mjpeg => 22,
            Format::Y8I => 23,
            Format::Y12I => 24,
            Format::Inzi => 25,
            Format::Invi => 26,
            Format::W10 => 27,
            Format::Z16H => 28,
            Format::Fg => 29,
            Format::Y411 => 30,
            Format::Y16I => 31,
            Format::M420 => 32,
            Format::CombinedMotion => 33,
        }
    }

    pub fn code(self) -> (r: u32)
        ensures
            r == self.spec_code(),
    {
        match self {
            Format::Any => 0,
            Format::Z16 => 1,
            Format::Disparity16 => 2,
            Format::Xyz32F => 3,
            Format::Yuyv => 4,
            Format::Rgb8 => 5,
            Format::Bgr8 => 6,
            Format::Rgba8 => 7,
            Format::Bgra8 => 8,
            Format::Y8 => 9,
            Format::Y16 => 10,
            Format::Raw10 => 11,
            Format::Raw16 => 12,
            Format::Raw8 => 13,
            Format::Uyvy => 14,
            Format::MotionRaw => 15,
            Format::MotionXyz32F => 16,
            Format::GpioRaw => 17,
            Format::SixDof => 18,
            Format::Disparity32 => 19,
            Format::Y10BPack => 20,
            Format::Distance => 21,
            Format::Mjpeg => 22,
            Format::Y8I => 23,
            Format::Y12I => 24,
            Format::Inzi => 25,
            Format::Invi => 26,
            Format::W10 => 27,
            Format::Z16H => 28,
            Format::Fg => 29,
            Format::Y411 => 30,
            Format::Y16I => 31,
            Format::M420 => 32,
            Format::CombinedMotion => 33,
        }
    }

    /// The value with the given native code, if any.
    pub fn from_code(c: u32) -> (r: Option<Format>)
        ensures
            r matches Some(k) ==> k.spec_code() == c,
            r is None ==> forall|k: Format| #[trigger] k.spec_code() != c,
    {
        match c {
            0 => Some(Format::Any),
            1 => Some(Format::Z16),
            2 => Some(Format::Disparity16),
            3 => Some(Format::Xyz32F),
            4 => Some(Format::Yuyv),
            5 => Some(Format::Rgb8),
            6 => Some(Format::Bgr8),
            7 => Some(Format::Rgba8),
            8 => Some(Format::Bgra8),
            9 => Some(Format::Y8),
            10 => Some(Format::Y16),
            11 => Some(Format::Raw10),
            12 => Some(Format::Raw16),
            13 => Some(Format::Raw8),
            14 => Some(Format::Uyvy),
            15 => Some(Format::MotionRaw),
            16 => Some(Format::MotionXyz32F),
            17 => Some(Format::GpioRaw),
            18 => Some(Format::SixDof),
            19 => Some(Format::Disparity32),
            20 => Some(Format::Y10BPack),
            21 => Some(Format::Distance),
            22 => Some(Format::Mjpeg),
            23 => Some(Format::Y8I),
            24 => Some(Format::Y12I),
            25 => Some(Format::Inzi),
            26 => Some(Format::Invi),
            27 => Some(Format::W10),
            28 => Some(Format::Z16H),
            29 => Some(Format::Fg),
            30 => Some(Format::Y411),
            31 => Some(Format::Y16I),
            32 => Some(Format::M420),
            33 => Some(Format::CombinedMotion),
            _ => None,
        }
    }
}

/// A field of a device's information table.
#[derive(Clone, Copy, Debug, PartialEq, Eq, Structural)]
pub enum CameraInfo {
    Name,
    SerialNumber,
    FirmwareVersion,
    RecommendedFirmwareVersion,
    PhysicalPort,
    DebugOpCode,
    AdvancedMode,
    ProductId,
    CameraLocked,
    UsbTypeDescriptor,
    ProductLine,
    AsicSerialNumber,
    FirmwareUpdateId,
    IpAddress,
    DfuDevicePath,
    ConnectionType,
}

impl CameraInfo {
    /// The native code of this value.
    pub open spec fn spec_code(self) -> u32 {
        match self {
            CameraInfo::Name => 0,
            CameraInfo::SerialNumber => 1,
            CameraInfo::FirmwareVersion => 2,
            CameraInfo::RecommendedFirmwareVersion => 3,
            CameraInfo::PhysicalPort => 4,
            CameraInfo::DebugOpCode => 5,
            CameraInfo::AdvancedMode => 6,
            CameraInfo::ProductId => 7,
            CameraInfo::CameraLocked => 8,
            CameraInfo::UsbTypeDescriptor => 9,
            CameraInfo::ProductLine => 10,
            CameraInfo::AsicSerialNumber => 11,
            CameraInfo::FirmwareUpdateId => 12,
            CameraInfo::IpAddress => 13,
            CameraInfo::DfuDevicePath => 14,
            CameraInfo::ConnectionType => 15,
        }
    }

    pub fn code(self) -> (r: u32)
        ensures
            r == self.spec_code(),
    {
        match self {
            CameraInfo::Name => 0,
            CameraInfo::SerialNumber => 1,
            CameraInfo::FirmwareVersion => 2,
            CameraInfo::RecommendedFirmwareVersion => 3,
            CameraInfo::PhysicalPort => 4,
            CameraInfo::DebugOpCode => 5,
            CameraInfo::AdvancedMode => 6,
            CameraInfo::ProductId => 7,
            CameraInfo::CameraLocked => 8,
            CameraInfo::UsbTypeDescriptor => 9,
            CameraInfo::ProductLine => 10,
            CameraInfo::AsicSerialNumber => 11,
            CameraInfo::FirmwareUpdateId => 12,
            CameraInfo::IpAddress => 13,
            CameraInfo::DfuDevicePath => 14,
            CameraInfo::ConnectionType => 15,
        }
    }

    /// The value with the given native code, if any.
    pub fn from_code(c: u32) -> (r: Option<CameraInfo>)
        ensures
            r matches Some(k) ==> k.spec_code() == c,
            r is None ==> forall|k: CameraInfo| #[trigger] k.spec_code() != c,
    {
        match c {
            0 => Some(CameraInfo::Name),
            1 => Some(CameraInfo::SerialNumber),
            2 => Some(CameraInfo::FirmwareVersion),
            3 => Some(CameraInfo::RecommendedFirmwareVersion),
            4 => Some(CameraInfo::PhysicalPort),
            5 => Some(CameraInfo::DebugOpCode),
            6 => Some(CameraInfo::AdvancedMode),
            7 => Some(CameraInfo::ProductId),
            8 => Some(CameraInfo::CameraLocked),
            9 => Some(CameraInfo::UsbTypeDescriptor),
            10 => Some(CameraInfo::ProductLine),
            11 => Some(CameraInfo::AsicSerialNumber),
            12 => Some(CameraInfo::FirmwareUpdateId),
            13 => Some(CameraInfo::IpAddress),
            14 => Some(CameraInfo::DfuDevicePath),
            15 => Some(CameraInfo::ConnectionType),
            _ => None,
        }
    }
}

/// A native extension tag that marks what a frame can be read as.
#[derive(Clone, Copy, Debug, PartialEq, Eq, Structural)]
pub enum Extension {
    VideoFrame,
    MotionFrame,
    CompositeFrame,
    Points,
    DepthFrame,
    DisparityFrame,
    PoseFrame,
}

impl Extension {
    /// The native code of this value.
    pub open spec fn spec_code(self) -> u32 {
        match self {
            Extension::VideoFrame => 8,
            Extension::MotionFrame => 9,
            Extension::CompositeFrame => 10,
            Extension::Points => 11,
            Extension::DepthFrame => 12,
            Extension::DisparityFrame => 18,
            Extension::PoseFrame => 20,
        }
    }

    pub fn code(self) -> (r: u32)
        ensures
            r == self.spec_code(),
    {
        match self {
            Extension::VideoFrame => 8,
            Extension::MotionFrame => 9,
            Extension::CompositeFrame => 10,
            Extension::Points => 11,
            Extension::DepthFrame => 12,
            Extension::DisparityFrame => 18,
            Extension::PoseFrame => 20,
        }
    }

    /// The value with the given native code, if any.
    pub fn from_code(c: u32) -> (r: Option<Extension>)
        ensures
            r matches Some(k) ==> k.spec_code() == c,
            r is None ==> forall|k: Extension| #[trigger] k.spec_code() != c,
    {
        match c {
            8 => Some(Extension::VideoFrame),
            9 => Some(Extension::MotionFrame),
            10 => Some(Extension::CompositeFrame),
            11 => Some(Extension::Points),
            12 => Some(Extension::DepthFrame),
            18 => Some(Extension::DisparityFrame),
            20 => Some(Extension::PoseFrame),
            _ => None,
        }
    }
}

} // verus!
