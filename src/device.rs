//! Defines the device type: its information table and its sensor list.

use vstd::prelude::*;
use crate::error::{ErrorKind, RsError};
use crate::kind::CameraInfo;

verus! {

/// What a sensor can do; a sensor may have several of these.
#[derive(Clone, Copy, Debug, PartialEq, Eq, Structural)]
pub enum SensorCapability {
    Color,
    Depth,
    DepthStereo,
    Motion,
    FishEye,
    Pose,
    Software,
    Tm2,
    L500Depth,
}

/// One sensor of a device's sensor list.
#[derive(Debug)]
pub struct SensorInfo {
    pub capabilities: Vec<SensorCapability>,
}

/// One field of a device's information table.
#[derive(Debug)]
pub struct InfoEntry {
    pub field: CameraInfo,
    pub value: String,
}

/// No field occurs twice in the table.
pub open spec fn fields_unique(s: Seq<InfoEntry>) -> bool {
    forall|i: int, j: int|
        0 <= i < s.len() && 0 <= j < s.len() && i != j ==> (#[trigger] s[i]).field != (
        #[trigger] s[j]).field
}

/// The value of field `f` in the table `s`, if the device supports it.
pub open spec fn info_of(s: Seq<InfoEntry>, f: CameraInfo) -> Option<Seq<char>> {
    if exists|i: int| 0 <= i < s.len() && (#[trigger] s[i]).field == f {
        Some(s[choose|i: int| 0 <= i < s.len() && (#[trigger] s[i]).field == f].value@)
    } else {
        None
    }
}

/// `s[i]` is the first sensor with capability `c`.
pub open spec fn is_first_sensor(s: Seq<SensorInfo>, c: SensorCapability, i: int) -> bool {
    &&& 0 <= i < s.len()
    &&& s[i].capabilities@.contains(c)
    &&& forall|j: int| 0 <= j < i ==> !(#[trigger] s[j]).capabilities@.contains(c)
}

/// Represents a device instance: its native handle, the information fields it
/// supports, and its sensors in the native library's order.
#[derive(Debug)]
pub struct Device {
    handle: usize,
    infos: Vec<InfoEntry>,
    sensors: Vec<SensorInfo>,
}

impl Device {
    #[verifier::type_invariant]
    spec fn inv(self) -> bool {
        fields_unique(self.infos@)
    }

    pub closed spec fn spec_handle(self) -> usize {
        self.handle
    }

    pub closed spec fn spec_infos(self) -> Seq<InfoEntry> {
        self.infos@
    }

    pub closed spec fn spec_sensors(self) -> Seq<SensorInfo> {
        self.sensors@
    }

    /// The value of an information field, if the device supports it.
    pub open spec fn spec_info(self, f: CameraInfo) -> Option<Seq<char>> {
        info_of(self.spec_infos(), f)
    }

    /// A device over a native handle. A field given twice is an
    /// `InvalidValue` error.
    pub fn new(handle: usize, infos: Vec<InfoEntry>, sensors: Vec<SensorInfo>) -> (r: Result<
        Device,
        RsError,
    >)
        ensures
            r is Ok <==> fields_unique(infos@),
            r matches Ok(d) ==> d.spec_handle() == handle && d.spec_infos() == infos@
                && d.spec_sensors() == sensors@,
            r matches Err(e) ==> e.kind == ErrorKind::InvalidValue,
    {
        let mut i: usize = 0;
        while i < infos.len()
            invariant
                0 <= i <= infos@.len(),
                forall|a: int, b: int|
                    0 <= a < i && 0 <= b < infos@.len() && a != b ==> (#[trigger] infos@[a]).field
                        != (#[trigger] infos@[b]).field,
            decreases infos@.len() - i,
        {
            let mut j: usize = 0;
            while j < infos.len()
                invariant
                    0 <= i < infos@.len(),
                    0 <= j <= infos@.len(),
                    forall|a: int, b: int|
                        0 <= a < i && 0 <= b < infos@.len() && a != b
                            ==> (#[trigger] infos@[a]).field != (#[trigger] infos@[b]).field,
                    forall|b: int|
                        0 <= b < j && b != i ==> infos@[i as int].field != (#[trigger] infos@[b]).field,
                decreases infos@.len() - j,
            {
                if j != i && infos[i].field == infos[j].field {
                    return Err(RsError::new(ErrorKind::InvalidValue, String::new()));
                }
                j = j + 1;
            }
            i = i + 1;
        }
        Ok(Device { handle, infos, sensors })
    }

    /// The native handle.
    pub fn handle(&self) -> (r: usize)
        ensures
            r == self.spec_handle(),
    {
        self.handle
    }

    /// Gives up the device and hands back its native handle, which the caller
    /// then owns.
    pub fn into_raw(self) -> (r: usize)
        ensures
            r == self.spec_handle(),
    {
        self.handle
    }

    /// The value of an information field, or `None` where the device does not
    /// support it.
    pub fn info(&self, kind: CameraInfo) -> (r: Option<&str>)
        ensures
            r is None <==> self.spec_info(kind) is None,
            r matches Some(s) ==> self.spec_info(kind) == Some(s@),
    {
        proof {
            use_type_invariant(self);
        }
        let mut i: usize = 0;
        while i < self.infos.len()
            invariant
                0 <= i <= self.infos@.len(),
                fields_unique(self.infos@),
                forall|k: int| 0 <= k < i ==> (#[trigger] self.infos@[k]).field != kind,
            decreases self.infos@.len() - i,
        {
            if self.infos[i].field == kind {
                proof {
                    let s = self.infos@;
                    assert(s[i as int].field == kind);
                    let c = choose|c: int| 0 <= c < s.len() && (#[trigger] s[c]).field == kind;
                    if c != i {
                        assert(s[c].field != s[i as int].field);
                    }
                }
                return Some(self.infos[i].value.as_str());
            }
            i = i + 1;
        }
        None
    }

    /// Whether the device supports an information field.
    pub fn is_info_supported(&self, kind: CameraInfo) -> (r: bool)
        ensures
            r == self.spec_info(kind) is Some,
    {
        self.info(kind).is_some()
    }

    pub fn name(&self) -> (r: Option<&str>)
        ensures
            r is None <==> self.spec_info(CameraInfo::Name) is None,
            r matches Some(s) ==> self.spec_info(CameraInfo::Name) == Some(s@),
    {
        self.info(CameraInfo::Name)
    }

    pub fn serial_number(&self) -> (r: Option<&str>)
        ensures
            r is None <==> self.spec_info(CameraInfo::SerialNumber) is None,
            r matches Some(s) ==> self.spec_info(CameraInfo::SerialNumber) == Some(s@),
    {
        self.info(CameraInfo::SerialNumber)
    }

    pub fn recommended_firmware_version(&self) -> (r: Option<&str>)
        ensures
            r is None <==> self.spec_info(CameraInfo::RecommendedFirmwareVersion) is None,
            r matches Some(s) ==> self.spec_info(CameraInfo::RecommendedFirmwareVersion) == Some(
                s@,
            ),
    {
        self.info(CameraInfo::RecommendedFirmwareVersion)
    }

    pub fn physical_port(&self) -> (r: Option<&str>)
        ensures
            r is None <==> self.spec_info(CameraInfo::PhysicalPort) is None,
            r matches Some(s) ==> self.spec_info(CameraInfo::PhysicalPort) == Some(s@),
    {
        self.info(CameraInfo::PhysicalPort)
    }

    pub fn debug_op_code(&self) -> (r: Option<&str>)
        ensures
            r is None <==> self.spec_info(CameraInfo::DebugOpCode) is None,
            r matches Some(s) ==> self.spec_info(CameraInfo::DebugOpCode) == Some(s@),
    {
        self.info(CameraInfo::DebugOpCode)
    }

    pub fn advanced_mode(&self) -> (r: Option<&str>)
        ensures
            r is None <==> self.spec_info(CameraInfo::AdvancedMode) is None,
            r matches Some(s) ==> self.spec_info(CameraInfo::AdvancedMode) == Some(s@),
    {
        self.info(CameraInfo::AdvancedMode)
    }

    pub fn product_id(&self) -> (r: Option<&str>)
        ensures
            r is None <==> self.spec_info(CameraInfo::ProductId) is None,
            r matches Some(s) ==> self.spec_info(CameraInfo::ProductId) == Some(s@),
    {
        self.info(CameraInfo::ProductId)
    }

    pub fn camera_locked(&self) -> (r: Option<&str>)
        ensures
            r is None <==> self.spec_info(CameraInfo::CameraLocked) is None,
            r matches Some(s) ==> self.spec_info(CameraInfo::CameraLocked) == Some(s@),
    {
        self.info(CameraInfo::CameraLocked)
    }

    pub fn usb_type_descriptor(&self) -> (r: Option<&str>)
        ensures
            r is None <==> self.spec_info(CameraInfo::UsbTypeDescriptor) is None,
            r matches Some(s) ==> self.spec_info(CameraInfo::UsbTypeDescriptor) == Some(s@),
    {
        self.info(CameraInfo::UsbTypeDescriptor)
    }

    pub fn product_line(&self) -> (r: Option<&str>)
        ensures
            r is None <==> self.spec_info(CameraInfo::ProductLine) is None,
            r matches Some(s) ==> self.spec_info(CameraInfo::ProductLine) == Some(s@),
    {
        self.info(CameraInfo::ProductLine)
    }

    pub fn asic_serial_number(&self) -> (r: Option<&str>)
        ensures
            r is None <==> self.spec_info(CameraInfo::AsicSerialNumber) is None,
            r matches Some(s) ==> self.spec_info(CameraInfo::AsicSerialNumber) == Some(s@),
    {
        self.info(CameraInfo::AsicSerialNumber)
    }

    pub fn firmware_update_id(&self) -> (r: Option<&str>)
        ensures
            r is None <==> self.spec_info(CameraInfo::FirmwareUpdateId) is None,
            r matches Some(s) ==> self.spec_info(CameraInfo::FirmwareUpdateId) == Some(s@),
    {
        self.info(CameraInfo::FirmwareUpdateId)
    }

    /// The device's sensors, in the native library's order.
    pub fn sensors(&self) -> (r: &Vec<SensorInfo>)
        ensures
            r@ == self.spec_sensors(),
    {
        &self.sensors
    }

    /// The position of the first sensor with capability `c`.
    pub fn first_sensor_with(&self, c: SensorCapability) -> (r: Option<usize>)
        ensures
            r is None <==> forall|j: int|
                0 <= j < self.spec_sensors().len() ==> !(
                #[trigger] self.spec_sensors()[j]).capabilities@.contains(c),
            r matches Some(i) ==> is_first_sensor(self.spec_sensors(), c, i as int),
    {
        let mut i: usize = 0;
        while i < self.sensors.len()
            invariant
                0 <= i <= self.sensors@.len(),
                forall|j: int|
                    0 <= j < i ==> !(#[trigger] self.sensors@[j]).capabilities@.contains(c),
            decreases self.sensors@.len() - i,
        {
            let caps = &self.sensors[i].capabilities;
            let mut k: usize = 0;
            while k < caps.len()
                invariant
                    0 <= i < self.sensors@.len(),
                    *caps == self.sensors@[i as int].capabilities,
                    forall|j: int|
                        0 <= j < i ==> !(#[trigger] self.sensors@[j]).capabilities@.contains(c),
                    0 <= k <= caps@.len(),
                    forall|m: int| 0 <= m < k ==> caps@[m] != c,
                decreases caps@.len() - k,
            {
                if caps[k] == c {
                    assert(caps@[k as int] == c);
                    assert(self.spec_sensors()[i as int].capabilities@.contains(c));
                    return Some(i);
                }
                k = k + 1;
            }
            i = i + 1;
        }
        None
    }

    /// The position of the first sensor with capability `Color`.
    pub fn first_color_sensor(&self) -> (r: Option<usize>)
        ensures
            r is None <==> forall|j: int|
                0 <= j < self.spec_sensors().len() ==> !(
                #[trigger] self.spec_sensors()[j]).capabilities@.contains(SensorCapability::Color),
            r matches Some(i) ==> is_first_sensor(
                self.spec_sensors(),
                SensorCapability::Color,
                i as int,
            ),
    {
        self.first_sensor_with(SensorCapability::Color)
    }

    /// The position of the first sensor with capability `Depth`.
    pub fn first_depth_sensor(&self) -> (r: Option<usize>)
        ensures
            r is None <==> forall|j: int|
                0 <= j < self.spec_sensors().len() ==> !(
                #[trigger] self.spec_sensors()[j]).capabilities@.contains(SensorCapability::Depth),
            r matches Some(i) ==> is_first_sensor(
                self.spec_sensors(),
                SensorCapability::Depth,
                i as int,
            ),
    {
        self.first_sensor_with(SensorCapability::Depth)
    }

    /// The position of the first sensor with capability `DepthStereo`.
    pub fn first_depth_stereo_sensor(&self) -> (r: Option<usize>)
        ensures
            r is None <==> forall|j: int|
                0 <= j < self.spec_sensors().len() ==> !(
                #[trigger] self.spec_sensors()[j]).capabilities@.contains(SensorCapability::DepthStereo),
            r matches Some(i) ==> is_first_sensor(
                self.spec_sensors(),
                SensorCapability::DepthStereo,
                i as int,
            ),
    {
        self.first_sensor_with(SensorCapability::DepthStereo)
    }

    /// The position of the first sensor with capability `FishEye`.
    pub fn first_fish_eye_sensor(&self) -> (r: Option<usize>)
        ensures
            r is None <==> forall|j: int|
                0 <= j < self.spec_sensors().len() ==> !(
                #[trigger] self.spec_sensors()[j]).capabilities@.contains(SensorCapability::FishEye),
            r matches Some(i) ==> is_first_sensor(
                self.spec_sensors(),
                SensorCapability::FishEye,
                i as int,
            ),
    {
        self.first_sensor_with(SensorCapability::FishEye)
    }

    /// The position of the first sensor with capability `L500Depth`.
    pub fn first_l500_depth_sensor(&self) -> (r: Option<usize>)
        ensures
            r is None <==> forall|j: int|
                0 <= j < self.spec_sensors().len() ==> !(
                #[trigger] self.spec_sensors()[j]).capabilities@.contains(SensorCapability::L500Depth),
            r matches Some(i) ==> is_first_sensor(
                self.spec_sensors(),
                SensorCapability::L500Depth,
                i as int,
            ),
    {
        self.first_sensor_with(SensorCapability::L500Depth)
    }

    /// The position of the first sensor with capability `Motion`.
    pub fn first_motion_sensor(&self) -> (r: Option<usize>)
        ensures
            r is None <==> forall|j: int|
                0 <= j < self.spec_sensors().len() ==> !(
                #[trigger] self.spec_sensors()[j]).capabilities@.contains(SensorCapability::Motion),
            r matches Some(i) ==> is_first_sensor(
                self.spec_sensors(),
                SensorCapability::Motion,
                i as int,
            ),
    {
        self.first_sensor_with(SensorCapability::Motion)
    }

    /// The position of the first sensor with capability `Pose`.
    pub fn first_pose_sensor(&self) -> (r: Option<usize>)
        ensures
            r is None <==> forall|j: int|
                0 <= j < self.spec_sensors().len() ==> !(
                #[trigger] self.spec_sensors()[j]).capabilities@.contains(SensorCapability::Pose),
            r matches Some(i) ==> is_first_sensor(
                self.spec_sensors(),
                SensorCapability::Pose,
                i as int,
            ),
    {
        self.first_sensor_with(SensorCapability::Pose)
    }

    /// The position of the first sensor with capability `Software`.
    pub fn first_software_sensor(&self) -> (r: Option<usize>)
        ensures
            r is None <==> forall|j: int|
                0 <= j < self.spec_sensors().len() ==> !(
                #[trigger] self.spec_sensors()[j]).capabilities@.contains(SensorCapability::Software),
            r matches Some(i) ==> is_first_sensor(
                self.spec_sensors(),
                SensorCapability::Software,
                i as int,
            ),
    {
        self.first_sensor_with(SensorCapability::Software)
    }

    /// The position of the first sensor with capability `Tm2`.
    pub fn first_tm2_sensor(&self) -> (r: Option<usize>)
        ensures
            r is None <==> forall|j: int|
                0 <= j < self.spec_sensors().len() ==> !(
                #[trigger] self.spec_sensors()[j]).capabilities@.contains(SensorCapability::Tm2),
            r matches Some(i) ==> is_first_sensor(
                self.spec_sensors(),
                SensorCapability::Tm2,
                i as int,
            ),
    {
        self.first_sensor_with(SensorCapability::Tm2)
    }
}

} // verus!
