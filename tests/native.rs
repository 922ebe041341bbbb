use realsense_rust::device::{Device, InfoEntry, SensorCapability, SensorInfo};
use realsense_rust::error::{category_from_native, check_native, ErrorKind, NativeError};
use realsense_rust::kind::{CameraInfo, Extension, Format, StreamKind};

#[test]
fn native_codes_round_trip() {
    assert_eq!(StreamKind::from_code(2), Some(StreamKind::Color));
    assert_eq!(StreamKind::Depth.code(), 1);
    assert_eq!(StreamKind::from_code(11), None);
    assert_eq!(Format::from_code(7), Some(Format::Rgba8));
    assert_eq!(Format::MotionXyz32F.code(), 16);
    assert_eq!(Format::from_code(34), None);
    assert_eq!(CameraInfo::ProductLine.code(), 10);
    assert_eq!(Extension::DepthFrame.code(), 12);
    assert_eq!(Extension::from_code(13), None);
}

#[test]
fn guard_passes_values_and_categorises_errors() {
    assert_eq!(check_native(5u32, None).unwrap(), 5);
    let err = check_native(5u32, Some(NativeError { code: 3, message: "bad".to_string() })).unwrap_err();
    assert_eq!(err.kind, ErrorKind::InvalidValue);
    assert_eq!(err.message(), "bad");
    assert_eq!(category_from_native(5), ErrorKind::NotImplemented);
    assert_eq!(category_from_native(7), ErrorKind::Io);
    assert_eq!(category_from_native(0), ErrorKind::Unknown);
    assert_eq!(category_from_native(99), ErrorKind::Unknown);
}

fn entry(field: CameraInfo, value: &str) -> InfoEntry {
    InfoEntry { field, value: value.to_string() }
}

#[test]
fn device_info_table() {
    let device = Device::new(
        42,
        vec![entry(CameraInfo::Name, "Depth Camera"), entry(CameraInfo::SerialNumber, "0001"), entry(CameraInfo::ProductLine, "D400")],
        vec![],
    )
    .unwrap();
    assert_eq!(device.name(), Some("Depth Camera"));
    assert_eq!(device.serial_number(), Some("0001"));
    assert_eq!(device.product_line(), Some("D400"));
    assert_eq!(device.firmware_update_id(), None);
    assert!(device.is_info_supported(CameraInfo::Name));
    assert!(!device.is_info_supported(CameraInfo::CameraLocked));
    assert_eq!(device.into_raw(), 42);
}

#[test]
fn duplicate_info_field_is_invalid_value() {
    let err = Device::new(1, vec![entry(CameraInfo::Name, "a"), entry(CameraInfo::Name, "b")], vec![]).unwrap_err();
    assert_eq!(err.kind, ErrorKind::InvalidValue);
}

#[test]
fn first_sensor_of_each_capability() {
    let device = Device::new(
        1,
        vec![],
        vec![
            SensorInfo { capabilities: vec![SensorCapability::Depth, SensorCapability::DepthStereo] },
            SensorInfo { capabilities: vec![SensorCapability::Color] },
            SensorInfo { capabilities: vec![SensorCapability::Motion] },
            SensorInfo { capabilities: vec![SensorCapability::Color] },
        ],
    )
    .unwrap();
    assert_eq!(device.first_depth_sensor(), Some(0));
    assert_eq!(device.first_depth_stereo_sensor(), Some(0));
    assert_eq!(device.first_color_sensor(), Some(1));
    assert_eq!(device.first_motion_sensor(), Some(2));
    assert_eq!(device.first_pose_sensor(), None);
    assert_eq!(device.sensors().len(), 4);
}
