use realsense_rust::config::{Config, StreamRequest};
use realsense_rust::error::ErrorKind;
use realsense_rust::kind::{Format, StreamKind};

#[test]
fn same_stream_request_overwrites_in_place() {
    let mut config = Config::new();
    config.enable_stream(StreamKind::Color, Some(0), 640, 480, Format::Rgb8, 30).unwrap();
    config.enable_stream(StreamKind::Depth, Some(0), 640, 480, Format::Z16, 30).unwrap();
    config.enable_stream(StreamKind::Color, Some(0), 1280, 720, Format::Rgba8, 15).unwrap();
    let reqs = config.requests();
    assert_eq!(reqs.len(), 2);
    assert_eq!(
        reqs[0],
        StreamRequest { stream: StreamKind::Color, index: Some(0), width: 1280, height: 720, format: Format::Rgba8, framerate: 15 }
    );
    assert_eq!(reqs[1].stream, StreamKind::Depth);
}

#[test]
fn different_index_is_another_stream() {
    let mut config = Config::new();
    config.enable_stream(StreamKind::Infrared, Some(1), 0, 0, Format::Y8, 30).unwrap();
    config.enable_stream(StreamKind::Infrared, Some(2), 0, 0, Format::Y8, 30).unwrap();
    config.enable_stream(StreamKind::Infrared, None, 0, 0, Format::Y8, 30).unwrap();
    assert_eq!(config.requests().len(), 3);
}

#[test]
fn oversized_request_is_invalid_value() {
    let mut config = Config::new();
    let err = config.enable_stream(StreamKind::Color, None, 1usize << 31, 0, Format::Any, 0).unwrap_err();
    assert_eq!(err.kind, ErrorKind::InvalidValue);
    assert!(config.requests().is_empty());
    assert!(config.enable_stream(StreamKind::Color, None, 2147483647, 0, Format::Any, 0).is_ok());
}

#[test]
fn disable_all_streams_clears_requests() {
    let mut config = Config::new();
    config.enable_all_streams();
    config.enable_stream(StreamKind::Color, None, 0, 0, Format::Any, 0).unwrap();
    config.disable_all_streams();
    assert!(config.requests().is_empty());
    assert!(!config.all_streams());
}

#[test]
fn serial_is_kept() {
    let mut config = Config::new();
    assert_eq!(config.serial(), None);
    config.enable_device_from_serial("827312070");
    assert_eq!(config.serial(), Some("827312070"));
}
