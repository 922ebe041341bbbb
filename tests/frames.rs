use realsense_rust::base::{ImageKind, Resolution, StreamProfileData};
use realsense_rust::error::ErrorKind;
use realsense_rust::frame::{ExtendedFrame, Frame, FrameData};
use realsense_rust::kind::{Extension, Format, StreamKind};

fn depth_data(w: usize, h: usize, handle: usize, exts: Vec<Extension>) -> FrameData {
    let mut data = Vec::new();
    for y in 0..h {
        for x in 0..w {
            let v = (y * w + x) as u16;
            data.push((v & 0xff) as u8);
            data.push((v >> 8) as u8);
        }
    }
    FrameData {
        handle,
        extensions: exts,
        number: 7,
        profile: StreamProfileData { stream: StreamKind::Depth, format: Format::Z16, index: 0, unique_id: 1, framerate: 30 },
        resolution: Resolution { width: w, height: h },
        stride: 2 * w,
        bits_per_pixel: 16,
        depth_units_um: 1000,
        data,
    }
}

fn extend(d: FrameData) -> ExtendedFrame {
    Frame::new(d).unwrap().try_extend().unwrap()
}

#[test]
fn narrowing_keeps_the_native_frame() {
    let f = extend(depth_data(4, 3, 0xbeef, vec![Extension::VideoFrame, Extension::DepthFrame]));
    assert_eq!(f.tag(), Extension::DepthFrame);
    match f {
        ExtendedFrame::Depth(d) => {
            assert_eq!(d.handle(), 0xbeef);
            assert_eq!(d.number(), 7);
            assert_eq!(d.resolution(), Resolution { width: 4, height: 3 });
            assert_eq!(d.pixels().len(), 24);
            assert_eq!(d.pixels()[2], 1);
        }
        other => panic!("unexpected kind {:?}", other.tag()),
    }
}

#[test]
fn each_known_tag_narrows_to_its_kind() {
    let tags = [
        Extension::VideoFrame,
        Extension::MotionFrame,
        Extension::CompositeFrame,
        Extension::Points,
        Extension::DepthFrame,
        Extension::DisparityFrame,
        Extension::PoseFrame,
    ];
    for t in tags {
        let f = extend(depth_data(2, 2, 1, vec![t]));
        assert_eq!(f.tag(), t);
    }
}

#[test]
fn disparity_wins_over_depth_and_video() {
    let f = extend(depth_data(2, 2, 1, vec![Extension::VideoFrame, Extension::DepthFrame, Extension::DisparityFrame]));
    assert!(matches!(f, ExtendedFrame::Disparity(_)));
    let f = extend(depth_data(2, 2, 1, vec![Extension::VideoFrame]));
    assert!(matches!(f, ExtendedFrame::Video(_)));
}

#[test]
fn unknown_tag_is_unsupported_extension() {
    let err = Frame::new(depth_data(2, 2, 1, vec![])).unwrap().try_extend().unwrap_err();
    assert_eq!(err.kind, ErrorKind::UnsupportedExtension);
}

#[test]
fn distance_inside_and_outside_the_frame() {
    let f = extend(depth_data(4, 3, 1, vec![Extension::DepthFrame]));
    let ExtendedFrame::Depth(d) = f else { panic!("not a depth frame") };
    // sample at (1, 2) is 2 * 4 + 1 = 9 units of 1000 micrometres
    assert_eq!(d.distance(1, 2).unwrap(), 9000);
    assert_eq!(d.distance(0, 0).unwrap(), 0);
    assert_eq!(d.distance(3, 2).unwrap(), 11000);
    assert_eq!(d.distance(4, 0).unwrap_err().kind, ErrorKind::OutOfBounds);
    assert_eq!(d.distance(0, 3).unwrap_err().kind, ErrorKind::OutOfBounds);
    assert_eq!(d.distance(usize::MAX, usize::MAX).unwrap_err().kind, ErrorKind::OutOfBounds);
}

#[test]
fn distance_on_a_one_pixel_frame() {
    let mut data = depth_data(1, 1, 1, vec![Extension::DepthFrame]);
    data.data = vec![0x34, 0x12];
    data.depth_units_um = 250;
    let ExtendedFrame::Depth(d) = extend(data) else { panic!("not a depth frame") };
    assert_eq!(d.distance(0, 0).unwrap(), 0x1234 * 250);
    assert_eq!(d.distance(1, 0).unwrap_err().kind, ErrorKind::OutOfBounds);
    assert_eq!(d.distance(0, 1).unwrap_err().kind, ErrorKind::OutOfBounds);
}

#[test]
fn distance_on_the_largest_resolution() {
    let ExtendedFrame::Depth(d) = extend(depth_data(1280, 720, 1, vec![Extension::DepthFrame])) else {
        panic!("not a depth frame")
    };
    let expected = ((719 * 1280 + 1279) as u16) as u64 * 1000;
    assert_eq!(d.distance(1279, 719).unwrap(), expected);
    assert_eq!(d.distance(1280, 719).unwrap_err().kind, ErrorKind::OutOfBounds);
    assert_eq!(d.distance(1279, 720).unwrap_err().kind, ErrorKind::OutOfBounds);
}

#[test]
fn depth_frames_need_sixteen_bit_pixels() {
    for tag in [Extension::DepthFrame, Extension::DisparityFrame] {
        let mut data = depth_data(2, 2, 1, vec![Extension::VideoFrame, tag]);
        data.bits_per_pixel = 8;
        let err = Frame::new(data).unwrap().try_extend().unwrap_err();
        assert_eq!(err.kind, ErrorKind::InvalidLayout);
    }
    let mut data = depth_data(2, 2, 1, vec![Extension::VideoFrame]);
    data.bits_per_pixel = 8;
    assert!(matches!(extend(data), ExtendedFrame::Video(_)));
}

#[test]
fn short_buffer_is_invalid_layout() {
    let mut data = depth_data(4, 3, 1, vec![Extension::DepthFrame]);
    data.data.pop();
    assert_eq!(Frame::new(data).unwrap_err().kind, ErrorKind::InvalidLayout);
    let mut data = depth_data(4, 3, 1, vec![Extension::DepthFrame]);
    data.stride = 7;
    assert_eq!(Frame::new(data).unwrap_err().kind, ErrorKind::InvalidLayout);
    let mut data = depth_data(4, 3, 1, vec![Extension::DepthFrame]);
    data.resolution.height = usize::MAX;
    assert_eq!(Frame::new(data).unwrap_err().kind, ErrorKind::InvalidLayout);
}

#[test]
fn image_layout_follows_the_format() {
    let ExtendedFrame::Depth(d) = extend(depth_data(2, 2, 1, vec![Extension::DepthFrame])) else {
        panic!("not a depth frame")
    };
    assert_eq!(d.image_kind(), Some(ImageKind::Luma16));
    assert_eq!(ImageKind::Rgba8.bytes_per_pixel(), 4);
    assert_eq!(ImageKind::Bgr8.bytes_per_pixel(), 3);
    assert_eq!(realsense_rust::base::image_kind(Format::Bgra8), Some(ImageKind::Bgra8));
    assert_eq!(realsense_rust::base::image_kind(Format::Yuyv), None);
}
