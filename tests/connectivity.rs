use realsense_rust::base::{Resolution, StreamProfile, StreamProfileData};
use realsense_rust::config::Config;
use realsense_rust::kind::{Format, StreamKind};
use realsense_rust::resolve::{can_resolve, find_first_match, meets_requests, resolve, ResolveAnswer};

fn profile(stream: StreamKind, index: usize, format: Format, w: usize, h: usize, fps: i32, id: i32) -> StreamProfile {
    StreamProfile {
        data: StreamProfileData { stream, format, index, unique_id: id, framerate: fps },
        resolution: Resolution { width: w, height: h },
    }
}

fn d400_streams() -> Vec<StreamProfile> {
    vec![
        profile(StreamKind::Depth, 0, Format::Z16, 848, 480, 30, 1),
        profile(StreamKind::Color, 0, Format::Rgba8, 1280, 720, 30, 3),
        profile(StreamKind::Infrared, 1, Format::Y8, 848, 480, 30, 5),
        profile(StreamKind::Infrared, 2, Format::Y8, 848, 480, 30, 6),
    ]
}

#[test]
fn can_resolve_all_streams_always() {
    let mut config = Config::new();
    config.enable_all_streams();
    let answer = ResolveAnswer::Resolvable(d400_streams());
    assert!(can_resolve(&answer));
    let resolved = resolve(answer).unwrap();
    assert_eq!(resolved.len(), 4);
    assert!(meets_requests(&config, &resolved));
}

#[test]
fn can_resolve_color_and_depth_and_infrared_on_d400_series() {
    let mut config = Config::new();
    config.enable_device_from_serial("0002");
    config.disable_all_streams();
    config.enable_stream(StreamKind::Color, Some(0), 0, 0, Format::Rgba8, 30).unwrap();
    config.enable_stream(StreamKind::Depth, Some(0), 0, 0, Format::Z16, 30).unwrap();
    config.enable_stream(StreamKind::Infrared, Some(1), 0, 0, Format::Y8, 30).unwrap();
    config.enable_stream(StreamKind::Infrared, Some(2), 0, 0, Format::Any, 30).unwrap();

    let answer = ResolveAnswer::Resolvable(d400_streams());
    assert!(can_resolve(&answer));
    let resolved = resolve(answer);
    assert!(resolved.is_some());
    assert!(meets_requests(&config, &resolved.unwrap()));
}

#[test]
fn cannot_resolve_bad_config() {
    let mut config = Config::new();
    config.disable_all_streams();
    // Depth should not be able to provide motion data!
    config.enable_stream(StreamKind::Depth, Some(0), 0, 0, Format::MotionXyz32F, 100).unwrap();

    let answer = ResolveAnswer::Unresolvable;
    assert!(!can_resolve(&answer));
    assert!(resolve(answer).is_none());
    // no stream of the device could have met the request either
    assert!(!meets_requests(&config, &d400_streams()));
}

#[test]
fn first_profile_meeting_a_request() {
    let mut config = Config::new();
    config.enable_stream(StreamKind::Infrared, None, 848, 0, Format::Y8, 0).unwrap();
    config.enable_stream(StreamKind::Color, None, 0, 0, Format::Any, 30).unwrap();
    let streams = d400_streams();
    let reqs = config.requests();
    assert_eq!(find_first_match(&reqs[0], &streams), Some(2));
    assert_eq!(find_first_match(&reqs[1], &streams), Some(1));
    assert!(meets_requests(&config, &streams));
}

#[test]
fn all_wildcard_requests_are_met_by_any_stream() {
    let mut config = Config::new();
    config.enable_stream(StreamKind::Any, None, 0, 0, Format::Any, 0).unwrap();
    let one = vec![profile(StreamKind::Gyro, 0, Format::MotionXyz32F, 0, 0, 200, 9)];
    assert!(meets_requests(&config, &one));
    assert_eq!(find_first_match(&config.requests()[0], &one), Some(0));
    assert!(!meets_requests(&config, &vec![]));
}

#[test]
fn mismatched_resolution_or_framerate_is_not_met() {
    let mut config = Config::new();
    config.enable_stream(StreamKind::Depth, Some(0), 640, 480, Format::Z16, 30).unwrap();
    assert!(!meets_requests(&config, &d400_streams()));
    let mut config = Config::new();
    config.enable_stream(StreamKind::Depth, Some(0), 0, 0, Format::Z16, 60).unwrap();
    assert!(!meets_requests(&config, &d400_streams()));
}
