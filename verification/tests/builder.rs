use cv_camstream::builder::{
    format_from_fourcc, BuildAction, BuildCall, BuildEvent, CamStreamBuilder, ImageFormat,
    ParamsFile, Rectifiable, StereoStreamBuilder, FIELD_NONE,
};
use cv_camstream::camstream::Side;
use cv_camstream::error::Error;
use cv_camstream::rectification::{RectifParams, StereoRectifParams};

fn params(k1: Option<f64>) -> RectifParams {
    RectifParams {
        focals: [700.0f64.to_bits(), 710.0f64.to_bits()],
        principal_point: [320.0f64.to_bits(), 240.0f64.to_bits()],
        skew: 0.0f64.to_bits(),
        k1: k1.map(f64::to_bits),
    }
}

fn stereo_params() -> StereoRectifParams {
    StereoRectifParams { left: params(None), right: params(Some(-0.1)) }
}

fn ready() -> StereoStreamBuilder {
    CamStreamBuilder::new()
        .stereo()
        .left_path("/dev/video0".to_string(), true)
        .unwrap()
        .right_path("/dev/video2".to_string(), true)
        .unwrap()
        .rectif_params(stereo_params())
        .interval((1, 30))
        .resolution((640, 480))
        .format(b"MJPG")
        .unwrap()
}

#[test]
fn mono_builder_starts_from_camera_defaults() {
    let builder = CamStreamBuilder::new().mono();
    assert_eq!(builder.path, None);
    assert!(builder.rectif_params.is_none());
    assert_eq!(builder.config.interval, (1, 10));
    assert_eq!(builder.config.resolution, (640, 480));
    assert_eq!(builder.config.format, b"YUYV".to_vec());
    assert_eq!(builder.config.field, FIELD_NONE);
    assert_eq!(builder.config.field, 1);
    assert_eq!(builder.config.nbuffers, 2);
}

#[test]
fn stereo_builder_starts_from_camera_defaults() {
    let builder = CamStreamBuilder::new().stereo();
    assert_eq!(builder.left_path, None);
    assert_eq!(builder.right_path, None);
    assert!(builder.rectif_params.is_none());
    assert!(builder.img_format.is_none());
    for config in [&builder.left_config, &builder.right_config] {
        assert_eq!(config.interval, (1, 10));
        assert_eq!(config.resolution, (640, 480));
        assert_eq!(config.format, b"YUYV".to_vec());
        assert_eq!(config.field, FIELD_NONE);
        assert_eq!(config.nbuffers, 2);
    }
}

#[test]
fn only_mjpg_has_a_decoder() {
    assert_eq!(format_from_fourcc(b"MJPG"), Some(ImageFormat::Jpeg));
    assert_eq!(format_from_fourcc(b"YUYV"), None);
    assert_eq!(format_from_fourcc(b"mjpg"), None);
    assert_eq!(format_from_fourcc(b"MJP"), None);
    assert_eq!(format_from_fourcc(b"MJPGX"), None);
    assert_eq!(format_from_fourcc(b"MJPH"), None);
    assert_eq!(format_from_fourcc(b"NJPG"), None);
    assert_eq!(format_from_fourcc(b""), None);
    assert_eq!(format_from_fourcc(&[0xFF, 0xFE, 0x00, 0x80]), None);
}

#[test]
fn mono_path_is_kept_if_it_exists() {
    let builder = CamStreamBuilder::new().mono().path("/dev/video0".to_string(), true).unwrap();
    assert_eq!(builder.path.as_deref(), Some("/dev/video0"));
    assert_eq!(builder.config.interval, (1, 10));
}

#[test]
fn mono_path_is_refused_if_nothing_is_there() {
    match CamStreamBuilder::new().mono().path("/dev/video9".to_string(), false) {
        Err(Error::FileNotFound(path)) => assert_eq!(path, "/dev/video9"),
        other => panic!("expected FileNotFound, got {:?}", other),
    }
}

#[test]
fn mono_setters_change_one_field_each() {
    let builder = CamStreamBuilder::new()
        .mono()
        .interval((1, 30))
        .resolution((1280, 720))
        .format(b"MJPG")
        .field(4)
        .num_buffers(8);
    assert_eq!(builder.config.interval, (1, 30));
    assert_eq!(builder.config.resolution, (1280, 720));
    assert_eq!(builder.config.format, b"MJPG".to_vec());
    assert_eq!(builder.config.field, 4);
    assert_eq!(builder.config.nbuffers, 8);
    assert_eq!(builder.path, None);
    assert!(builder.rectif_params.is_none());

    let builder = CamStreamBuilder::new().mono().resolution((320, 240));
    assert_eq!(builder.config.interval, (1, 10));
    assert_eq!(builder.config.resolution, (320, 240));
    assert_eq!(builder.config.format, b"YUYV".to_vec());
    assert_eq!(builder.config.nbuffers, 2);
}

#[test]
fn mono_format_takes_any_code() {
    let builder = CamStreamBuilder::new().mono().format(&[0xFF, 0x00]);
    assert_eq!(builder.config.format, vec![0xFF, 0x00]);
}

#[test]
fn mono_rectif_params() {
    let builder = CamStreamBuilder::new().mono().interval((1, 5)).rectif_params(params(Some(0.3)));
    assert_eq!(builder.rectif_params, Some(params(Some(0.3))));
    assert_eq!(builder.config.interval, (1, 5));
    assert_eq!(builder.path, None);
}

#[test]
fn params_file_missing() {
    let r = CamStreamBuilder::new()
        .mono()
        .rectif_params_from_file("res/none.toml".to_string(), ParamsFile::Missing);
    match r {
        Err(Error::FileNotFound(path)) => assert_eq!(path, "res/none.toml"),
        other => panic!("expected FileNotFound, got {:?}", other),
    }
}

#[test]
fn params_file_unreadable() {
    let r = CamStreamBuilder::new().stereo().rectif_params_from_file(
        "res/bad.toml".to_string(),
        ParamsFile::Unreadable("missing field `skew`".to_string()),
    );
    match r {
        Err(Error::DeserialisationError(report)) => assert_eq!(report, "missing field `skew`"),
        other => panic!("expected DeserialisationError, got {:?}", other),
    }
}

#[test]
fn params_file_loaded() {
    let builder = CamStreamBuilder::new()
        .mono()
        .rectif_params_from_file("res/video0.toml".to_string(), ParamsFile::Loaded(params(None)))
        .unwrap();
    assert_eq!(builder.rectif_params, Some(params(None)));

    let builder = CamStreamBuilder::new()
        .stereo()
        .resolution((320, 240))
        .rectif_params_from_file("res/stereo.toml".to_string(), ParamsFile::Loaded(stereo_params()))
        .unwrap();
    assert_eq!(builder.rectif_params, Some(stereo_params()));
    assert_eq!(builder.left_config.resolution, (320, 240));
}

#[test]
fn stereo_paths() {
    let builder = CamStreamBuilder::new()
        .stereo()
        .left_path("/dev/video2".to_string(), true)
        .unwrap()
        .right_path("/dev/video4".to_string(), true)
        .unwrap();
    assert_eq!(builder.left_path.as_deref(), Some("/dev/video2"));
    assert_eq!(builder.right_path.as_deref(), Some("/dev/video4"));

    match CamStreamBuilder::new().stereo().left_path("/dev/l".to_string(), false) {
        Err(Error::FileNotFound(path)) => assert_eq!(path, "/dev/l"),
        other => panic!("expected FileNotFound, got {:?}", other),
    }
    match CamStreamBuilder::new().stereo().right_path("/dev/r".to_string(), false) {
        Err(Error::FileNotFound(path)) => assert_eq!(path, "/dev/r"),
        other => panic!("expected FileNotFound, got {:?}", other),
    }
}

#[test]
fn stereo_setters_apply_to_both_cameras() {
    let builder = CamStreamBuilder::new()
        .stereo()
        .interval((1, 30))
        .resolution((1280, 720))
        .field(4)
        .num_buffers(8);
    for config in [&builder.left_config, &builder.right_config] {
        assert_eq!(config.interval, (1, 30));
        assert_eq!(config.resolution, (1280, 720));
        assert_eq!(config.format, b"YUYV".to_vec());
        assert_eq!(config.field, 4);
        assert_eq!(config.nbuffers, 8);
    }
    assert!(builder.img_format.is_none());
}

#[test]
fn stereo_format_sets_the_decoder() {
    let builder = CamStreamBuilder::new().stereo().interval((1, 30)).format(b"MJPG").unwrap();
    assert_eq!(builder.img_format, Some(ImageFormat::Jpeg));
    assert_eq!(builder.left_config.format, b"MJPG".to_vec());
    assert_eq!(builder.right_config.format, b"MJPG".to_vec());
    assert_eq!(builder.left_config.interval, (1, 30));
    assert_eq!(builder.right_config.resolution, (640, 480));
}

#[test]
fn stereo_format_refuses_codes_without_decoder() {
    match CamStreamBuilder::new().stereo().format(b"YUYV") {
        Err(Error::ImageFormatError(code)) => assert_eq!(code, b"YUYV".to_vec()),
        other => panic!("expected ImageFormatError, got {:?}", other),
    }
    match CamStreamBuilder::new().stereo().format(&[0xC3, 0x28, 0xA0, 0xA1]) {
        Err(Error::ImageFormatError(code)) => assert_eq!(code, vec![0xC3, 0x28, 0xA0, 0xA1]),
        other => panic!("expected ImageFormatError, got {:?}", other),
    }
}

#[test]
fn build_without_paths_fails_at_once() {
    for builder in [
        CamStreamBuilder::new().stereo(),
        CamStreamBuilder::new().stereo().left_path("/dev/video0".to_string(), true).unwrap(),
        CamStreamBuilder::new().stereo().right_path("/dev/video2".to_string(), true).unwrap(),
        CamStreamBuilder::new().stereo().format(b"MJPG").unwrap(),
    ] {
        match builder.build() {
            (BuildCall::Returned, BuildAction::Fail(Error::CamStreamBuildError(report))) => {
                assert_eq!(report, "Missing camera path")
            }
            other => panic!("expected a build error, got {:?}", other),
        }
    }
}

#[test]
fn build_opens_and_starts_left_then_right() {
    let (call, action) = ready().build();
    match action {
        BuildAction::Open(Side::Left, path) => assert_eq!(path, "/dev/video0"),
        other => panic!("expected Open left, got {:?}", other),
    }
    assert!(call.takes(&BuildEvent::Opened(Ok(()))));
    assert!(!call.takes(&BuildEvent::Started(Ok(()))));
    let (call, action) = call.step(BuildEvent::Opened(Ok(())));
    match action {
        BuildAction::Open(Side::Right, path) => assert_eq!(path, "/dev/video2"),
        other => panic!("expected Open right, got {:?}", other),
    }
    let (call, action) = call.step(BuildEvent::Opened(Ok(())));
    match action {
        BuildAction::Start(Side::Left, config) => {
            assert_eq!(config.interval, (1, 30));
            assert_eq!(config.resolution, (640, 480));
            assert_eq!(config.format, b"MJPG".to_vec());
            assert_eq!(config.field, FIELD_NONE);
            assert_eq!(config.nbuffers, 2);
        }
        other => panic!("expected Start left, got {:?}", other),
    }
    assert!(!call.takes(&BuildEvent::Opened(Ok(()))));
    let (call, action) = call.step(BuildEvent::Started(Ok(())));
    match action {
        BuildAction::Start(Side::Right, config) => {
            assert_eq!(config.interval, (1, 30));
            assert_eq!(config.format, b"MJPG".to_vec());
        }
        other => panic!("expected Start right, got {:?}", other),
    }
    assert!(call.takes(&BuildEvent::Started(Ok(()))));
    let (call, action) = call.step(BuildEvent::Started(Ok(())));
    match action {
        BuildAction::Stream { img_format, rectif_params } => {
            assert_eq!(img_format, ImageFormat::Jpeg);
            assert_eq!(rectif_params, Some(stereo_params()));
        }
        other => panic!("expected Stream, got {:?}", other),
    }
    assert!(matches!(call, BuildCall::Returned));
    assert!(!call.takes(&BuildEvent::Opened(Ok(()))));
    assert!(!call.takes(&BuildEvent::Started(Ok(()))));
}

#[test]
fn camera_that_cannot_be_opened_fails_the_build() {
    let (call, _) = ready().build();
    let (call, action) = call.step(BuildEvent::Opened(Err("No such device".to_string())));
    match action {
        BuildAction::Fail(Error::CamStreamBuildError(report)) => {
            assert_eq!(report, "No such device")
        }
        other => panic!("expected a build error, got {:?}", other),
    }
    assert!(matches!(call, BuildCall::Returned));

    let (call, _) = ready().build();
    let (call, _) = call.step(BuildEvent::Opened(Ok(())));
    let (_, action) = call.step(BuildEvent::Opened(Err("Permission denied".to_string())));
    match action {
        BuildAction::Fail(Error::CamStreamBuildError(report)) => {
            assert_eq!(report, "Permission denied")
        }
        other => panic!("expected a build error, got {:?}", other),
    }
}

#[test]
fn camera_that_cannot_be_started_fails_the_build() {
    let (call, _) = ready().build();
    let (call, _) = call.step(BuildEvent::Opened(Ok(())));
    let (call, _) = call.step(BuildEvent::Opened(Ok(())));
    let (call, action) = call.step(BuildEvent::Started(Err("bad format".to_string())));
    match action {
        BuildAction::Fail(Error::CamStartError(report)) => assert_eq!(report, "bad format"),
        other => panic!("expected a start error, got {:?}", other),
    }
    assert!(matches!(call, BuildCall::Returned));

    let (call, _) = ready().build();
    let (call, _) = call.step(BuildEvent::Opened(Ok(())));
    let (call, _) = call.step(BuildEvent::Opened(Ok(())));
    let (call, _) = call.step(BuildEvent::Started(Ok(())));
    let (_, action) = call.step(BuildEvent::Started(Err("bad interval".to_string())));
    match action {
        BuildAction::Fail(Error::CamStartError(report)) => assert_eq!(report, "bad interval"),
        other => panic!("expected a start error, got {:?}", other),
    }
}

#[test]
fn build_without_decoder_fails_before_any_camera_is_opened() {
    // no encoding was ever chosen: the cameras are still set to the default
    let builder = CamStreamBuilder::new()
        .stereo()
        .left_path("/dev/video0".to_string(), true)
        .unwrap()
        .right_path("/dev/video2".to_string(), true)
        .unwrap()
        .rectif_params(stereo_params());
    match builder.build() {
        (BuildCall::Returned, BuildAction::Fail(Error::ImageFormatError(code))) => {
            assert_eq!(code, b"YUYV".to_vec())
        }
        other => panic!("expected an unsupported format, got {:?}", other),
    }
}

#[test]
fn build_after_a_refused_encoding_still_lacks_a_decoder() {
    let builder = CamStreamBuilder::new()
        .stereo()
        .left_path("/dev/video0".to_string(), true)
        .unwrap()
        .right_path("/dev/video2".to_string(), true)
        .unwrap();
    assert!(matches!(
        CamStreamBuilder::new().stereo().format(b"RGB3"),
        Err(Error::ImageFormatError(_))
    ));
    let (call, action) = builder.build();
    assert!(matches!(call, BuildCall::Returned));
    assert!(matches!(action, BuildAction::Fail(Error::ImageFormatError(_))));
    assert!(!call.takes(&BuildEvent::Opened(Ok(()))));
    assert!(!call.takes(&BuildEvent::Started(Ok(()))));
}

#[test]
fn missing_path_is_reported_before_missing_decoder() {
    let builder =
        CamStreamBuilder::new().stereo().left_path("/dev/video0".to_string(), true).unwrap();
    match builder.build() {
        (BuildCall::Returned, BuildAction::Fail(Error::CamStreamBuildError(report))) => {
            assert_eq!(report, "Missing camera path")
        }
        other => panic!("expected a build error, got {:?}", other),
    }
}

/// Test that mono builders work corectly
#[test]
fn test_mono() {
    let builder = CamStreamBuilder::new()
        .mono()
        .path("/dev/video0".to_string(), true)
        .expect("Cannot open /dev/video0")
        .rectif_params_from_file(
            "res/video0_rectif_params.toml".to_string(),
            ParamsFile::Loaded(params(None)),
        )
        .expect("Cannot load the rectification parameters");
    assert_eq!(builder.path.as_deref(), Some("/dev/video0"));
    assert_eq!(builder.rectif_params, Some(params(None)));
}

/// Test that stereo builders work correctly
#[test]
fn test_stereo() {
    let builder = CamStreamBuilder::new()
        .stereo()
        .left_path("/dev/video2".to_string(), true)
        .expect("Cannot open left camera")
        .right_path("/dev/video4".to_string(), true)
        .expect("Cannot open right camera")
        .rectif_params_from_file(
            "res/stereo_bench_rectif_params.toml".to_string(),
            ParamsFile::Loaded(stereo_params()),
        )
        .expect("Cannot load recticiation parameters");
    assert_eq!(builder.left_path.as_deref(), Some("/dev/video2"));
    assert_eq!(builder.right_path.as_deref(), Some("/dev/video4"));
    assert_eq!(builder.rectif_params, Some(stereo_params()));
}
