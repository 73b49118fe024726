//! Builders of camera streams.
//!
//! A builder collects where the cameras are, how they are to be configured and
//! how their images are to be rectified. It opens nothing itself: whether a
//! path exists, and what a parameter file held, is told to it, and building a
//! stereo stream is a state machine whose steps say which camera to open or
//! start next.

use vstd::prelude::*;
use vstd::slice::slice_to_vec;
use crate::camstream::Side;
use crate::error::Error;
use crate::rectification::{RectifParams, StereoRectifParams};

verus! {

/// The configuration of one camera.
#[derive(Debug, PartialEq, Eq)]
pub struct Config {
    /// The frame interval, as numerator and denominator.
    pub interval: (u32, u32),
    /// The width and height of a frame.
    pub resolution: (u32, u32),
    /// The FourCC code of the frame encoding.
    pub format: Vec<u8>,
    /// How interlaced video is stored.
    pub field: u32,
    /// The number of buffers in the camera's queue.
    pub nbuffers: u32,
}

/// The field order of progressive video.
pub const FIELD_NONE: u32 = 1;

/// The encodings of a frame that can be decoded into an image.
#[derive(Debug, Clone, Copy, PartialEq, Eq)]
pub enum ImageFormat {
    Jpeg,
}

/// The FourCC code of motion JPEG: the ASCII letters `MJPG`.
pub open spec fn fourcc_mjpg() -> Seq<u8> {
    seq![0x4Du8, 0x4Au8, 0x50u8, 0x47u8]
}

/// The FourCC code of packed YUV 4:2:2: the ASCII letters `YUYV`.
pub open spec fn fourcc_yuyv() -> Seq<u8> {
    seq![0x59u8, 0x55u8, 0x59u8, 0x56u8]
}

/// The decoder for frames of the given FourCC code, if there is one: only
/// `MJPG` has one, and its frames are JPEG images.
pub fn format_from_fourcc(format: &[u8]) -> (decoder: Option<ImageFormat>)
    ensures
        format@ == fourcc_mjpg() ==> decoder == Some(ImageFormat::Jpeg),
        format@ != fourcc_mjpg() ==> decoder is None,
{
    if format.len() == 4 && format[0] == 0x4D && format[1] == 0x4A && format[2] == 0x50
        && format[3] == 0x47 {
        assert(format@ =~= fourcc_mjpg());
        Some(ImageFormat::Jpeg)
    } else {
        None
    }
}

/// The configuration of a camera about which nothing has been said.
///
/// This is `Config::default()` of rscam, copied field by field. Its source
/// gives the values claimed here: ten frames a second, 640 by 480 pixels,
/// `YUYV` frames, progressive video and a queue of two buffers.
#[verifier::external_body]
fn default_config() -> (config: Config)
    ensures
        config.interval == (1u32, 10u32),
        config.resolution == (640u32, 480u32),
        config.format@ == fourcc_yuyv(),
        config.field == FIELD_NONE,
        config.nbuffers == 2,
{
    let config = rscam::Config::default();
    Config {
        interval: config.interval,
        resolution: config.resolution,
        format: config.format.to_vec(),
        field: config.field,
        nbuffers: config.nbuffers,
    }
}

impl Config {
    /// Whether this configuration is `before` with the frame encoding
    /// replaced by `format`.
    pub open spec fn is_with_format(&self, before: &Config, format: Seq<u8>) -> bool {
        &&& self.format@ == format
        &&& self.interval == before.interval
        &&& self.resolution == before.resolution
        &&& self.field == before.field
        &&& self.nbuffers == before.nbuffers
    }

    /// Whether this is the configuration of a camera about which nothing has
    /// been said.
    pub open spec fn is_default(&self) -> bool {
        &&& self.interval == (1u32, 10u32)
        &&& self.resolution == (640u32, 480u32)
        &&& self.format@ == fourcc_yuyv()
        &&& self.field == FIELD_NONE
        &&& self.nbuffers == 2
    }
}

/// Where a builder of any kind of stream starts.
#[derive(Debug)]
pub struct CamStreamBuilder {}

/// The builder of a stream from one camera.
#[derive(Debug)]
pub struct MonoStreamBuilder {
    /// The camera's device path.
    pub path: Option<String>,
    /// How to rectify the camera's images, if at all.
    pub rectif_params: Option<RectifParams>,
    /// The camera's configuration.
    pub config: Config,
}

/// The builder of a stream from a stereo pair.
#[derive(Debug)]
pub struct StereoStreamBuilder {
    /// The left camera's device path.
    pub left_path: Option<String>,
    /// The right camera's device path.
    pub right_path: Option<String>,
    /// How to rectify the two cameras' images, if at all.
    pub rectif_params: Option<StereoRectifParams>,
    /// The decoder of the cameras' frames, once a format has been chosen.
    pub img_format: Option<ImageFormat>,
    /// The left camera's configuration.
    pub left_config: Config,
    /// The right camera's configuration.
    pub right_config: Config,
}

impl CamStreamBuilder {
    /// A builder that has not yet been told what kind of stream to build.
    pub fn new() -> (builder: Self)
        ensures
            builder == (CamStreamBuilder {  }),
    {
        CamStreamBuilder {  }
    }

    /// A builder of a mono stream: no path, no rectification, the default
    /// configuration.
    pub fn mono(self) -> (builder: MonoStreamBuilder)
        ensures
            builder.path is None,
            builder.rectif_params is None,
            builder.config.is_default(),
    {
        MonoStreamBuilder { path: None, rectif_params: None, config: default_config() }
    }

    /// A builder of a stereo stream: no paths, no rectification, no decoder,
    /// the default configuration for both cameras.
    pub fn stereo(self) -> (builder: StereoStreamBuilder)
        ensures
            builder.left_path is None,
            builder.right_path is None,
            builder.rectif_params is None,
            builder.img_format is None,
            builder.left_config.is_default(),
            builder.right_config.is_default(),
    {
        StereoStreamBuilder {
            left_path: None,
            right_path: None,
            rectif_params: None,
            img_format: None,
            left_config: default_config(),
            right_config: default_config(),
        }
    }
}

/// What was found where a file of rectification parameters should be.
#[derive(Debug)]
pub enum ParamsFile<P> {
    /// No file exists at the path.
    Missing,
    /// The file could not be read as parameters; the reader's report is
    /// enclosed.
    Unreadable(String),
    /// The parameters that the file holds.
    Loaded(P),
}

/// A stream builder whose images can be rectified.
pub trait Rectifiable: Sized {
    /// The parameters that rectify this builder's images.
    type Params;

    /// This builder with `params` as its rectification parameters and
    /// everything else as it is.
    spec fn with_rectif_params(self, params: Self::Params) -> Self;

    /// Sets the rectification parameters.
    fn rectif_params(self, params: Self::Params) -> (builder: Self)
        ensures
            builder == self.with_rectif_params(params),
    ;

    /// Sets the rectification parameters to those found in the file at
    /// `path`, or says why there are none.
    fn rectif_params_from_file(self, path: String, file: ParamsFile<Self::Params>) -> (r: Result<
        Self,
        Error,
    >)
        ensures
            file is Missing ==> r == Err::<Self, Error>(Error::FileNotFound(path)),
            file matches ParamsFile::Unreadable(report) ==> r == Err::<Self, Error>(
                Error::DeserialisationError(report),
            ),
            file matches ParamsFile::Loaded(params) ==> r == Ok::<Self, Error>(
                self.with_rectif_params(params),
            ),
    {
        match file {
            ParamsFile::Missing => Err(Error::FileNotFound(path)),
            ParamsFile::Unreadable(report) => Err(Error::DeserialisationError(report)),
            ParamsFile::Loaded(params) => Ok(self.rectif_params(params)),
        }
    }
}

impl MonoStreamBuilder {
    /// Sets the camera's device path, such as `/dev/video1`, given whether
    /// anything exists there. A path at which nothing exists is refused.
    pub fn path(self, path: String, exists: bool) -> (r: Result<Self, Error>)
        ensures
            exists ==> r == Ok::<Self, Error>(MonoStreamBuilder { path: Some(path), ..self }),
            !exists ==> r == Err::<Self, Error>(Error::FileNotFound(path)),
    {
        if exists {
            Ok(MonoStreamBuilder { path: Some(path), ..self })
        } else {
            Err(Error::FileNotFound(path))
        }
    }

    /// Sets the frame interval, as numerator and denominator.
    pub fn interval(self, interval: (u32, u32)) -> (builder: Self)
        ensures
            builder == (MonoStreamBuilder { config: Config { interval, ..self.config }, ..self }),
    {
        MonoStreamBuilder { config: Config { interval, ..self.config }, ..self }
    }

    /// Sets the width and height of a frame.
    pub fn resolution(self, resolution: (u32, u32)) -> (builder: Self)
        ensures
            builder == (MonoStreamBuilder { config: Config { resolution, ..self.config }, ..self }),
    {
        MonoStreamBuilder { config: Config { resolution, ..self.config }, ..self }
    }

    /// Sets the frame encoding by its FourCC code.
    pub fn format(self, format: &[u8]) -> (builder: Self)
        ensures
            builder.config.is_with_format(&self.config, format@),
            builder.path == self.path,
            builder.rectif_params == self.rectif_params,
    {
        let format = slice_to_vec(format);
        MonoStreamBuilder { config: Config { format, ..self.config }, ..self }
    }

    /// Sets how interlaced video is stored.
    pub fn field(self, field: u32) -> (builder: Self)
        ensures
            builder == (MonoStreamBuilder { config: Config { field, ..self.config }, ..self }),
    {
        MonoStreamBuilder { config: Config { field, ..self.config }, ..self }
    }

    /// Sets the number of buffers in the camera's queue.
    pub fn num_buffers(self, num_buffers: u32) -> (builder: Self)
        ensures
            builder == (MonoStreamBuilder {
                config: Config { nbuffers: num_buffers, ..self.config },
                ..self
            }),
    {
        MonoStreamBuilder { config: Config { nbuffers: num_buffers, ..self.config }, ..self }
    }
}

impl Rectifiable for MonoStreamBuilder {
    type Params = RectifParams;

    open spec fn with_rectif_params(self, params: RectifParams) -> Self {
        MonoStreamBuilder { rectif_params: Some(params), ..self }
    }

    fn rectif_params(self, params: RectifParams) -> (builder: Self) {
        MonoStreamBuilder { rectif_params: Some(params), ..self }
    }
}

impl StereoStreamBuilder {
    /// Sets the left camera's device path, given whether anything exists
    /// there. A path at which nothing exists is refused.
    pub fn left_path(self, path: String, exists: bool) -> (r: Result<Self, Error>)
        ensures
            exists ==> r == Ok::<Self, Error>(
                StereoStreamBuilder { left_path: Some(path), ..self },
            ),
            !exists ==> r == Err::<Self, Error>(Error::FileNotFound(path)),
    {
        if exists {
            Ok(StereoStreamBuilder { left_path: Some(path), ..self })
        } else {
            Err(Error::FileNotFound(path))
        }
    }

    /// Sets the right camera's device path, given whether anything exists
    /// there. A path at which nothing exists is refused.
    pub fn right_path(self, path: String, exists: bool) -> (r: Result<Self, Error>)
        ensures
            exists ==> r == Ok::<Self, Error>(
                StereoStreamBuilder { right_path: Some(path), ..self },
            ),
            !exists ==> r == Err::<Self, Error>(Error::FileNotFound(path)),
    {
        if exists {
            Ok(StereoStreamBuilder { right_path: Some(path), ..self })
        } else {
            Err(Error::FileNotFound(path))
        }
    }

    /// Sets the frame interval of both cameras.
    pub fn interval(self, interval: (u32, u32)) -> (builder: Self)
        ensures
            builder == (StereoStreamBuilder {
                left_config: Config { interval, ..self.left_config },
                right_config: Config { interval, ..self.right_config },
                ..self
            }),
    {
        StereoStreamBuilder {
            left_config: Config { interval, ..self.left_config },
            right_config: Config { interval, ..self.right_config },
            ..self
        }
    }

    /// Sets the width and height of both cameras' frames.
    pub fn resolution(self, resolution: (u32, u32)) -> (builder: Self)
        ensures
            builder == (StereoStreamBuilder {
                left_config: Config { resolution, ..self.left_config },
                right_config: Config { resolution, ..self.right_config },
                ..self
            }),
    {
        StereoStreamBuilder {
            left_config: Config { resolution, ..self.left_config },
            right_config: Config { resolution, ..self.right_config },
            ..self
        }
    }

    /// Sets the frame encoding of both cameras by its FourCC code, and with
    /// it the decoder of the stream. A code without a decoder is refused.
    pub fn format(self, format: &[u8]) -> (r: Result<Self, Error>)
        ensures
            format@ != fourcc_mjpg() ==> (r matches Err(Error::ImageFormatError(code)) && code@
                == format@),
            format@ == fourcc_mjpg() ==> (r matches Ok(builder) && {
                &&& builder.img_format == Some(ImageFormat::Jpeg)
                &&& builder.left_config.is_with_format(&self.left_config, format@)
                &&& builder.right_config.is_with_format(&self.right_config, format@)
                &&& builder.left_path == self.left_path
                &&& builder.right_path == self.right_path
                &&& builder.rectif_params == self.rectif_params
            }),
    {
        match format_from_fourcc(format) {
            None => Err(Error::ImageFormatError(slice_to_vec(format))),
            Some(decoder) => Ok(
                StereoStreamBuilder {
                    img_format: Some(decoder),
                    left_config: Config { format: slice_to_vec(format), ..self.left_config },
                    right_config: Config { format: slice_to_vec(format), ..self.right_config },
                    ..self
                },
            ),
        }
    }

    /// Sets how both cameras store interlaced video.
    pub fn field(self, field: u32) -> (builder: Self)
        ensures
            builder == (StereoStreamBuilder {
                left_config: Config { field, ..self.left_config },
                right_config: Config { field, ..self.right_config },
                ..self
            }),
    {
        StereoStreamBuilder {
            left_config: Config { field, ..self.left_config },
            right_config: Config { field, ..self.right_config },
            ..self
        }
    }

    /// Sets the number of buffers in both cameras' queues.
    pub fn num_buffers(self, num_buffers: u32) -> (builder: Self)
        ensures
            builder == (StereoStreamBuilder {
                left_config: Config { nbuffers: num_buffers, ..self.left_config },
                right_config: Config { nbuffers: num_buffers, ..self.right_config },
                ..self
            }),
    {
        StereoStreamBuilder {
            left_config: Config { nbuffers: num_buffers, ..self.left_config },
            right_config: Config { nbuffers: num_buffers, ..self.right_config },
            ..self
        }
    }
}

impl Rectifiable for StereoStreamBuilder {
    type Params = StereoRectifParams;

    open spec fn with_rectif_params(self, params: StereoRectifParams) -> Self {
        StereoStreamBuilder { rectif_params: Some(params), ..self }
    }

    fn rectif_params(self, params: StereoRectifParams) -> (builder: Self) {
        StereoStreamBuilder { rectif_params: Some(params), ..self }
    }
}

/// How far the building of a stereo stream has come, with what is still to
/// be used of the builder. A build that opens a camera has a decoder for the
/// cameras' frames, and carries it to the stream.
#[derive(Debug)]
pub enum BuildCall {
    /// The left camera is being opened.
    OpeningLeft {
        right_path: String,
        left_config: Config,
        right_config: Config,
        img_format: ImageFormat,
        rectif_params: Option<StereoRectifParams>,
    },
    /// The right camera is being opened.
    OpeningRight {
        left_config: Config,
        right_config: Config,
        img_format: ImageFormat,
        rectif_params: Option<StereoRectifParams>,
    },
    /// The left camera is being started.
    StartingLeft {
        right_config: Config,
        img_format: ImageFormat,
        rectif_params: Option<StereoRectifParams>,
    },
    /// The right camera is being started.
    StartingRight { img_format: ImageFormat, rectif_params: Option<StereoRectifParams> },
    /// The build has returned.
    Returned,
}

/// What a build is told of the world outside.
#[derive(Debug)]
pub enum BuildEvent {
    /// The camera was opened, or could not be, for the enclosed reason.
    Opened(Result<(), String>),
    /// The camera was started, or could not be, for the enclosed reason.
    Started(Result<(), String>),
}

/// What a build wants done next.
#[derive(Debug)]
pub enum BuildAction {
    /// Open this side's camera at this path and report it as `Opened`.
    Open(Side, String),
    /// Start this side's camera with this configuration and report it as
    /// `Started`.
    Start(Side, Config),
    /// Both cameras stream: make the stream of them, with this decoder and
    /// these rectification parameters. Nothing more is to be done.
    Stream { img_format: ImageFormat, rectif_params: Option<StereoRectifParams> },
    /// Return this error to the caller. Nothing more is to be done.
    Fail(Error),
}

impl BuildCall {
    /// Whether `event` is what a build in this state waits for.
    pub open spec fn accepts(&self, event: &BuildEvent) -> bool {
        match *self {
            BuildCall::OpeningLeft { .. } => *event is Opened,
            BuildCall::OpeningRight { .. } => *event is Opened,
            BuildCall::StartingLeft { .. } => *event is Started,
            BuildCall::StartingRight { .. } => *event is Started,
            BuildCall::Returned => false,
        }
    }
}

/// The transition of a build: the left camera is opened, then the right one,
/// then the left one is started, then the right one. The first camera that
/// cannot be opened, and the first that cannot be started, end the build with
/// their error. What it gives for an event that comes out of turn is left
/// open.
pub open spec fn build_transition(state: BuildCall, event: BuildEvent) -> (BuildCall, BuildAction) {
    match event {
        BuildEvent::Opened(Err(report)) => (
            BuildCall::Returned,
            BuildAction::Fail(Error::CamStreamBuildError(report)),
        ),
        BuildEvent::Started(Err(report)) => (
            BuildCall::Returned,
            BuildAction::Fail(Error::CamStartError(report)),
        ),
        BuildEvent::Opened(Ok(_)) => match state {
            BuildCall::OpeningLeft {
                right_path,
                left_config,
                right_config,
                img_format,
                rectif_params,
            } => (
                BuildCall::OpeningRight { left_config, right_config, img_format, rectif_params },
                BuildAction::Open(Side::Right, right_path),
            ),
            BuildCall::OpeningRight { left_config, right_config, img_format, rectif_params } => (
                BuildCall::StartingLeft { right_config, img_format, rectif_params },
                BuildAction::Start(Side::Left, left_config),
            ),
            _ => arbitrary(),
        },
        BuildEvent::Started(Ok(_)) => match state {
            BuildCall::StartingLeft { right_config, img_format, rectif_params } => (
                BuildCall::StartingRight { img_format, rectif_params },
                BuildAction::Start(Side::Right, right_config),
            ),
            BuildCall::StartingRight { img_format, rectif_params } => (
                BuildCall::Returned,
                BuildAction::Stream { img_format, rectif_params },
            ),
            _ => arbitrary(),
        },
    }
}

/// The text of the error for a builder that lacks a device path.
pub open spec fn missing_path_report() -> Seq<char> {
    "Missing camera path"@
}

impl StereoStreamBuilder {
    /// Whether both device paths have been set.
    pub open spec fn has_paths(&self) -> bool {
        self.left_path is Some && self.right_path is Some
    }

    /// Starts building the stream: the state to step from, and the first
    /// thing to do.
    ///
    /// A builder that lacks a device path fails at once. So does one for
    /// which no frame encoding with a decoder was chosen: it fails with the
    /// code that its cameras are configured for, before any camera is opened.
    /// Otherwise the left camera is to be opened first.
    pub fn build(self) -> (start: (BuildCall, BuildAction))
        ensures
            !self.has_paths() ==> start.0 is Returned && (start.1 matches BuildAction::Fail(
                Error::CamStreamBuildError(report),
            ) && report@ == missing_path_report()),
            self.has_paths() && self.img_format is None ==> start == (
                BuildCall::Returned,
                BuildAction::Fail(Error::ImageFormatError(self.left_config.format)),
            ),
            self.has_paths() && self.img_format is Some ==> start == (
                BuildCall::OpeningLeft {
                    right_path: self.right_path->0,
                    left_config: self.left_config,
                    right_config: self.right_config,
                    img_format: self.img_format->0,
                    rectif_params: self.rectif_params,
                },
                BuildAction::Open(Side::Left, self.left_path->0),
            ),
    {
        match (self.left_path, self.right_path) {
            (Some(left_path), Some(right_path)) => match self.img_format {
                Some(img_format) => (
                    BuildCall::OpeningLeft {
                        right_path,
                        left_config: self.left_config,
                        right_config: self.right_config,
                        img_format,
                        rectif_params: self.rectif_params,
                    },
                    BuildAction::Open(Side::Left, left_path),
                ),
                None => (
                    BuildCall::Returned,
                    BuildAction::Fail(Error::ImageFormatError(self.left_config.format)),
                ),
            },
            _ => (
                BuildCall::Returned,
                BuildAction::Fail(Error::CamStreamBuildError("Missing camera path".to_owned())),
            ),
        }
    }
}

impl BuildCall {
    /// Whether `event` is what the build waits for.
    pub fn takes(&self, event: &BuildEvent) -> (ok: bool)
        ensures
            ok == self.accepts(event),
    {
        match self {
            BuildCall::OpeningLeft { .. } | BuildCall::OpeningRight { .. } => match event {
                BuildEvent::Opened(_) => true,
                _ => false,
            },
            BuildCall::StartingLeft { .. } | BuildCall::StartingRight { .. } => match event {
                BuildEvent::Started(_) => true,
                _ => false,
            },
            BuildCall::Returned => false,
        }
    }

    /// Takes in `event` and says what to do next.
    pub fn step(self, event: BuildEvent) -> (next: (BuildCall, BuildAction))
        requires
            self.accepts(&event),
        ensures
            next == build_transition(self, event),
    {
        match event {
            BuildEvent::Opened(Err(report)) => (
                BuildCall::Returned,
                BuildAction::Fail(Error::CamStreamBuildError(report)),
            ),
            BuildEvent::Started(Err(report)) => (
                BuildCall::Returned,
                BuildAction::Fail(Error::CamStartError(report)),
            ),
            BuildEvent::Opened(Ok(_)) => match self {
                BuildCall::OpeningLeft {
                    right_path,
                    left_config,
                    right_config,
                    img_format,
                    rectif_params,
                } => (
                    BuildCall::OpeningRight {
                        left_config,
                        right_config,
                        img_format,
                        rectif_params,
                    },
                    BuildAction::Open(Side::Right, right_path),
                ),
                BuildCall::OpeningRight {
                    left_config,
                    right_config,
                    img_format,
                    rectif_params,
                } => (
                    BuildCall::StartingLeft { right_config, img_format, rectif_params },
                    BuildAction::Start(Side::Left, left_config),
                ),
                _ => vstd::pervasive::unreached(),
            },
            BuildEvent::Started(Ok(_)) => match self {
                BuildCall::StartingLeft { right_config, img_format, rectif_params } => (
                    BuildCall::StartingRight { img_format, rectif_params },
                    BuildAction::Start(Side::Right, right_config),
                ),
                BuildCall::StartingRight { img_format, rectif_params } => (
                    BuildCall::Returned,
                    BuildAction::Stream { img_format, rectif_params },
                ),
                _ => vstd::pervasive::unreached(),
            },
        }
    }
}

/// Runs a build from `state` through `events` until it is over; `None` if the
/// events end before it is, or if one of them comes out of turn. The result
/// is the last action: `Stream` or `Fail`.
pub open spec fn build_run(state: BuildCall, events: Seq<BuildEvent>) -> Option<BuildAction>
    decreases events.len(),
{
    if events.len() == 0 || !state.accepts(&events.first()) {
        None
    } else {
        let (next, action) = build_transition(state, events.first());
        match action {
            BuildAction::Stream { .. } => Some(action),
            BuildAction::Fail(_) => Some(action),
            _ => build_run(next, events.drop_first()),
        }
    }
}

/// How a build ends when its cameras open and start with the given success:
/// the first failure decides, in the order left open, right open, left start,
/// right start. A camera that cannot be opened is a build error and one that
/// cannot be started a start error, each with the camera's own report. If
/// nothing fails, the stream is made with the chosen decoder and the
/// builder's rectification parameters.
pub open spec fn build_outcome(
    img_format: ImageFormat,
    rectif_params: Option<StereoRectifParams>,
    opened_left: Result<(), String>,
    opened_right: Result<(), String>,
    started_left: Result<(), String>,
    started_right: Result<(), String>,
) -> BuildAction {
    match (opened_left, opened_right, started_left, started_right) {
        (Err(report), _, _, _) => BuildAction::Fail(Error::CamStreamBuildError(report)),
        (Ok(_), Err(report), _, _) => BuildAction::Fail(Error::CamStreamBuildError(report)),
        (Ok(_), Ok(_), Err(report), _) => BuildAction::Fail(Error::CamStartError(report)),
        (Ok(_), Ok(_), Ok(_), Err(report)) => BuildAction::Fail(Error::CamStartError(report)),
        (Ok(_), Ok(_), Ok(_), Ok(_)) => BuildAction::Stream { img_format, rectif_params },
    }
}

/// A build whose events arrive as the protocol orders them ends as
/// [`build_outcome`] says, and every event that it gets to see comes in turn.
pub proof fn lemma_build_returns_outcome(
    right_path: String,
    left_config: Config,
    right_config: Config,
    img_format: ImageFormat,
    rectif_params: Option<StereoRectifParams>,
    opened_left: Result<(), String>,
    opened_right: Result<(), String>,
    started_left: Result<(), String>,
    started_right: Result<(), String>,
)
    ensures
        build_run(
            BuildCall::OpeningLeft {
                right_path,
                left_config,
                right_config,
                img_format,
                rectif_params,
            },
            seq![
                BuildEvent::Opened(opened_left),
                BuildEvent::Opened(opened_right),
                BuildEvent::Started(started_left),
                BuildEvent::Started(started_right),
            ],
        ) == Some(
            build_outcome(
                img_format,
                rectif_params,
                opened_left,
                opened_right,
                started_left,
                started_right,
            ),
        ),
{
    let s0 = BuildCall::OpeningLeft {
        right_path,
        left_config,
        right_config,
        img_format,
        rectif_params,
    };
    let e0 = seq![
        BuildEvent::Opened(opened_left),
        BuildEvent::Opened(opened_right),
        BuildEvent::Started(started_left),
        BuildEvent::Started(started_right),
    ];
    let e1 = e0.drop_first();
    let e2 = e1.drop_first();
    let e3 = e2.drop_first();
    let (s1, a1) = build_transition(s0, e0.first());
    assert(build_run(s0, e0) == if opened_left is Ok {
        build_run(s1, e1)
    } else {
        Some(a1)
    });
    let (s2, a2) = build_transition(s1, e1.first());
    assert(opened_left is Ok ==> build_run(s1, e1) == if opened_right is Ok {
        build_run(s2, e2)
    } else {
        Some(a2)
    });
    let (s3, a3) = build_transition(s2, e2.first());
    assert(opened_left is Ok && opened_right is Ok ==> build_run(s2, e2) == if started_left
        is Ok {
        build_run(s3, e3)
    } else {
        Some(a3)
    });
    let (s4, a4) = build_transition(s3, e3.first());
    assert(opened_left is Ok && opened_right is Ok && started_left is Ok ==> build_run(s3, e3)
        == Some(a4));
}

} // verus!
