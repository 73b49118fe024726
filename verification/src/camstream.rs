//! The stereo stream: its frames, and the protocol by which it drives its two
//! capture workers.
//!
//! The stream touches neither a channel nor a thread here. A capture and a
//! shutdown are state machines: a step takes what just happened outside and
//! says what to do next. Whoever runs the machine performs that action and
//! reports back how it went.

use vstd::prelude::*;
use crate::error::Error;
use crate::image::{GrayFloatImage, GrayImage, converted};
use crate::numeric::Single;
use crate::rectification::RectifParams;
use crate::worker::{Exchange, Reply, WorkerCmd};

verus! {

/// A frame of a stereo stream: the image of each camera, and when each was
/// taken. The two times are those of two separate exposures and need not
/// agree.
#[derive(Debug)]
pub struct StereoFrame {
    /// The left image.
    pub left: GrayFloatImage,
    /// The right image.
    pub right: GrayFloatImage,
    /// When the left image was taken.
    pub left_timestamp: u64,
    /// When the right image was taken.
    pub right_timestamp: u64,
}

impl StereoFrame {
    /// The width of one image of the frame, which is that of the left one.
    pub fn width(&self) -> (w: u32)
        ensures
            w == self.left.spec_width(),
    {
        self.left.width() as u32
    }

    /// The height of one image of the frame, which is that of the left one.
    pub fn height(&self) -> (h: u32)
        ensures
            h == self.left.spec_height(),
    {
        self.left.height() as u32
    }

    /// The two images in 8-bit samples, left then right, each sample made by
    /// `quantise` from the sample in its place.
    pub fn to_luma8_pair<Q: Fn(Single) -> u8>(self, quantise: Q) -> (pair: (
        GrayImage,
        GrayImage,
    ))
        requires
            forall|sample: Single| call_requires(quantise, (sample,)),
        ensures
            converted(&self.left, quantise, &pair.0),
            converted(&self.right, quantise, &pair.1),
    {
        (self.left.to_luma8(&quantise), self.right.to_luma8(&quantise))
    }
}

/// One of the two cameras of a stereo pair.
#[derive(Debug, Clone, Copy, PartialEq, Eq)]
pub enum Side {
    Left,
    Right,
}

/// How far one stereo capture has come.
#[derive(Debug)]
pub enum CaptureCall {
    /// `Capture` is on its way to the left worker.
    CommandingLeft,
    /// `Capture` is on its way to the right worker.
    CommandingRight,
    /// Both workers are at work; the left answer is awaited.
    AwaitingLeft,
    /// The left image is here; the right answer is awaited.
    AwaitingRight { left: GrayFloatImage, left_timestamp: u64 },
    /// The capture has returned.
    Returned,
}

/// What a worker lets the stream know: its answer, or nothing because it hung
/// up.
pub type Answer = Option<Reply>;

/// What a stereo capture is told of the world outside.
#[derive(Debug)]
pub enum CaptureEvent {
    /// The command was handed over (`true`), or the worker had hung up.
    Sent(bool),
    /// The worker let this be known.
    Answered(Answer),
}

/// What a stereo capture wants done next.
#[derive(Debug)]
pub enum CaptureAction {
    /// Send this command to this side's worker and report it as `Sent`.
    Send(Side, WorkerCmd),
    /// Wait for this side's answer and report it as `Answered`.
    Await(Side),
    /// Return this to the caller. Nothing more is to be done.
    Return(Result<StereoFrame, Error>),
}

impl CaptureCall {
    /// Whether `event` is what a capture in this state waits for.
    pub open spec fn accepts(&self, event: &CaptureEvent) -> bool {
        match *self {
            CaptureCall::CommandingLeft => *event is Sent,
            CaptureCall::CommandingRight => *event is Sent,
            CaptureCall::AwaitingLeft => *event is Answered,
            CaptureCall::AwaitingRight { .. } => *event is Answered,
            CaptureCall::Returned => false,
        }
    }
}

/// The transition of a stereo capture.
///
/// Both workers are commanded, left first, before either answer is awaited,
/// so that the two expose at about the same time. A command that cannot be
/// sent, a worker that hangs up and a worker that answers with an error each
/// end the capture at once with that error. In particular, after an error from
/// the left the right answer is not awaited: it stays where it is queued.
pub open spec fn capture_transition(state: CaptureCall, event: CaptureEvent) -> (
    CaptureCall,
    CaptureAction,
) {
    match event {
        CaptureEvent::Sent(false) => (
            CaptureCall::Returned,
            CaptureAction::Return(Err(Error::ChannelSendError)),
        ),
        CaptureEvent::Sent(true) => match state {
            CaptureCall::CommandingLeft => (
                CaptureCall::CommandingRight,
                CaptureAction::Send(Side::Right, WorkerCmd::Capture),
            ),
            _ => (CaptureCall::AwaitingLeft, CaptureAction::Await(Side::Left)),
        },
        CaptureEvent::Answered(None) => (
            CaptureCall::Returned,
            CaptureAction::Return(Err(Error::ChannelReceiveError)),
        ),
        CaptureEvent::Answered(Some(Err(e))) => (
            CaptureCall::Returned,
            CaptureAction::Return(Err(e)),
        ),
        CaptureEvent::Answered(Some(Ok((img, timestamp)))) => match state {
            CaptureCall::AwaitingRight { left, left_timestamp } => (
                CaptureCall::Returned,
                CaptureAction::Return(
                    Ok(
                        StereoFrame {
                            left,
                            right: img,
                            left_timestamp,
                            right_timestamp: timestamp,
                        },
                    ),
                ),
            ),
            _ => (
                CaptureCall::AwaitingRight { left: img, left_timestamp: timestamp },
                CaptureAction::Await(Side::Right),
            ),
        },
    }
}

impl CaptureCall {
    /// Starts a capture: the state to step from, and the first thing to do.
    pub fn begin() -> (start: (CaptureCall, CaptureAction))
        ensures
            start == (
                CaptureCall::CommandingLeft,
                CaptureAction::Send(Side::Left, WorkerCmd::Capture),
            ),
    {
        (CaptureCall::CommandingLeft, CaptureAction::Send(Side::Left, WorkerCmd::Capture))
    }

    /// Whether `event` is what the capture waits for.
    pub fn takes(&self, event: &CaptureEvent) -> (ok: bool)
        ensures
            ok == self.accepts(event),
    {
        match self {
            CaptureCall::CommandingLeft | CaptureCall::CommandingRight => match event {
                CaptureEvent::Sent(_) => true,
                _ => false,
            },
            CaptureCall::AwaitingLeft | CaptureCall::AwaitingRight { .. } => match event {
                CaptureEvent::Answered(_) => true,
                _ => false,
            },
            CaptureCall::Returned => false,
        }
    }

    /// Takes in `event` and says what to do next.
    pub fn step(self, event: CaptureEvent) -> (next: (CaptureCall, CaptureAction))
        requires
            self.accepts(&event),
        ensures
            next == capture_transition(self, event),
    {
        match event {
            CaptureEvent::Sent(false) => (
                CaptureCall::Returned,
                CaptureAction::Return(Err(Error::ChannelSendError)),
            ),
            CaptureEvent::Sent(true) => match self {
                CaptureCall::CommandingLeft => (
                    CaptureCall::CommandingRight,
                    CaptureAction::Send(Side::Right, WorkerCmd::Capture),
                ),
                _ => (CaptureCall::AwaitingLeft, CaptureAction::Await(Side::Left)),
            },
            CaptureEvent::Answered(None) => (
                CaptureCall::Returned,
                CaptureAction::Return(Err(Error::ChannelReceiveError)),
            ),
            CaptureEvent::Answered(Some(Err(e))) => (
                CaptureCall::Returned,
                CaptureAction::Return(Err(e)),
            ),
            CaptureEvent::Answered(Some(Ok((img, timestamp)))) => match self {
                CaptureCall::AwaitingRight { left, left_timestamp } => (
                    CaptureCall::Returned,
                    CaptureAction::Return(
                        Ok(
                            StereoFrame {
                                left,
                                right: img,
                                left_timestamp,
                                right_timestamp: timestamp,
                            },
                        ),
                    ),
                ),
                _ => (
                    CaptureCall::AwaitingRight { left: img, left_timestamp: timestamp },
                    CaptureAction::Await(Side::Right),
                ),
            },
        }
    }
}

/// What a stereo capture returns when its two commands were sent with the
/// given success and its two workers let it know `left` and `right`.
///
/// The first thing to go wrong decides, in the order in which the capture
/// goes about its work: the left command, the right command, the left answer,
/// the right answer. If nothing does, the two images are paired, each with its
/// own worker's timestamp.
pub open spec fn capture_outcome(sent_left: bool, sent_right: bool, left: Answer, right: Answer)
    -> Result<StereoFrame, Error> {
    if !sent_left || !sent_right {
        Err(Error::ChannelSendError)
    } else {
        match left {
            None => Err(Error::ChannelReceiveError),
            Some(Err(e)) => Err(e),
            Some(Ok((left_img, left_timestamp))) => match right {
                None => Err(Error::ChannelReceiveError),
                Some(Err(e)) => Err(e),
                Some(Ok((right_img, right_timestamp))) => Ok(
                    StereoFrame {
                        left: left_img,
                        right: right_img,
                        left_timestamp,
                        right_timestamp,
                    },
                ),
            },
        }
    }
}

/// Runs a capture from `state` through `events` until it returns; `None` if
/// the events end before it does, or if one of them comes out of turn.
pub open spec fn capture_run(state: CaptureCall, events: Seq<CaptureEvent>) -> Option<
    Result<StereoFrame, Error>,
>
    decreases events.len(),
{
    if events.len() == 0 || !state.accepts(&events.first()) {
        None
    } else {
        let (next, action) = capture_transition(state, events.first());
        match action {
            CaptureAction::Return(outcome) => Some(outcome),
            _ => capture_run(next, events.drop_first()),
        }
    }
}

/// A capture whose events arrive as the protocol orders them returns what
/// [`capture_outcome`] says, and every event that it gets to see comes in
/// turn.
pub proof fn lemma_capture_returns_outcome(
    sent_left: bool,
    sent_right: bool,
    left: Answer,
    right: Answer,
)
    ensures
        capture_run(
            CaptureCall::CommandingLeft,
            seq![
                CaptureEvent::Sent(sent_left),
                CaptureEvent::Sent(sent_right),
                CaptureEvent::Answered(left),
                CaptureEvent::Answered(right),
            ],
        ) == Some(capture_outcome(sent_left, sent_right, left, right)),
{
    let e0 = seq![
        CaptureEvent::Sent(sent_left),
        CaptureEvent::Sent(sent_right),
        CaptureEvent::Answered(left),
        CaptureEvent::Answered(right),
    ];
    let e1 = e0.drop_first();
    let e2 = e1.drop_first();
    let e3 = e2.drop_first();
    let (s1, a1) = capture_transition(CaptureCall::CommandingLeft, e0.first());
    assert(capture_run(CaptureCall::CommandingLeft, e0) == if sent_left {
        capture_run(s1, e1)
    } else {
        Some(Err(Error::ChannelSendError))
    });
    let (s2, a2) = capture_transition(s1, e1.first());
    assert(sent_left ==> capture_run(s1, e1) == if sent_right {
        capture_run(s2, e2)
    } else {
        Some(Err(Error::ChannelSendError))
    });
    let (s3, a3) = capture_transition(s2, e2.first());
    assert(sent_left && sent_right ==> capture_run(s2, e2) == match a3 {
        CaptureAction::Return(outcome) => Some(outcome),
        _ => capture_run(s3, e3),
    });
    assert(e3.len() == 1);
    assert(capture_run(s3, e3.drop_first()) is None);
}

/// Two workers that both answer with an image make a frame of exactly these
/// two images, left and right, each with the timestamp that its own worker
/// reported.
pub proof fn lemma_capture_keeps_timestamps(
    left: GrayFloatImage,
    left_timestamp: u64,
    right: GrayFloatImage,
    right_timestamp: u64,
)
    ensures
        capture_outcome(
            true,
            true,
            Some(Ok((left, left_timestamp))),
            Some(Ok((right, right_timestamp))),
        ) == Ok::<StereoFrame, Error>(
            StereoFrame { left, right, left_timestamp, right_timestamp },
        ),
{
}

/// When the left worker answers with an error, the capture returns that
/// error as soon as it sees it: the right answer is not asked for, and what
/// it would have been makes no difference.
pub proof fn lemma_left_error_returns_at_once(e: Error, right: Answer)
    ensures
        capture_transition(CaptureCall::AwaitingLeft, CaptureEvent::Answered(Some(Err(e)))) == (
            CaptureCall::Returned,
            CaptureAction::Return(Err(e)),
        ),
        capture_run(
            CaptureCall::CommandingLeft,
            seq![
                CaptureEvent::Sent(true),
                CaptureEvent::Sent(true),
                CaptureEvent::Answered(Some(Err(e))),
            ],
        ) == Some(Err::<StereoFrame, Error>(e)),
        capture_outcome(true, true, Some(Err(e)), right) == Err::<StereoFrame, Error>(e),
{
    let e0 = seq![
        CaptureEvent::Sent(true),
        CaptureEvent::Sent(true),
        CaptureEvent::Answered(Some(Err(e))),
    ];
    let e1 = e0.drop_first();
    let e2 = e1.drop_first();
    let (s1, a1) = capture_transition(CaptureCall::CommandingLeft, e0.first());
    assert(capture_run(CaptureCall::CommandingLeft, e0) == capture_run(s1, e1));
    let (s2, a2) = capture_transition(s1, e1.first());
    assert(capture_run(s1, e1) == capture_run(s2, e2));
}

/// When both cameras deliver and both frames decode, the capture returns a
/// frame whose two timestamps are exactly those that the two cameras
/// reported, the left one's on the left and the right one's on the right.
pub proof fn lemma_frame_carries_camera_times(
    left: Exchange,
    left_params: Option<RectifParams>,
    right: Exchange,
    right_params: Option<RectifParams>,
)
    requires
        left.acquired is Ok && left.decoded is Ok,
        right.acquired is Ok && right.decoded is Ok,
    ensures
        capture_outcome(
            true,
            true,
            Some(left.reply(left_params)),
            Some(right.reply(right_params)),
        ) matches Ok(frame) && {
            &&& frame.left_timestamp == left.acquired->Ok_0.timestamp
            &&& frame.right_timestamp == right.acquired->Ok_0.timestamp
        },
{
}

/// When the left camera fails to deliver, the capture returns the left
/// worker's capture error with the camera's report, whatever the right side
/// does.
pub proof fn lemma_left_camera_failure_is_returned(
    left: Exchange,
    left_params: Option<RectifParams>,
    right: Answer,
)
    requires
        left.acquired is Err,
    ensures
        capture_outcome(true, true, Some(left.reply(left_params)), right) == Err::<
            StereoFrame,
            Error,
        >(Error::CameraCaptureError(left.acquired->Err_0)),
{
}

/// A capture that has returned waits for nothing more.
pub proof fn lemma_returned_capture_is_over(event: CaptureEvent)
    ensures
        !CaptureCall::Returned.accepts(&event),
{
}

/// How far the shutdown of a stereo stream has come. A shutdown uses the
/// stream up: once it has returned, nothing more can be asked of either
/// worker.
#[derive(Debug, Clone, Copy, PartialEq, Eq)]
pub enum StopCall {
    /// `Stop` is on its way to the left worker.
    StoppingLeft,
    /// `Stop` is on its way to the right worker.
    StoppingRight,
    /// The end of the left thread is awaited.
    JoiningLeft,
    /// The end of the right thread is awaited.
    JoiningRight,
    /// The shutdown has returned.
    Returned,
}

/// What a shutdown is told of the world outside.
#[derive(Debug, Clone, Copy, PartialEq, Eq)]
pub enum StopEvent {
    /// The command was handed over (`true`), or the worker had hung up.
    Sent(bool),
    /// The thread ended cleanly (`true`), or it had panicked.
    Joined(bool),
}

/// What a shutdown wants done next.
#[derive(Debug)]
pub enum StopAction {
    /// Send this command to this side's worker and report it as `Sent`.
    Send(Side, WorkerCmd),
    /// Wait for this side's thread to end and report it as `Joined`.
    Join(Side),
    /// Return this to the caller. Nothing more is to be done.
    Return(Result<(), Error>),
}

impl StopCall {
    /// Whether `event` is what a shutdown in this state waits for.
    pub open spec fn accepts(&self, event: &StopEvent) -> bool {
        match *self {
            StopCall::StoppingLeft => *event is Sent,
            StopCall::StoppingRight => *event is Sent,
            StopCall::JoiningLeft => *event is Joined,
            StopCall::JoiningRight => *event is Joined,
            StopCall::Returned => false,
        }
    }
}

/// The transition of a shutdown: both workers are told to stop, left first,
/// then both threads are joined, left first. The first command that cannot be
/// sent and the first thread that did not end cleanly end the shutdown with
/// their error.
pub open spec fn stop_transition(state: StopCall, event: StopEvent) -> (StopCall, StopAction) {
    match event {
        StopEvent::Sent(false) => (
            StopCall::Returned,
            StopAction::Return(Err(Error::ChannelSendError)),
        ),
        StopEvent::Sent(true) => match state {
            StopCall::StoppingLeft => (
                StopCall::StoppingRight,
                StopAction::Send(Side::Right, WorkerCmd::Stop),
            ),
            _ => (StopCall::JoiningLeft, StopAction::Join(Side::Left)),
        },
        StopEvent::Joined(false) => (
            StopCall::Returned,
            StopAction::Return(Err(Error::ThreadJoinError)),
        ),
        StopEvent::Joined(true) => match state {
            StopCall::JoiningLeft => (StopCall::JoiningRight, StopAction::Join(Side::Right)),
            _ => (StopCall::Returned, StopAction::Return(Ok(()))),
        },
    }
}

impl StopCall {
    /// Starts a shutdown: the state to step from, and the first thing to do.
    pub fn begin() -> (start: (StopCall, StopAction))
        ensures
            start == (StopCall::StoppingLeft, StopAction::Send(Side::Left, WorkerCmd::Stop)),
    {
        (StopCall::StoppingLeft, StopAction::Send(Side::Left, WorkerCmd::Stop))
    }

    /// Whether `event` is what the shutdown waits for.
    pub fn takes(&self, event: &StopEvent) -> (ok: bool)
        ensures
            ok == self.accepts(event),
    {
        match self {
            StopCall::StoppingLeft | StopCall::StoppingRight => match event {
                StopEvent::Sent(_) => true,
                _ => false,
            },
            StopCall::JoiningLeft | StopCall::JoiningRight => match event {
                StopEvent::Joined(_) => true,
                _ => false,
            },
            StopCall::Returned => false,
        }
    }

    /// Takes in `event` and says what to do next.
    pub fn step(self, event: StopEvent) -> (next: (StopCall, StopAction))
        requires
            self.accepts(&event),
        ensures
            next == stop_transition(self, event),
    {
        match event {
            StopEvent::Sent(false) => (
                StopCall::Returned,
                StopAction::Return(Err(Error::ChannelSendError)),
            ),
            StopEvent::Sent(true) => match self {
                StopCall::StoppingLeft => (
                    StopCall::StoppingRight,
                    StopAction::Send(Side::Right, WorkerCmd::Stop),
                ),
                _ => (StopCall::JoiningLeft, StopAction::Join(Side::Left)),
            },
            StopEvent::Joined(false) => (
                StopCall::Returned,
                StopAction::Return(Err(Error::ThreadJoinError)),
            ),
            StopEvent::Joined(true) => match self {
                StopCall::JoiningLeft => (StopCall::JoiningRight, StopAction::Join(Side::Right)),
                _ => (StopCall::Returned, StopAction::Return(Ok(()))),
            },
        }
    }
}

/// A shutdown that has returned waits for nothing more.
pub proof fn lemma_returned_stop_is_over(event: StopEvent)
    ensures
        !StopCall::Returned.accepts(&event),
{
}

/// What a shutdown returns when its two commands were sent and its two
/// threads ended with the given success: the first thing to go wrong decides,
/// in the order in which the shutdown goes about its work.
pub open spec fn stop_outcome(
    sent_left: bool,
    sent_right: bool,
    joined_left: bool,
    joined_right: bool,
) -> Result<(), Error> {
    if !sent_left || !sent_right {
        Err(Error::ChannelSendError)
    } else if !joined_left || !joined_right {
        Err(Error::ThreadJoinError)
    } else {
        Ok(())
    }
}

/// Runs a shutdown from `state` through `events` until it returns; `None` if
/// the events end before it does, or if one of them comes out of turn.
pub open spec fn stop_run(state: StopCall, events: Seq<StopEvent>) -> Option<Result<(), Error>>
    decreases events.len(),
{
    if events.len() == 0 || !state.accepts(&events.first()) {
        None
    } else {
        let (next, action) = stop_transition(state, events.first());
        match action {
            StopAction::Return(outcome) => Some(outcome),
            _ => stop_run(next, events.drop_first()),
        }
    }
}

/// A shutdown whose events arrive as the protocol orders them returns what
/// [`stop_outcome`] says, and every event that it gets to see comes in turn.
pub proof fn lemma_stop_returns_outcome(
    sent_left: bool,
    sent_right: bool,
    joined_left: bool,
    joined_right: bool,
)
    ensures
        stop_run(
            StopCall::StoppingLeft,
            seq![
                StopEvent::Sent(sent_left),
                StopEvent::Sent(sent_right),
                StopEvent::Joined(joined_left),
                StopEvent::Joined(joined_right),
            ],
        ) == Some(stop_outcome(sent_left, sent_right, joined_left, joined_right)),
{
    let e0 = seq![
        StopEvent::Sent(sent_left),
        StopEvent::Sent(sent_right),
        StopEvent::Joined(joined_left),
        StopEvent::Joined(joined_right),
    ];
    let e1 = e0.drop_first();
    let e2 = e1.drop_first();
    let e3 = e2.drop_first();
    let (s1, a1) = stop_transition(StopCall::StoppingLeft, e0.first());
    assert(stop_run(StopCall::StoppingLeft, e0) == if sent_left {
        stop_run(s1, e1)
    } else {
        Some(Err(Error::ChannelSendError))
    });
    let (s2, a2) = stop_transition(s1, e1.first());
    assert(sent_left ==> stop_run(s1, e1) == if sent_right {
        stop_run(s2, e2)
    } else {
        Some(Err(Error::ChannelSendError))
    });
    let (s3, a3) = stop_transition(s2, e2.first());
    assert(sent_left && sent_right ==> stop_run(s2, e2) == if joined_left {
        stop_run(s3, e3)
    } else {
        Some(Err(Error::ThreadJoinError))
    });
    assert(e3.len() == 1);
    assert(stop_run(s3, e3.drop_first()) is None);
}

} // verus!
