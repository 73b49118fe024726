//! The capture worker.
//!
//! A worker owns one camera and answers commands one at a time. It touches
//! neither the device nor a thread here: it is a state machine whose step takes
//! what just happened outside and says what to do next. Whoever runs the
//! machine performs that action and reports back how it went.

use vstd::prelude::*;
use crate::error::Error;
use crate::image::GrayFloatImage;
use crate::rectification::{RectifParams, StereoRectifParams};

verus! {

/// What a stream asks of a capture worker.
#[derive(Debug, Clone, Copy, PartialEq, Eq)]
pub enum WorkerCmd {
    /// Capture one image.
    Capture,
    /// Stop serving.
    Stop,
}

/// A frame as the camera delivered it.
#[derive(Debug, PartialEq)]
pub struct RawFrame {
    /// The encoded image.
    pub data: Vec<u8>,
    /// When the driver says the frame was taken.
    pub timestamp: u64,
}

/// Where a capture worker stands.
#[derive(Debug, Clone, Copy, PartialEq, Eq)]
pub enum WorkerState {
    /// Waiting for a command.
    Idle,
    /// Serving a capture: waiting for the camera.
    Acquiring,
    /// Serving a capture: waiting for the decoder.
    Decoding { timestamp: u64 },
    /// Serving a capture: waiting for the rectified image.
    Rectifying { timestamp: u64 },
    /// Stopped for good.
    Terminated,
}

/// What a capture worker is told of the world outside.
#[derive(Debug)]
pub enum WorkerEvent {
    /// A command arrived.
    Command(WorkerCmd),
    /// The stream hung up: no command will arrive any more.
    Disconnected,
    /// The camera delivered a frame, or failed with the enclosed report.
    Acquired(Result<RawFrame, String>),
    /// The decoder delivered an image, or failed with the enclosed report.
    Decoded(Result<GrayFloatImage, String>),
    /// The image has been rectified.
    Rectified(GrayFloatImage),
}

/// What a capture worker wants done next.
#[derive(Debug)]
pub enum WorkerAction {
    /// Take a frame from the camera and report it as `Acquired`.
    Acquire,
    /// Decode these bytes and report the image as `Decoded`.
    Decode(Vec<u8>),
    /// Rectify this image with these parameters and report it as `Rectified`.
    Rectify(RectifParams, GrayFloatImage),
    /// Send this answer to the stream, then wait for the next command.
    Reply(Result<(GrayFloatImage, u64), Error>),
    /// Leave the loop.
    Exit,
}

impl WorkerState {
    /// Whether the worker is serving a capture.
    pub open spec fn capturing(&self) -> bool {
        *self is Acquiring || *self is Decoding || *self is Rectifying
    }

    /// Whether `event` is what a worker in this state waits for: a command or
    /// a hang-up while idle, the outcome of the pending step while capturing,
    /// nothing once terminated.
    pub open spec fn accepts(&self, event: &WorkerEvent) -> bool {
        match *self {
            WorkerState::Idle => *event is Command || *event is Disconnected,
            WorkerState::Acquiring => *event is Acquired,
            WorkerState::Decoding { .. } => *event is Decoded,
            WorkerState::Rectifying { .. } => *event is Rectified,
            WorkerState::Terminated => false,
        }
    }
}

/// The worker's transition: the state it moves to and the action it asks for
/// when `event` reaches it in `state`, rectifying with `rectif_params` where
/// there are any.
///
/// A failed acquisition or decoding is answered with the error and leaves the
/// worker idle, ready for the next command. Only `Stop` or a hang-up, met
/// while idle, ends it.
pub open spec fn worker_transition(
    state: WorkerState,
    rectif_params: Option<RectifParams>,
    event: WorkerEvent,
) -> (WorkerState, WorkerAction) {
    match event {
        WorkerEvent::Command(WorkerCmd::Capture) => (
            WorkerState::Acquiring,
            WorkerAction::Acquire,
        ),
        WorkerEvent::Command(WorkerCmd::Stop) => (WorkerState::Terminated, WorkerAction::Exit),
        WorkerEvent::Disconnected => (WorkerState::Terminated, WorkerAction::Exit),
        WorkerEvent::Acquired(Ok(frame)) => (
            WorkerState::Decoding { timestamp: frame.timestamp },
            WorkerAction::Decode(frame.data),
        ),
        WorkerEvent::Acquired(Err(report)) => (
            WorkerState::Idle,
            WorkerAction::Reply(Err(Error::CameraCaptureError(report))),
        ),
        WorkerEvent::Decoded(Ok(img)) => match rectif_params {
            Some(params) => (
                WorkerState::Rectifying { timestamp: state.pending_timestamp() },
                WorkerAction::Rectify(params, img),
            ),
            None => (
                WorkerState::Idle,
                WorkerAction::Reply(Ok((img, state.pending_timestamp()))),
            ),
        },
        WorkerEvent::Decoded(Err(report)) => (
            WorkerState::Idle,
            WorkerAction::Reply(Err(Error::ImageConversionError(report))),
        ),
        WorkerEvent::Rectified(img) => (
            WorkerState::Idle,
            WorkerAction::Reply(Ok((img, state.pending_timestamp()))),
        ),
    }
}

impl WorkerState {
    /// The timestamp of the frame in work; zero where none is.
    pub open spec fn pending_timestamp(&self) -> u64 {
        match *self {
            WorkerState::Decoding { timestamp } => timestamp,
            WorkerState::Rectifying { timestamp } => timestamp,
            _ => 0,
        }
    }
}

/// One capture worker: its state, and the rectification parameters of its
/// camera, if its images are to be rectified.
#[derive(Debug)]
pub struct CaptureWorker {
    pub state: WorkerState,
    pub rectif_params: Option<RectifParams>,
}

impl CaptureWorker {
    /// An idle worker.
    pub fn new(rectif_params: Option<RectifParams>) -> (worker: Self)
        ensures
            worker.state == WorkerState::Idle,
            worker.rectif_params == rectif_params,
    {
        CaptureWorker { state: WorkerState::Idle, rectif_params }
    }

    /// Whether `event` is what the worker waits for.
    pub fn takes(&self, event: &WorkerEvent) -> (ok: bool)
        ensures
            ok == self.state.accepts(event),
    {
        match self.state {
            WorkerState::Idle => match event {
                WorkerEvent::Command(_) => true,
                WorkerEvent::Disconnected => true,
                _ => false,
            },
            WorkerState::Acquiring => match event {
                WorkerEvent::Acquired(_) => true,
                _ => false,
            },
            WorkerState::Decoding { .. } => match event {
                WorkerEvent::Decoded(_) => true,
                _ => false,
            },
            WorkerState::Rectifying { .. } => match event {
                WorkerEvent::Rectified(_) => true,
                _ => false,
            },
            WorkerState::Terminated => false,
        }
    }

    /// Takes in `event` and says what to do next.
    pub fn step(&mut self, event: WorkerEvent) -> (action: WorkerAction)
        requires
            old(self).state.accepts(&event),
        ensures
            (final(self).state, action) == worker_transition(
                old(self).state,
                old(self).rectif_params,
                event,
            ),
            final(self).rectif_params == old(self).rectif_params,
    {
        let timestamp: u64 = match self.state {
            WorkerState::Decoding { timestamp } => timestamp,
            WorkerState::Rectifying { timestamp } => timestamp,
            _ => 0,
        };
        match event {
            WorkerEvent::Command(WorkerCmd::Capture) => {
                self.state = WorkerState::Acquiring;
                WorkerAction::Acquire
            },
            WorkerEvent::Command(WorkerCmd::Stop) => {
                self.state = WorkerState::Terminated;
                WorkerAction::Exit
            },
            WorkerEvent::Disconnected => {
                self.state = WorkerState::Terminated;
                WorkerAction::Exit
            },
            WorkerEvent::Acquired(Ok(frame)) => {
                self.state = WorkerState::Decoding { timestamp: frame.timestamp };
                WorkerAction::Decode(frame.data)
            },
            WorkerEvent::Acquired(Err(report)) => {
                self.state = WorkerState::Idle;
                WorkerAction::Reply(Err(Error::CameraCaptureError(report)))
            },
            WorkerEvent::Decoded(Ok(img)) => match self.rectif_params {
                Some(params) => {
                    self.state = WorkerState::Rectifying { timestamp };
                    WorkerAction::Rectify(params, img)
                },
                None => {
                    self.state = WorkerState::Idle;
                    WorkerAction::Reply(Ok((img, timestamp)))
                },
            },
            WorkerEvent::Decoded(Err(report)) => {
                self.state = WorkerState::Idle;
                WorkerAction::Reply(Err(Error::ImageConversionError(report)))
            },
            WorkerEvent::Rectified(img) => {
                self.state = WorkerState::Idle;
                WorkerAction::Reply(Ok((img, timestamp)))
            },
        }
    }
}

/// The two workers of a stereo stream, left then right, each with its own
/// camera's half of the stereo parameters, where there are any.
pub fn stereo_workers(rectif_params: Option<StereoRectifParams>) -> (workers: (
    CaptureWorker,
    CaptureWorker,
))
    ensures
        workers.0.state == WorkerState::Idle,
        workers.1.state == WorkerState::Idle,
        rectif_params matches Some(pair) ==> workers.0.rectif_params == Some(pair.left)
            && workers.1.rectif_params == Some(pair.right),
        rectif_params is None ==> workers.0.rectif_params is None && workers.1.rectif_params
            is None,
{
    let (left, right) = match rectif_params {
        Some(pair) => (Some(pair.left), Some(pair.right)),
        None => (None, None),
    };
    (CaptureWorker::new(left), CaptureWorker::new(right))
}

/// An answer of a worker to one `Capture`.
pub type Reply = Result<(GrayFloatImage, u64), Error>;

/// What a worker has come to after a sequence of events.
pub struct WorkerRun {
    /// The state it is in.
    pub state: WorkerState,
    /// The answers it has sent, oldest first.
    pub replies: Seq<Reply>,
    /// Whether every event came when the worker waited for it.
    pub in_turn: bool,
}

/// Runs a worker from `state` through `events`.
pub open spec fn worker_run(
    state: WorkerState,
    rectif_params: Option<RectifParams>,
    events: Seq<WorkerEvent>,
) -> WorkerRun
    decreases events.len(),
{
    if events.len() == 0 {
        WorkerRun { state, replies: Seq::empty(), in_turn: true }
    } else {
        let before = worker_run(state, rectif_params, events.drop_last());
        let (next, action) = worker_transition(before.state, rectif_params, events.last());
        WorkerRun {
            state: next,
            replies: match action {
                WorkerAction::Reply(reply) => before.replies.push(reply),
                _ => before.replies,
            },
            in_turn: before.in_turn && before.state.accepts(&events.last()),
        }
    }
}

/// What the world outside has to say during one capture: what the camera
/// delivers, what the decoder makes of a frame, and what rectification makes
/// of an image. The later ones are asked for only if the earlier succeeded.
pub struct Exchange {
    pub acquired: Result<RawFrame, String>,
    pub decoded: Result<GrayFloatImage, String>,
    pub rectified: GrayFloatImage,
}

impl Exchange {
    /// The events that reach a worker during this exchange, from the
    /// `Capture` command on.
    pub open spec fn events(&self, rectif_params: Option<RectifParams>) -> Seq<WorkerEvent> {
        let command = WorkerEvent::Command(WorkerCmd::Capture);
        let acquired = WorkerEvent::Acquired(self.acquired);
        let decoded = WorkerEvent::Decoded(self.decoded);
        if self.acquired is Err {
            seq![command, acquired]
        } else if self.decoded is Err || rectif_params is None {
            seq![command, acquired, decoded]
        } else {
            seq![command, acquired, decoded, WorkerEvent::Rectified(self.rectified)]
        }
    }

    /// The answer that this exchange is owed: the camera's failure or the
    /// decoder's, or else the image, rectified where a worker has parameters,
    /// with the time at which the camera took the frame.
    pub open spec fn reply(&self, rectif_params: Option<RectifParams>) -> Reply {
        match self.acquired {
            Err(report) => Err(Error::CameraCaptureError(report)),
            Ok(frame) => match self.decoded {
                Err(report) => Err(Error::ImageConversionError(report)),
                Ok(img) => Ok(
                    (
                        if rectif_params is Some {
                            self.rectified
                        } else {
                            img
                        },
                        frame.timestamp,
                    ),
                ),
            },
        }
    }
}

/// The events of a series of exchanges, one capture after the other.
pub open spec fn session_events(
    exchanges: Seq<Exchange>,
    rectif_params: Option<RectifParams>,
) -> Seq<WorkerEvent>
    decreases exchanges.len(),
{
    if exchanges.len() == 0 {
        Seq::empty()
    } else {
        session_events(exchanges.drop_last(), rectif_params) + exchanges.last().events(
            rectif_params,
        )
    }
}

/// Running through two sequences of events in a row is running through the
/// second from where the first has led.
pub proof fn lemma_worker_run_append(
    state: WorkerState,
    rectif_params: Option<RectifParams>,
    first: Seq<WorkerEvent>,
    second: Seq<WorkerEvent>,
)
    ensures
        ({
            let a = worker_run(state, rectif_params, first);
            let b = worker_run(a.state, rectif_params, second);
            worker_run(state, rectif_params, first + second) == WorkerRun {
                state: b.state,
                replies: a.replies + b.replies,
                in_turn: a.in_turn && b.in_turn,
            }
        }),
    decreases second.len(),
{
    let a = worker_run(state, rectif_params, first);
    if second.len() == 0 {
        assert(first + second =~= first);
        assert(a.replies + Seq::<Reply>::empty() =~= a.replies);
    } else {
        lemma_worker_run_append(state, rectif_params, first, second.drop_last());
        assert((first + second).drop_last() =~= first + second.drop_last());
        assert((first + second).last() == second.last());
        let b0 = worker_run(a.state, rectif_params, second.drop_last());
        let (next, action) = worker_transition(b0.state, rectif_params, second.last());
        match action {
            WorkerAction::Reply(reply) => {
                assert((a.replies + b0.replies).push(reply) =~= a.replies + b0.replies.push(
                    reply,
                ));
            },
            _ => {},
        }
    }
}

/// One capture, served by an idle worker, yields exactly the one answer that
/// the exchange is owed and leaves the worker idle again, whether the capture
/// succeeded or not.
pub proof fn lemma_one_capture_one_reply(exchange: Exchange, rectif_params: Option<RectifParams>)
    ensures
        worker_run(WorkerState::Idle, rectif_params, exchange.events(rectif_params))
            == (WorkerRun {
            state: WorkerState::Idle,
            replies: seq![exchange.reply(rectif_params)],
            in_turn: true,
        }),
{
    let events = exchange.events(rectif_params);
    let e1 = events.subrange(0, 1);
    assert(e1.drop_last() =~= Seq::<WorkerEvent>::empty());
    assert(worker_run(WorkerState::Idle, rectif_params, e1.drop_last()).in_turn);
    let r1 = worker_run(WorkerState::Idle, rectif_params, e1);
    assert(r1.state == WorkerState::Acquiring && r1.replies =~= Seq::<Reply>::empty()
        && r1.in_turn);
    let e2 = events.subrange(0, 2);
    assert(e2.drop_last() =~= e1);
    let r2 = worker_run(WorkerState::Idle, rectif_params, e2);
    if exchange.acquired is Err {
        assert(events =~= e2);
        assert(r2.replies =~= seq![exchange.reply(rectif_params)]);
    } else {
        assert(r2.replies =~= Seq::<Reply>::empty());
        let e3 = events.subrange(0, 3);
        assert(e3.drop_last() =~= e2);
        let r3 = worker_run(WorkerState::Idle, rectif_params, e3);
        if exchange.decoded is Err || rectif_params is None {
            assert(events =~= e3);
            assert(r3.replies =~= seq![exchange.reply(rectif_params)]);
        } else {
            assert(r3.replies =~= Seq::<Reply>::empty());
            let e4 = events.subrange(0, 4);
            assert(e4.drop_last() =~= e3);
            assert(events =~= e4);
            let r4 = worker_run(WorkerState::Idle, rectif_params, e4);
            assert(r4.replies =~= seq![exchange.reply(rectif_params)]);
        }
    }
}

/// A worker that serves any number of captures in a row sends exactly one
/// answer for each, in the order of the commands: the answer in place `i` is
/// the one that exchange `i` is owed, be it an image or an error. Every event
/// comes in turn, and the worker ends idle, ready for more.
pub proof fn lemma_replies_pair_with_commands(
    exchanges: Seq<Exchange>,
    rectif_params: Option<RectifParams>,
)
    ensures
        ({
            let run = worker_run(
                WorkerState::Idle,
                rectif_params,
                session_events(exchanges, rectif_params),
            );
            &&& run.state == WorkerState::Idle
            &&& run.in_turn
            &&& run.replies.len() == exchanges.len()
            &&& forall|i: int|
                0 <= i < exchanges.len() ==> run.replies[i] == (#[trigger] exchanges[i]).reply(
                    rectif_params,
                )
        }),
    decreases exchanges.len(),
{
    if exchanges.len() > 0 {
        let earlier = exchanges.drop_last();
        let last = exchanges.last();
        lemma_replies_pair_with_commands(earlier, rectif_params);
        lemma_worker_run_append(
            WorkerState::Idle,
            rectif_params,
            session_events(earlier, rectif_params),
            last.events(rectif_params),
        );
        lemma_one_capture_one_reply(last, rectif_params);
        let before = worker_run(
            WorkerState::Idle,
            rectif_params,
            session_events(earlier, rectif_params),
        );
        let run = worker_run(
            WorkerState::Idle,
            rectif_params,
            session_events(exchanges, rectif_params),
        );
        assert(run.replies == before.replies + seq![last.reply(rectif_params)]);
        assert forall|i: int| 0 <= i < exchanges.len() implies run.replies[i] == (
        #[trigger] exchanges[i]).reply(rectif_params) by {
            if i < earlier.len() {
                assert(exchanges[i] == earlier[i]);
                assert(run.replies[i] == before.replies[i]);
            }
        }
    }
}

/// `Stop`, and likewise a hang-up of the stream, ends an idle worker without
/// an answer, and a terminated worker waits for nothing more.
pub proof fn lemma_stop_terminates(rectif_params: Option<RectifParams>, event: WorkerEvent)
    requires
        event == WorkerEvent::Command(WorkerCmd::Stop) || event == WorkerEvent::Disconnected,
    ensures
        WorkerState::Idle.accepts(&event),
        worker_transition(WorkerState::Idle, rectif_params, event) == (
            WorkerState::Terminated,
            WorkerAction::Exit,
        ),
        forall|later: WorkerEvent| !WorkerState::Terminated.accepts(&later),
{
}

/// A worker that is serving a capture takes no command: `Stop` is seen only
/// between captures.
pub proof fn lemma_capture_not_interrupted(state: WorkerState, cmd: WorkerCmd)
    requires
        state.capturing(),
    ensures
        !state.accepts(&WorkerEvent::Command(cmd)),
        !state.accepts(&WorkerEvent::Disconnected),
{
}

} // verus!
