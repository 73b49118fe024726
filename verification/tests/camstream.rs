use cv_camstream::camstream::{
    CaptureAction, CaptureCall, CaptureEvent, Side, StereoFrame, StopAction, StopCall, StopEvent,
};
use cv_camstream::error::Error;
use cv_camstream::image::GrayFloatImage;
use cv_camstream::worker::{CaptureWorker, RawFrame, WorkerAction, WorkerCmd, WorkerEvent};
use std::collections::VecDeque;

fn image(width: usize, height: usize, value: f32) -> GrayFloatImage {
    GrayFloatImage::from_raw(width, height, vec![value.to_bits(); width * height]).unwrap()
}

type Reply = Result<(GrayFloatImage, u64), Error>;

/// A worker with a mock camera behind a queue of answers, as the thread and
/// the channel around a real worker make it.
struct MockSide {
    worker: CaptureWorker,
    frames: VecDeque<Result<u64, &'static str>>,
    value: f32,
    answers: VecDeque<Reply>,
    alive: bool,
}

impl MockSide {
    fn new(value: f32, frames: Vec<Result<u64, &'static str>>) -> Self {
        MockSide {
            worker: CaptureWorker::new(None),
            frames: frames.into(),
            value,
            answers: VecDeque::new(),
            alive: true,
        }
    }

    fn send(&mut self, cmd: WorkerCmd) -> bool {
        if !self.alive {
            return false;
        }
        let mut event = WorkerEvent::Command(cmd);
        loop {
            assert!(self.worker.takes(&event));
            event = match self.worker.step(event) {
                WorkerAction::Acquire => WorkerEvent::Acquired(
                    match self.frames.pop_front().expect("a frame for every capture") {
                        Ok(timestamp) => Ok(RawFrame { data: vec![0], timestamp }),
                        Err(report) => Err(report.to_string()),
                    },
                ),
                WorkerAction::Decode(_) => WorkerEvent::Decoded(Ok(image(2, 2, self.value))),
                WorkerAction::Rectify(_, img) => WorkerEvent::Rectified(img),
                WorkerAction::Reply(reply) => {
                    self.answers.push_back(reply);
                    return true;
                }
                WorkerAction::Exit => {
                    self.alive = false;
                    return true;
                }
            };
        }
    }
}

/// Runs one stereo capture against two mock sides.
fn capture(left: &mut MockSide, right: &mut MockSide) -> Result<StereoFrame, Error> {
    let (mut call, mut action) = CaptureCall::begin();
    loop {
        let event = match action {
            CaptureAction::Send(Side::Left, cmd) => CaptureEvent::Sent(left.send(cmd)),
            CaptureAction::Send(Side::Right, cmd) => CaptureEvent::Sent(right.send(cmd)),
            CaptureAction::Await(Side::Left) => CaptureEvent::Answered(left.answers.pop_front()),
            CaptureAction::Await(Side::Right) => CaptureEvent::Answered(right.answers.pop_front()),
            CaptureAction::Return(outcome) => return outcome,
        };
        assert!(call.takes(&event));
        let next = call.step(event);
        call = next.0;
        action = next.1;
    }
}

#[test]
fn frame_dimensions_are_those_of_the_left_image() {
    let frame = StereoFrame {
        left: image(640, 480, 0.0),
        right: image(320, 240, 0.0),
        left_timestamp: 1,
        right_timestamp: 2,
    };
    assert_eq!(frame.width(), 640);
    assert_eq!(frame.height(), 480);
}

#[test]
fn luma8_pair_is_left_then_right() {
    let frame = StereoFrame {
        left: image(2, 1, 1.0),
        right: image(1, 3, 0.5),
        left_timestamp: 1,
        right_timestamp: 2,
    };
    let (left, right) = frame.to_luma8_pair(|bits: u32| (f32::from_bits(bits) * 255.0) as u8);
    assert_eq!((left.width(), left.height()), (2, 1));
    assert_eq!((right.width(), right.height()), (1, 3));
    assert_eq!(left.into_raw(), vec![255, 255]);
    assert_eq!(right.into_raw(), vec![127, 127, 127]);
}

#[test]
fn capture_commands_left_then_right_then_awaits_left_then_right() {
    let (call, action) = CaptureCall::begin();
    assert!(matches!(action, CaptureAction::Send(Side::Left, WorkerCmd::Capture)));
    let (call, action) = call.step(CaptureEvent::Sent(true));
    assert!(matches!(action, CaptureAction::Send(Side::Right, WorkerCmd::Capture)));
    let (call, action) = call.step(CaptureEvent::Sent(true));
    assert!(matches!(action, CaptureAction::Await(Side::Left)));
    let (call, action) = call.step(CaptureEvent::Answered(Some(Ok((image(2, 2, 0.25), 10)))));
    assert!(matches!(action, CaptureAction::Await(Side::Right)));
    let (call, action) = call.step(CaptureEvent::Answered(Some(Ok((image(2, 2, 0.75), 20)))));
    match action {
        CaptureAction::Return(Ok(frame)) => {
            assert_eq!(frame.left_timestamp, 10);
            assert_eq!(frame.right_timestamp, 20);
            assert_eq!(frame.left.into_raw(), vec![0.25f32.to_bits(); 4]);
            assert_eq!(frame.right.into_raw(), vec![0.75f32.to_bits(); 4]);
        }
        other => panic!("expected a frame, got {:?}", other),
    }
    assert!(matches!(call, CaptureCall::Returned));
    assert!(!call.takes(&CaptureEvent::Sent(true)));
    assert!(!call.takes(&CaptureEvent::Answered(None)));
}

#[test]
fn capture_returns_each_workers_own_timestamp() {
    let mut left = MockSide::new(0.25, vec![Ok(1_000_001)]);
    let mut right = MockSide::new(0.75, vec![Ok(1_000_042)]);
    let frame = capture(&mut left, &mut right).expect("both cameras deliver");
    assert_eq!(frame.left_timestamp, 1_000_001);
    assert_eq!(frame.right_timestamp, 1_000_042);
    assert_eq!(frame.left.into_raw(), vec![0.25f32.to_bits(); 4]);
    assert_eq!(frame.right.into_raw(), vec![0.75f32.to_bits(); 4]);
    assert!(left.answers.is_empty());
    assert!(right.answers.is_empty());
}

#[test]
fn left_failure_is_returned() {
    let mut left = MockSide::new(0.25, vec![Err("left camera unplugged")]);
    let mut right = MockSide::new(0.75, vec![Ok(7)]);
    match capture(&mut left, &mut right) {
        Err(Error::CameraCaptureError(report)) => assert_eq!(report, "left camera unplugged"),
        other => panic!("expected the left error, got {:?}", other),
    }
}

#[test]
fn left_failure_leaves_the_right_answer_queued() {
    let mut left = MockSide::new(0.25, vec![Err("glitch"), Ok(200)]);
    let mut right = MockSide::new(0.75, vec![Ok(100), Ok(201)]);
    assert!(capture(&mut left, &mut right).is_err());
    // The right worker did capture; its answer was not taken.
    assert_eq!(right.answers.len(), 1);
    // The next capture pairs the new left image with that older right one.
    let frame = capture(&mut left, &mut right).unwrap();
    assert_eq!(frame.left_timestamp, 200);
    assert_eq!(frame.right_timestamp, 100);
    assert_eq!(right.answers.len(), 1);
}

#[test]
fn right_failure_is_returned() {
    let mut left = MockSide::new(0.25, vec![Ok(7)]);
    let mut right = MockSide::new(0.75, vec![Err("right camera unplugged")]);
    match capture(&mut left, &mut right) {
        Err(Error::CameraCaptureError(report)) => assert_eq!(report, "right camera unplugged"),
        other => panic!("expected the right error, got {:?}", other),
    }
    assert!(left.answers.is_empty());
    assert!(right.answers.is_empty());
}

#[test]
fn unsendable_command_ends_the_capture() {
    let (call, _) = CaptureCall::begin();
    let (call, action) = call.step(CaptureEvent::Sent(false));
    assert!(matches!(action, CaptureAction::Return(Err(Error::ChannelSendError))));
    assert!(matches!(call, CaptureCall::Returned));

    let (call, _) = CaptureCall::begin();
    let (call, _) = call.step(CaptureEvent::Sent(true));
    let (call, action) = call.step(CaptureEvent::Sent(false));
    assert!(matches!(action, CaptureAction::Return(Err(Error::ChannelSendError))));
    assert!(matches!(call, CaptureCall::Returned));
}

#[test]
fn hung_up_worker_ends_the_capture() {
    let (call, _) = CaptureCall::begin();
    let (call, _) = call.step(CaptureEvent::Sent(true));
    let (call, _) = call.step(CaptureEvent::Sent(true));
    let (call, action) = call.step(CaptureEvent::Answered(None));
    assert!(matches!(action, CaptureAction::Return(Err(Error::ChannelReceiveError))));
    assert!(matches!(call, CaptureCall::Returned));

    let (call, _) = CaptureCall::begin();
    let (call, _) = call.step(CaptureEvent::Sent(true));
    let (call, _) = call.step(CaptureEvent::Sent(true));
    let (call, _) = call.step(CaptureEvent::Answered(Some(Ok((image(1, 1, 0.0), 1)))));
    let (_, action) = call.step(CaptureEvent::Answered(None));
    assert!(matches!(action, CaptureAction::Return(Err(Error::ChannelReceiveError))));
}

#[test]
fn capture_takes_only_what_it_waits_for() {
    let (call, _) = CaptureCall::begin();
    assert!(call.takes(&CaptureEvent::Sent(true)));
    assert!(call.takes(&CaptureEvent::Sent(false)));
    assert!(!call.takes(&CaptureEvent::Answered(None)));
    let (call, _) = call.step(CaptureEvent::Sent(true));
    assert!(!call.takes(&CaptureEvent::Answered(None)));
    let (call, _) = call.step(CaptureEvent::Sent(true));
    assert!(call.takes(&CaptureEvent::Answered(None)));
    assert!(!call.takes(&CaptureEvent::Sent(true)));
}

#[test]
fn stop_tells_both_workers_then_joins_both() {
    let (call, action) = StopCall::begin();
    assert!(matches!(action, StopAction::Send(Side::Left, WorkerCmd::Stop)));
    let (call, action) = call.step(StopEvent::Sent(true));
    assert!(matches!(action, StopAction::Send(Side::Right, WorkerCmd::Stop)));
    let (call, action) = call.step(StopEvent::Sent(true));
    assert!(matches!(action, StopAction::Join(Side::Left)));
    let (call, action) = call.step(StopEvent::Joined(true));
    assert!(matches!(action, StopAction::Join(Side::Right)));
    let (call, action) = call.step(StopEvent::Joined(true));
    assert!(matches!(action, StopAction::Return(Ok(()))));
    assert_eq!(call, StopCall::Returned);
    assert!(!call.takes(&StopEvent::Sent(true)));
    assert!(!call.takes(&StopEvent::Joined(true)));
}

#[test]
fn stop_fails_on_the_first_unsendable_command() {
    let (call, _) = StopCall::begin();
    let (call, action) = call.step(StopEvent::Sent(false));
    assert!(matches!(action, StopAction::Return(Err(Error::ChannelSendError))));
    assert_eq!(call, StopCall::Returned);

    let (call, _) = StopCall::begin();
    let (call, _) = call.step(StopEvent::Sent(true));
    let (_, action) = call.step(StopEvent::Sent(false));
    assert!(matches!(action, StopAction::Return(Err(Error::ChannelSendError))));
}

#[test]
fn stop_fails_on_the_first_thread_that_did_not_end_cleanly() {
    let (call, _) = StopCall::begin();
    let (call, _) = call.step(StopEvent::Sent(true));
    let (call, _) = call.step(StopEvent::Sent(true));
    let (call, action) = call.step(StopEvent::Joined(false));
    assert!(matches!(action, StopAction::Return(Err(Error::ThreadJoinError))));
    assert_eq!(call, StopCall::Returned);

    let (call, _) = StopCall::begin();
    let (call, _) = call.step(StopEvent::Sent(true));
    let (call, _) = call.step(StopEvent::Sent(true));
    let (call, _) = call.step(StopEvent::Joined(true));
    let (_, action) = call.step(StopEvent::Joined(false));
    assert!(matches!(action, StopAction::Return(Err(Error::ThreadJoinError))));
}

#[test]
fn stop_takes_only_what_it_waits_for() {
    let (call, _) = StopCall::begin();
    assert!(call.takes(&StopEvent::Sent(true)));
    assert!(!call.takes(&StopEvent::Joined(true)));
    let (call, _) = call.step(StopEvent::Sent(true));
    let (call, _) = call.step(StopEvent::Sent(true));
    assert!(call.takes(&StopEvent::Joined(false)));
    assert!(!call.takes(&StopEvent::Sent(true)));
}

#[test]
fn stopped_workers_answer_nothing_more() {
    let mut left = MockSide::new(0.25, vec![]);
    let mut right = MockSide::new(0.75, vec![]);
    let (mut call, mut action) = StopCall::begin();
    let outcome = loop {
        let event = match action {
            StopAction::Send(Side::Left, cmd) => StopEvent::Sent(left.send(cmd)),
            StopAction::Send(Side::Right, cmd) => StopEvent::Sent(right.send(cmd)),
            StopAction::Join(Side::Left) => StopEvent::Joined(!left.alive),
            StopAction::Join(Side::Right) => StopEvent::Joined(!right.alive),
            StopAction::Return(outcome) => break outcome,
        };
        assert!(call.takes(&event));
        let next = call.step(event);
        call = next.0;
        action = next.1;
    };
    assert!(outcome.is_ok());
    assert!(!left.alive && !right.alive);
    assert!(matches!(capture(&mut left, &mut right), Err(Error::ChannelSendError)));
}
