use niagara::error::BringUpError;
use niagara::frame_loop::{
    FrameAction, FrameEvent, FrameLoop, FrameLoopState, FrameSemaphore, ACQUIRE_TIMEOUT,
    PRESENT_WAIT_SEMAPHORES,
};

const ACQUIRE: FrameAction =
    FrameAction::AcquireImage { timeout: u64::MAX, signal: FrameSemaphore::ImageAcquired };

/// Drives the loop as a caller would: every action is answered with success,
/// and the poll number `close_at` (from 1) reports a close request.
fn drive(close_at: usize, limit: usize) -> (Vec<FrameAction>, FrameLoop) {
    let mut frame_loop = FrameLoop::new();
    let mut actions = Vec::new();
    let mut polls = 0;
    let mut next_image = 0;
    while actions.len() < limit {
        let action = frame_loop.pending();
        actions.push(action);
        let event = match action {
            FrameAction::PollEvents => {
                polls += 1;
                FrameEvent::Polled { close_requested: polls == close_at }
            }
            FrameAction::AcquireImage { .. } => {
                next_image += 1;
                FrameEvent::ImageAcquired { image_index: next_image % 3 }
            }
            FrameAction::Present { .. } => FrameEvent::Presented,
            FrameAction::Stop => break,
        };
        frame_loop = frame_loop.step(event).unwrap();
    }
    (actions, frame_loop)
}

#[test]
fn loop_starts_running_with_a_poll() {
    let frame_loop = FrameLoop::new();
    assert_eq!(frame_loop, FrameLoop::Polling);
    assert_eq!(frame_loop.state(), FrameLoopState::Running);
    assert_eq!(frame_loop.pending(), FrameAction::PollEvents);
}

#[test]
fn close_request_closes_the_loop_and_nothing_follows() {
    let frame_loop = FrameLoop::new();
    assert_eq!(frame_loop.state(), FrameLoopState::Running);
    let frame_loop = frame_loop.step(FrameEvent::Polled { close_requested: true }).unwrap();
    assert_eq!(frame_loop.state(), FrameLoopState::Closed);
    assert_eq!(frame_loop.pending(), FrameAction::Stop);

    let (actions, end) = drive(3, 100);
    assert_eq!(end.state(), FrameLoopState::Closed);
    assert_eq!(
        actions,
        vec![
            FrameAction::PollEvents,
            ACQUIRE,
            FrameAction::Present { image_index: 1, wait_semaphore_count: 0 },
            FrameAction::PollEvents,
            ACQUIRE,
            FrameAction::Present { image_index: 2, wait_semaphore_count: 0 },
            FrameAction::PollEvents,
            FrameAction::Stop,
        ]
    );
}

#[test]
fn close_on_the_first_poll_issues_no_frame_work() {
    let (actions, end) = drive(1, 100);
    assert_eq!(actions, vec![FrameAction::PollEvents, FrameAction::Stop]);
    assert_eq!(end, FrameLoop::Closed);
}

#[test]
fn closed_loop_stays_closed_whatever_is_reported() {
    let events = [
        FrameEvent::Polled { close_requested: false },
        FrameEvent::Polled { close_requested: true },
        FrameEvent::ImageAcquired { image_index: 0 },
        FrameEvent::AcquireFailed,
        FrameEvent::Presented,
        FrameEvent::PresentFailed,
    ];
    let mut frame_loop = FrameLoop::Closed;
    for a in events {
        for b in events {
            frame_loop = frame_loop.step(a).unwrap();
            assert_eq!(frame_loop, FrameLoop::Closed);
            frame_loop = frame_loop.step(b).unwrap();
            assert_eq!(frame_loop.state(), FrameLoopState::Closed);
            assert_eq!(frame_loop.pending(), FrameAction::Stop);
        }
    }
}

#[test]
fn loop_keeps_running_without_a_close_request() {
    let (actions, end) = drive(0, 30);
    assert_eq!(actions.len(), 30);
    assert_eq!(end.state(), FrameLoopState::Running);
    for (i, action) in actions.iter().enumerate() {
        match i % 3 {
            0 => assert_eq!(*action, FrameAction::PollEvents),
            1 => assert_eq!(*action, ACQUIRE),
            _ => assert!(matches!(action, FrameAction::Present { wait_semaphore_count: 0, .. })),
        }
    }
}

#[test]
fn acquired_image_is_the_one_presented() {
    let frame_loop = FrameLoop::Acquiring;
    let frame_loop = frame_loop.step(FrameEvent::ImageAcquired { image_index: 5 }).unwrap();
    assert_eq!(frame_loop, FrameLoop::Presenting { image_index: 5 });
    assert_eq!(
        frame_loop.pending(),
        FrameAction::Present { image_index: 5, wait_semaphore_count: PRESENT_WAIT_SEMAPHORES }
    );
    assert_eq!(PRESENT_WAIT_SEMAPHORES, 0);
    assert_eq!(frame_loop.step(FrameEvent::Presented), Ok(FrameLoop::Polling));
}

#[test]
fn acquire_waits_without_bound() {
    assert_eq!(ACQUIRE_TIMEOUT, u64::MAX);
    assert_eq!(
        FrameLoop::Acquiring.pending(),
        FrameAction::AcquireImage { timeout: u64::MAX, signal: FrameSemaphore::ImageAcquired }
    );
}

#[test]
fn failed_acquire_is_fatal() {
    assert_eq!(
        FrameLoop::Acquiring.step(FrameEvent::AcquireFailed),
        Err(BringUpError::Presentation)
    );
}

#[test]
fn failed_present_is_fatal() {
    assert_eq!(
        FrameLoop::Presenting { image_index: 2 }.step(FrameEvent::PresentFailed),
        Err(BringUpError::Presentation)
    );
}

#[test]
fn events_that_answer_nothing_change_nothing() {
    let polling = FrameLoop::Polling;
    assert_eq!(polling.step(FrameEvent::Presented), Ok(polling));
    assert_eq!(polling.step(FrameEvent::PresentFailed), Ok(polling));
    assert_eq!(polling.step(FrameEvent::AcquireFailed), Ok(polling));
    assert_eq!(polling.step(FrameEvent::ImageAcquired { image_index: 1 }), Ok(polling));
    let acquiring = FrameLoop::Acquiring;
    assert_eq!(acquiring.step(FrameEvent::Polled { close_requested: true }), Ok(acquiring));
    assert_eq!(acquiring.step(FrameEvent::Presented), Ok(acquiring));
    assert_eq!(acquiring.step(FrameEvent::PresentFailed), Ok(acquiring));
    let presenting = FrameLoop::Presenting { image_index: 4 };
    assert_eq!(presenting.step(FrameEvent::Polled { close_requested: true }), Ok(presenting));
    assert_eq!(presenting.step(FrameEvent::ImageAcquired { image_index: 9 }), Ok(presenting));
    assert_eq!(presenting.step(FrameEvent::AcquireFailed), Ok(presenting));
}
