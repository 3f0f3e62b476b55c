//! The steady-state loop: poll the window, acquire an image, present it.
//!
//! The loop is a state machine that never touches the window or the driver
//! itself. Its state says which action is due ([`FrameLoop::pending`]); the
//! caller carries the action out and reports how it went
//! ([`FrameLoop::step`]). A close request seen while polling ends the loop
//! before anything more is acquired or presented. A failed acquire or present
//! is fatal and ends the loop with an error.

use crate::error::BringUpError;
use vstd::prelude::*;

verus! {

/// The timeout of an acquire: the longest there is, which amounts to waiting
/// without bound.
pub const ACQUIRE_TIMEOUT: u64 = 0xffff_ffff_ffff_ffff;

/// The number of semaphores that a present waits on. Presentation does not
/// wait for rendering to complete.
pub const PRESENT_WAIT_SEMAPHORES: u32 = 0;

/// Whether the loop still runs.
#[derive(Clone, Copy, Debug, PartialEq, Eq, Structural)]
pub enum FrameLoopState {
    Running,
    /// The window was asked to close. Nothing leads out of this state.
    Closed,
}

/// The two semaphores that are created for the loop and live as long as it
/// does.
#[derive(Clone, Copy, Debug, PartialEq, Eq, Structural)]
pub enum FrameSemaphore {
    /// Signalled when an acquired image is ready to be used.
    ImageAcquired,
    /// Meant to be signalled when rendering to an image is done. No action of
    /// the loop signals it or waits on it.
    RenderingComplete,
}

/// What the caller is asked to do next.
#[derive(Clone, Copy, Debug, PartialEq, Eq, Structural)]
pub enum FrameAction {
    /// Drain the window's pending events.
    PollEvents,
    /// Acquire the next image of the swapchain, wait at most `timeout` for
    /// it, and have `signal` signalled when it is ready.
    AcquireImage { timeout: u64, signal: FrameSemaphore },
    /// Present the image at `image_index` on the queue, after waiting on
    /// `wait_semaphore_count` semaphores.
    Present { image_index: u32, wait_semaphore_count: u32 },
    /// Leave the loop.
    Stop,
}

/// What the caller reports back.
#[derive(Clone, Copy, Debug, PartialEq, Eq, Structural)]
pub enum FrameEvent {
    /// The window's events were drained; `close_requested` tells whether a
    /// close request was among them.
    Polled { close_requested: bool },
    /// The swapchain handed out the image at `image_index`.
    ImageAcquired { image_index: u32 },
    AcquireFailed,
    Presented,
    PresentFailed,
}

/// The loop, by the answer that it waits for.
#[derive(Clone, Copy, Debug, PartialEq, Eq, Structural)]
pub enum FrameLoop {
    Polling,
    Acquiring,
    Presenting { image_index: u32 },
    Closed,
}

impl FrameLoop {
    /// The loop at its start: running, with the first poll due.
    pub open spec fn spec_new() -> FrameLoop {
        FrameLoop::Polling
    }

    /// Whether the loop still runs.
    pub open spec fn spec_state(self) -> FrameLoopState {
        match self {
            FrameLoop::Closed => FrameLoopState::Closed,
            _ => FrameLoopState::Running,
        }
    }

    /// The action that is due.
    pub open spec fn spec_pending(self) -> FrameAction {
        match self {
            FrameLoop::Polling => FrameAction::PollEvents,
            FrameLoop::Acquiring => FrameAction::AcquireImage {
                timeout: ACQUIRE_TIMEOUT,
                signal: FrameSemaphore::ImageAcquired,
            },
            FrameLoop::Presenting { image_index } => FrameAction::Present {
                image_index,
                wait_semaphore_count: PRESENT_WAIT_SEMAPHORES,
            },
            FrameLoop::Closed => FrameAction::Stop,
        }
    }

    /// Whether `event` reports on the action that is due.
    pub open spec fn spec_answers(self, event: FrameEvent) -> bool {
        match (self, event) {
            (FrameLoop::Polling, FrameEvent::Polled { .. }) => true,
            (FrameLoop::Acquiring, FrameEvent::ImageAcquired { .. }) => true,
            (FrameLoop::Acquiring, FrameEvent::AcquireFailed) => true,
            (FrameLoop::Presenting { .. }, FrameEvent::Presented) => true,
            (FrameLoop::Presenting { .. }, FrameEvent::PresentFailed) => true,
            _ => false,
        }
    }

    /// The loop after `event`. A poll without a close request leads on to the
    /// acquire, one with a close request closes the loop. An acquired image is
    /// presented next, and after the present the next poll is due. A failed
    /// acquire or present is an error. An event that does not report on the
    /// action that is due changes nothing.
    pub open spec fn spec_step(self, event: FrameEvent) -> Result<FrameLoop, BringUpError> {
        match (self, event) {
            (FrameLoop::Polling, FrameEvent::Polled { close_requested }) => Ok(
                if close_requested {
                    FrameLoop::Closed
                } else {
                    FrameLoop::Acquiring
                },
            ),
            (FrameLoop::Acquiring, FrameEvent::ImageAcquired { image_index }) => Ok(
                FrameLoop::Presenting { image_index },
            ),
            (FrameLoop::Acquiring, FrameEvent::AcquireFailed) => Err(BringUpError::Presentation),
            (FrameLoop::Presenting { .. }, FrameEvent::Presented) => Ok(FrameLoop::Polling),
            (FrameLoop::Presenting { .. }, FrameEvent::PresentFailed) => Err(
                BringUpError::Presentation,
            ),
            _ => Ok(self),
        }
    }

    /// The loop after a whole sequence of events, or the error of the first
    /// event that fails.
    pub open spec fn spec_run(self, events: Seq<FrameEvent>) -> Result<FrameLoop, BringUpError>
        decreases events.len(),
    {
        if events.len() == 0 {
            Ok(self)
        } else {
            match self.spec_step(events[0]) {
                Ok(next) => next.spec_run(events.drop_first()),
                Err(e) => Err(e),
            }
        }
    }

    /// Starts the loop.
    pub fn new() -> (frame_loop: FrameLoop)
        ensures
            frame_loop == FrameLoop::spec_new(),
            frame_loop.spec_state() == FrameLoopState::Running,
            frame_loop.spec_pending() == FrameAction::PollEvents,
    {
        FrameLoop::Polling
    }

    /// Tells whether the loop still runs.
    pub fn state(&self) -> (state: FrameLoopState)
        ensures
            state == self.spec_state(),
    {
        match self {
            FrameLoop::Closed => FrameLoopState::Closed,
            _ => FrameLoopState::Running,
        }
    }

    /// Tells which action is due.
    pub fn pending(&self) -> (action: FrameAction)
        ensures
            action == self.spec_pending(),
            action == FrameAction::Stop <==> self.spec_state() == FrameLoopState::Closed,
    {
        match self {
            FrameLoop::Polling => FrameAction::PollEvents,
            FrameLoop::Acquiring => FrameAction::AcquireImage {
                timeout: ACQUIRE_TIMEOUT,
                signal: FrameSemaphore::ImageAcquired,
            },
            FrameLoop::Presenting { image_index } => FrameAction::Present {
                image_index: *image_index,
                wait_semaphore_count: PRESENT_WAIT_SEMAPHORES,
            },
            FrameLoop::Closed => FrameAction::Stop,
        }
    }

    /// Takes the loop through `event`.
    pub fn step(self, event: FrameEvent) -> (next: Result<FrameLoop, BringUpError>)
        ensures
            next == self.spec_step(event),
            next is Err <==> (self == FrameLoop::Acquiring && event == FrameEvent::AcquireFailed)
                || (self is Presenting && event == FrameEvent::PresentFailed),
            next is Err ==> next == Err::<FrameLoop, BringUpError>(BringUpError::Presentation),
    {
        match (self, event) {
            (FrameLoop::Polling, FrameEvent::Polled { close_requested }) => {
                if close_requested {
                    Ok(FrameLoop::Closed)
                } else {
                    Ok(FrameLoop::Acquiring)
                }
            },
            (FrameLoop::Acquiring, FrameEvent::ImageAcquired { image_index }) => Ok(
                FrameLoop::Presenting { image_index },
            ),
            (FrameLoop::Acquiring, FrameEvent::AcquireFailed) => Err(BringUpError::Presentation),
            (FrameLoop::Presenting { .. }, FrameEvent::Presented) => Ok(FrameLoop::Polling),
            (FrameLoop::Presenting { .. }, FrameEvent::PresentFailed) => Err(
                BringUpError::Presentation,
            ),
            (unchanged, _) => Ok(unchanged),
        }
    }
}

/// A close request that is seen while polling closes the loop, whatever else
/// is the case, and the closed loop asks for nothing but to stop.
pub proof fn lemma_close_request_closes()
    ensures
        FrameLoop::Polling.spec_step(FrameEvent::Polled { close_requested: true }) == Ok::<
            FrameLoop,
            BringUpError,
        >(FrameLoop::Closed),
        FrameLoop::Closed.spec_state() == FrameLoopState::Closed,
        FrameLoop::Closed.spec_pending() == FrameAction::Stop,
{
}

/// The loop closes in one way only: by a close request that is seen while
/// polling.
pub proof fn lemma_only_a_close_request_closes(before: FrameLoop, event: FrameEvent)
    requires
        before.spec_state() == FrameLoopState::Running,
        before.spec_step(event) == Ok::<FrameLoop, BringUpError>(FrameLoop::Closed),
    ensures
        before == FrameLoop::Polling,
        event == (FrameEvent::Polled { close_requested: true }),
{
}

/// Nothing leads out of the closed state: whatever is reported to a closed
/// loop, in any number, it stays closed and fails on nothing.
pub proof fn lemma_closed_is_terminal(events: Seq<FrameEvent>)
    ensures
        FrameLoop::Closed.spec_run(events) == Ok::<FrameLoop, BringUpError>(FrameLoop::Closed),
    decreases events.len(),
{
    if events.len() > 0 {
        lemma_closed_is_terminal(events.drop_first());
    }
}

/// Running through `first + second` is running through `first` and then,
/// from where that ended, through `second`.
pub proof fn lemma_run_splits(start: FrameLoop, first: Seq<FrameEvent>, second: Seq<FrameEvent>)
    ensures
        start.spec_run(first + second) == match start.spec_run(first) {
            Ok(middle) => middle.spec_run(second),
            Err(e) => Err(e),
        },
    decreases first.len(),
{
    if first.len() == 0 {
        assert(first + second =~= second);
    } else {
        assert((first + second)[0] == first[0]);
        assert((first + second).drop_first() =~= first.drop_first() + second);
        match start.spec_step(first[0]) {
            Ok(next) => {
                lemma_run_splits(next, first.drop_first(), second);
            },
            Err(_) => {},
        }
    }
}

/// Once a run has closed the loop, no continuation of it acquires or presents
/// anything: after each further event, however many follow, the loop is still
/// closed, and the only action that it asks for is to stop.
pub proof fn lemma_nothing_follows_a_close(
    start: FrameLoop,
    before: Seq<FrameEvent>,
    after: Seq<FrameEvent>,
)
    requires
        start.spec_run(before) == Ok::<FrameLoop, BringUpError>(FrameLoop::Closed),
    ensures
        forall|k: int|
            0 <= k <= after.len() ==> #[trigger] start.spec_run(before + after.take(k)) == Ok::<
                FrameLoop,
                BringUpError,
            >(FrameLoop::Closed),
        start.spec_run(before + after) == Ok::<FrameLoop, BringUpError>(FrameLoop::Closed),
        FrameLoop::Closed.spec_pending() == FrameAction::Stop,
{
    assert forall|k: int| 0 <= k <= after.len() implies #[trigger] start.spec_run(
        before + after.take(k),
    ) == Ok::<FrameLoop, BringUpError>(FrameLoop::Closed) by {
        lemma_run_splits(start, before, after.take(k));
        lemma_closed_is_terminal(after.take(k));
    }
    assert(after.take(after.len() as int) =~= after);
}

/// One frame without a close request and without a failure takes the loop
/// from a poll through the acquire and the present back to the next poll, and
/// the image that it asks to present is the one that was acquired.
pub proof fn lemma_frame_cycle(image_index: u32)
    ensures
        FrameLoop::spec_new().spec_run(
            seq![
                FrameEvent::Polled { close_requested: false },
                FrameEvent::ImageAcquired { image_index },
            ],
        ) == Ok::<FrameLoop, BringUpError>(FrameLoop::Presenting { image_index }),
        (FrameLoop::Presenting { image_index }).spec_pending() == (FrameAction::Present {
            image_index,
            wait_semaphore_count: 0,
        }),
        FrameLoop::spec_new().spec_run(
            seq![
                FrameEvent::Polled { close_requested: false },
                FrameEvent::ImageAcquired { image_index },
                FrameEvent::Presented,
            ],
        ) == Ok::<FrameLoop, BringUpError>(FrameLoop::spec_new()),
{
    reveal_with_fuel(FrameLoop::spec_run, 4);
    let polled = FrameEvent::Polled { close_requested: false };
    let acquired = FrameEvent::ImageAcquired { image_index };
    let two = seq![polled, acquired];
    let three = seq![polled, acquired, FrameEvent::Presented];
    assert(two.drop_first() =~= seq![acquired]);
    assert(two.drop_first().drop_first() =~= Seq::<FrameEvent>::empty());
    assert(three.drop_first() =~= seq![acquired, FrameEvent::Presented]);
    assert(three.drop_first().drop_first() =~= seq![FrameEvent::Presented]);
    assert(three.drop_first().drop_first().drop_first() =~= Seq::<FrameEvent>::empty());
}

/// Whatever state the loop is in: an acquire waits without bound and has the
/// "image acquired" semaphore signalled, and a present waits on no semaphore
/// at all. So nothing ever waits for rendering to complete.
pub proof fn lemma_rendering_is_never_waited_for(frame_loop: FrameLoop)
    ensures
        frame_loop.spec_pending() matches FrameAction::AcquireImage { timeout, signal } ==> timeout
            == u64::MAX && signal == FrameSemaphore::ImageAcquired,
        frame_loop.spec_pending() matches FrameAction::Present { wait_semaphore_count, .. }
            ==> wait_semaphore_count == 0,
{
}

} // verus!
