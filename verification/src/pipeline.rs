//! The order of the bring-up.
//!
//! The stages run once, one after the other, each on what the one before it
//! produced. A stage that fails ends the bring-up with the error that names
//! it; no stage is retried and none is entered again.

use crate::error::BringUpError;
use vstd::prelude::*;

verus! {

/// The stages, in the order in which they run.
#[derive(Clone, Copy, Debug, PartialEq, Eq, Structural)]
pub enum Stage {
    /// Creating the instance and registering the diagnostics bridge on it.
    Instance,
    /// Listing the adapters and picking one.
    DeviceSelection,
    /// Opening the logical device and its queue on the picked adapter.
    LogicalDevice,
    /// Binding the window to a surface and building the swapchain.
    Swapchain,
    /// Acquiring and presenting, until the window closes.
    FrameLoop,
}

impl Stage {
    /// The position of the stage in the sequence, from 0.
    pub open spec fn spec_position(self) -> int {
        match self {
            Stage::Instance => 0,
            Stage::DeviceSelection => 1,
            Stage::LogicalDevice => 2,
            Stage::Swapchain => 3,
            Stage::FrameLoop => 4,
        }
    }

    /// The error that a failure of the stage is reported as.
    pub open spec fn spec_error(self) -> BringUpError {
        match self {
            Stage::Instance => BringUpError::InstanceCreation,
            Stage::DeviceSelection => BringUpError::NoDeviceFound,
            Stage::LogicalDevice => BringUpError::DeviceCreation,
            Stage::Swapchain => BringUpError::SwapchainCreation,
            Stage::FrameLoop => BringUpError::Presentation,
        }
    }

    /// The stage that follows, if any does.
    pub open spec fn spec_next(self) -> Option<Stage> {
        match self {
            Stage::Instance => Some(Stage::DeviceSelection),
            Stage::DeviceSelection => Some(Stage::LogicalDevice),
            Stage::LogicalDevice => Some(Stage::Swapchain),
            Stage::Swapchain => Some(Stage::FrameLoop),
            Stage::FrameLoop => None,
        }
    }

    /// Where the stage's end leads: to its error if it failed, else to the
    /// stage that follows, or to none after the last.
    pub open spec fn spec_advance(self, succeeded: bool) -> Result<Option<Stage>, BringUpError> {
        if succeeded {
            Ok(self.spec_next())
        } else {
            Err(self.spec_error())
        }
    }

    /// The stage that the bring-up starts with.
    pub fn first() -> (stage: Stage)
        ensures
            stage == Stage::Instance,
            stage.spec_position() == 0,
    {
        Stage::Instance
    }

    /// Computes [`Stage::spec_error`].
    pub fn error(self) -> (error: BringUpError)
        ensures
            error == self.spec_error(),
    {
        match self {
            Stage::Instance => BringUpError::InstanceCreation,
            Stage::DeviceSelection => BringUpError::NoDeviceFound,
            Stage::LogicalDevice => BringUpError::DeviceCreation,
            Stage::Swapchain => BringUpError::SwapchainCreation,
            Stage::FrameLoop => BringUpError::Presentation,
        }
    }

    /// Computes [`Stage::spec_advance`]: given whether the stage succeeded,
    /// tells what comes next. It fails exactly when the stage did.
    pub fn advance(self, succeeded: bool) -> (next: Result<Option<Stage>, BringUpError>)
        ensures
            next == self.spec_advance(succeeded),
            next is Err <==> !succeeded,
    {
        if !succeeded {
            return Err(self.error());
        }
        match self {
            Stage::Instance => Ok(Some(Stage::DeviceSelection)),
            Stage::DeviceSelection => Ok(Some(Stage::LogicalDevice)),
            Stage::LogicalDevice => Ok(Some(Stage::Swapchain)),
            Stage::Swapchain => Ok(Some(Stage::FrameLoop)),
            Stage::FrameLoop => Ok(None),
        }
    }
}

/// The sequence is linear: the stage that follows a stage is the next in
/// position, and only the last stage is followed by none. So no stage is ever
/// reached a second time.
pub proof fn lemma_stages_run_in_order(stage: Stage)
    ensures
        0 <= stage.spec_position() <= 4,
        stage.spec_next() is None <==> stage == Stage::FrameLoop,
        stage.spec_next() matches Some(next) ==> next.spec_position() == stage.spec_position() + 1,
{
}

/// Each stage fails with an error of its own, so the error tells the stage.
pub proof fn lemma_errors_name_their_stage(a: Stage, b: Stage)
    ensures
        a.spec_error() == b.spec_error() <==> a == b,
{
}

} // verus!
