//! The failures of the bring-up sequence and of the frame loop.
//!
//! Every one of them is fatal: nothing is retried and no degraded mode is
//! entered. The caller reports the failing stage and ends the process.

use vstd::prelude::*;

verus! {

/// What went wrong, named after the stage that failed.
#[derive(Clone, Copy, Debug, PartialEq, Eq, Structural)]
pub enum BringUpError {
    /// The driver rejected the instance, or the diagnostics hook could not be
    /// registered on it.
    InstanceCreation,
    /// The instance lists no adapter at all.
    NoDeviceFound,
    /// The driver rejected the queue family, the extension or the feature
    /// asked of the logical device.
    DeviceCreation,
    /// The surface could not be bound or the swapchain could not be built.
    SwapchainCreation,
    /// Acquiring or presenting an image failed.
    Presentation,
}

impl BringUpError {
    /// The text that identifies the failing stage.
    pub open spec fn spec_message(self) -> Seq<char> {
        match self {
            BringUpError::InstanceCreation => "Instance creation error"@,
            BringUpError::NoDeviceFound => "No GPU found!"@,
            BringUpError::DeviceCreation => "Device creation error"@,
            BringUpError::SwapchainCreation => "Swapchain creation error"@,
            BringUpError::Presentation => "Presentation error"@,
        }
    }

    /// The diagnostic message to end the process with.
    pub fn message(&self) -> (text: String)
        ensures
            text@ == self.spec_message(),
    {
        match self {
            BringUpError::InstanceCreation => "Instance creation error".to_owned(),
            BringUpError::NoDeviceFound => "No GPU found!".to_owned(),
            BringUpError::DeviceCreation => "Device creation error".to_owned(),
            BringUpError::SwapchainCreation => "Swapchain creation error".to_owned(),
            BringUpError::Presentation => "Presentation error".to_owned(),
        }
    }
}

/// Two different failures never share a message, so the message alone tells
/// which stage failed.
pub proof fn lemma_messages_identify_the_stage(a: BringUpError, b: BringUpError)
    ensures
        a.spec_message() == b.spec_message() <==> a == b,
{
    reveal_strlit("Instance creation error");
    reveal_strlit("No GPU found!");
    reveal_strlit("Device creation error");
    reveal_strlit("Swapchain creation error");
    reveal_strlit("Presentation error");
    assert(BringUpError::InstanceCreation.spec_message().len() == 23);
    assert(BringUpError::NoDeviceFound.spec_message().len() == 13);
    assert(BringUpError::DeviceCreation.spec_message().len() == 21);
    assert(BringUpError::SwapchainCreation.spec_message().len() == 24);
    assert(BringUpError::Presentation.spec_message().len() == 18);
}

} // verus!
