//! What the logical device is created with: one queue of the first queue
//! family, the swapchain extension and the clip-distance feature.
//!
//! Whether that family can present to the surface is not verified here or
//! anywhere: the driver's answer to the creation is the only check.

use crate::bindings::swapchain_extension_name;
use crate::instance::names_view;
use vstd::prelude::*;

verus! {

/// The queue family that the one queue is requested from.
pub const QUEUE_FAMILY_INDEX: u32 = 0;

/// The number of queues requested.
pub const QUEUE_COUNT: u32 = 1;

/// The position, within its family, of the queue that is presented on.
pub const PRESENT_QUEUE_INDEX: u32 = 0;

/// The queues to create along with the device.
#[derive(Clone, Copy, Debug, PartialEq, Eq, Structural)]
pub struct QueueRequest {
    pub family_index: u32,
    pub count: u32,
}

/// The optional features of an adapter that the device switches on. The ones
/// that are not listed stay off.
#[derive(Clone, Copy, Debug, PartialEq, Eq, Structural)]
pub struct DeviceFeatures {
    pub shader_clip_distance: bool,
}

/// Everything that the creation of the logical device is parameterized with,
/// apart from the adapter itself.
#[derive(Clone, Debug)]
pub struct DeviceConfig {
    pub queues: QueueRequest,
    pub layers: Vec<String>,
    pub extensions: Vec<String>,
    pub features: DeviceFeatures,
}

/// The mathematical content of a [`DeviceConfig`].
pub struct DeviceConfigView {
    pub queues: QueueRequest,
    pub layers: Seq<Seq<char>>,
    pub extensions: Seq<Seq<char>>,
    pub features: DeviceFeatures,
}

impl View for DeviceConfig {
    type V = DeviceConfigView;

    open spec fn view(&self) -> DeviceConfigView {
        DeviceConfigView {
            queues: self.queues,
            layers: names_view(self.layers@),
            extensions: names_view(self.extensions@),
            features: self.features,
        }
    }
}

/// The device extensions that are switched on: swapchain support alone.
pub open spec fn spec_device_extension_names() -> Seq<Seq<char>> {
    seq!["VK_KHR_swapchain"@]
}

/// The one configuration that a device is created with: exactly one queue,
/// from queue family 0; no layer; the swapchain extension and no other;
/// clip-distance shading and no other feature.
pub open spec fn spec_device_config() -> DeviceConfigView {
    DeviceConfigView {
        queues: QueueRequest { family_index: QUEUE_FAMILY_INDEX, count: QUEUE_COUNT },
        layers: Seq::empty(),
        extensions: spec_device_extension_names(),
        features: DeviceFeatures { shader_clip_distance: true },
    }
}

/// Computes [`spec_device_extension_names`].
pub fn device_extension_names() -> (names: Vec<String>)
    ensures
        names_view(names@) == spec_device_extension_names(),
{
    let mut names: Vec<String> = Vec::new();
    names.push(swapchain_extension_name());
    assert(names_view(names@) =~= spec_device_extension_names());
    names
}

/// Computes [`spec_device_config`].
pub fn device_config() -> (config: DeviceConfig)
    ensures
        config@ == spec_device_config(),
{
    let layers: Vec<String> = Vec::new();
    assert(names_view(layers@) =~= Seq::<Seq<char>>::empty());
    DeviceConfig {
        queues: QueueRequest { family_index: QUEUE_FAMILY_INDEX, count: QUEUE_COUNT },
        layers,
        extensions: device_extension_names(),
        features: DeviceFeatures { shader_clip_distance: true },
    }
}

} // verus!
