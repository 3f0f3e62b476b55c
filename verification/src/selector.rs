//! Choice of the adapter to render on.
//!
//! Adapters are ranked by their class alone: a discrete GPU before an
//! integrated one, and an integrated one before anything else. Whether an
//! adapter can present to a surface at all is not looked at.

use crate::error::BringUpError;
use vstd::prelude::*;

verus! {

/// The class of an adapter.
#[derive(Clone, Copy, Debug, PartialEq, Eq, Structural)]
pub enum DeviceType {
    Other,
    IntegratedGpu,
    DiscreteGpu,
    VirtualGpu,
    Cpu,
}

/// What is known of one adapter at the time of the choice.
#[derive(Clone, Debug)]
pub struct PhysicalDeviceDescriptor {
    pub name: String,
    pub device_type: DeviceType,
}

/// The mathematical content of a [`PhysicalDeviceDescriptor`].
pub struct PhysicalDeviceDescriptorView {
    pub name: Seq<char>,
    pub device_type: DeviceType,
}

impl View for PhysicalDeviceDescriptor {
    type V = PhysicalDeviceDescriptorView;

    open spec fn view(&self) -> PhysicalDeviceDescriptorView {
        PhysicalDeviceDescriptorView { name: self.name@, device_type: self.device_type }
    }
}

/// The classes of a list of adapters, position by position. Nothing else of
/// an adapter plays a part in the choice.
pub open spec fn device_types(adapters: Seq<PhysicalDeviceDescriptor>) -> Seq<DeviceType> {
    Seq::new(adapters.len(), |i: int| adapters[i].device_type)
}

/// The rank of a class: 2 for a discrete GPU, 1 for an integrated GPU, 0 for
/// every other class.
pub open spec fn spec_device_score(device_type: DeviceType) -> int {
    match device_type {
        DeviceType::DiscreteGpu => 2,
        DeviceType::IntegratedGpu => 1,
        _ => 0,
    }
}

/// Computes [`spec_device_score`].
pub fn device_score(device_type: DeviceType) -> (score: u32)
    ensures
        score == spec_device_score(device_type),
{
    match device_type {
        DeviceType::DiscreteGpu => 2,
        DeviceType::IntegratedGpu => 1,
        _ => 0,
    }
}

/// Whether `index` is the position to pick: no class of the list ranks above
/// the one there, and every class listed before it ranks strictly below it.
pub open spec fn is_first_best(types: Seq<DeviceType>, index: int) -> bool {
    &&& 0 <= index < types.len()
    &&& forall|j: int|
        0 <= j < types.len() ==> spec_device_score(#[trigger] types[j]) <= spec_device_score(
            types[index],
        )
    &&& forall|j: int|
        0 <= j < index ==> spec_device_score(#[trigger] types[j]) < spec_device_score(
            types[index],
        )
}

/// The position to pick in a list of classes: the one that
/// [`is_first_best`]. An empty list has none.
pub open spec fn spec_pick_physical_device(types: Seq<DeviceType>) -> Result<int, BringUpError> {
    if types.len() == 0 {
        Err(BringUpError::NoDeviceFound)
    } else {
        Ok(choose|index: int| is_first_best(types, index))
    }
}

/// Picks the adapter of the highest rank, and among several of that rank the
/// one that is listed first. The answer is the adapter's position in the list.
/// An empty list is the only input without an answer.
pub fn pick_physical_device(adapters: &Vec<PhysicalDeviceDescriptor>) -> (picked: Result<
    usize,
    BringUpError,
>)
    ensures
        picked is Err <==> adapters@.len() == 0,
        picked is Err ==> picked == Err::<usize, BringUpError>(BringUpError::NoDeviceFound),
        picked matches Ok(index) ==> is_first_best(device_types(adapters@), index as int),
        picked matches Ok(index) ==> spec_pick_physical_device(device_types(adapters@)) == Ok::<
            int,
            BringUpError,
        >(index as int),
{
    if adapters.len() == 0 {
        return Err(BringUpError::NoDeviceFound);
    }
    let ghost types = device_types(adapters@);
    let mut best: usize = 0;
    let mut best_score: u32 = device_score(adapters[0].device_type);
    let mut i: usize = 1;
    while i < adapters.len()
        invariant
            1 <= i <= adapters.len(),
            best < i,
            types == device_types(adapters@),
            best_score == spec_device_score(types[best as int]),
            forall|j: int| 0 <= j < i ==> spec_device_score(#[trigger] types[j]) <= best_score,
            forall|j: int| 0 <= j < best ==> spec_device_score(#[trigger] types[j]) < best_score,
        decreases adapters.len() - i,
    {
        let score = device_score(adapters[i].device_type);
        if score > best_score {
            best = i;
            best_score = score;
        }
        i += 1;
    }
    proof {
        assert(is_first_best(types, best as int));
        lemma_first_best_is_unique(
            types,
            best as int,
            choose|index: int| is_first_best(types, index),
        );
    }
    Ok(best)
}

/// At most one position of a list is the one to pick, so the choice is a
/// function of the list.
pub proof fn lemma_first_best_is_unique(types: Seq<DeviceType>, first: int, second: int)
    requires
        is_first_best(types, first),
        is_first_best(types, second),
    ensures
        first == second,
{
    if first < second {
        assert(spec_device_score(types[first]) < spec_device_score(types[second]));
        assert(spec_device_score(types[second]) <= spec_device_score(types[first]));
    } else if second < first {
        assert(spec_device_score(types[second]) < spec_device_score(types[first]));
        assert(spec_device_score(types[first]) <= spec_device_score(types[second]));
    }
}

/// Every list that is not empty has a position to pick, so the choice is
/// defined wherever there is an adapter at all.
pub proof fn lemma_first_best_exists(types: Seq<DeviceType>)
    requires
        types.len() > 0,
    ensures
        exists|index: int| is_first_best(types, index),
        spec_pick_physical_device(types) matches Ok(index) && is_first_best(types, index),
    decreases types.len(),
{
    if types.len() == 1 {
        assert(is_first_best(types, 0));
    } else {
        let front = types.drop_last();
        lemma_first_best_exists(front);
        let before = choose|index: int| is_first_best(front, index);
        let last = types.len() - 1;
        assert forall|j: int| 0 <= j < last implies spec_device_score(#[trigger] types[j])
            <= spec_device_score(types[before]) by {
            assert(types[j] == front[j]);
        }
        assert forall|j: int| 0 <= j < before implies spec_device_score(#[trigger] types[j])
            < spec_device_score(types[before]) by {
            assert(types[j] == front[j]);
        }
        if spec_device_score(types[last]) > spec_device_score(types[before]) {
            assert(is_first_best(types, last));
        } else {
            assert(is_first_best(types, before));
        }
    }
}

/// The picked adapter is a discrete GPU as soon as the list holds one, and at
/// least an integrated GPU as soon as the list holds one of those.
pub proof fn lemma_first_best_prefers_discrete(types: Seq<DeviceType>, index: int, other: int)
    requires
        is_first_best(types, index),
        0 <= other < types.len(),
    ensures
        types[other] == DeviceType::DiscreteGpu ==> types[index] == DeviceType::DiscreteGpu,
        types[other] == DeviceType::IntegratedGpu ==> types[index] == DeviceType::DiscreteGpu
            || types[index] == DeviceType::IntegratedGpu,
{
    assert(spec_device_score(types[other]) <= spec_device_score(types[index]));
}

} // verus!
