//! Choice of the device and queue family to render and present with.

use vstd::prelude::*;

verus! {

/// What sort of hardware a device is.
#[derive(Clone, Copy, Debug, PartialEq, Eq, Structural)]
pub enum DeviceKind {
    DiscreteGpu,
    IntegratedGpu,
    VirtualGpu,
    Cpu,
    Other,
    /// A sort that this library does not know.
    Unknown,
}

/// One queue family of a device.
#[derive(Clone, Copy, Debug, PartialEq, Eq, Structural)]
pub struct QueueFamily {
    /// The family runs graphics work.
    pub graphics: bool,
    /// The family can present to the surface in question.
    pub presents: bool,
}

/// What the choice of a device looks at.
#[derive(Clone, Debug)]
pub struct DeviceProfile {
    /// The device can drive an image chain.
    pub swapchain: bool,
    pub kind: DeviceKind,
    /// The device's queue families, in the device's order.
    pub families: Vec<QueueFamily>,
}

/// A device and the queue family to use on it, both by position.
#[derive(Clone, Copy, Debug, PartialEq, Eq, Structural)]
pub struct Selection {
    pub device: usize,
    pub queue_family: usize,
}

/// Preference among device kinds: the lower, the better.
pub open spec fn rank_of(kind: DeviceKind) -> u8 {
    match kind {
        DeviceKind::DiscreteGpu => 0u8,
        DeviceKind::IntegratedGpu => 1u8,
        DeviceKind::VirtualGpu => 2u8,
        DeviceKind::Cpu => 3u8,
        DeviceKind::Other => 4u8,
        DeviceKind::Unknown => 5u8,
    }
}

pub fn rank(kind: DeviceKind) -> (r: u8)
    ensures
        r == rank_of(kind),
{
    match kind {
        DeviceKind::DiscreteGpu => 0,
        DeviceKind::IntegratedGpu => 1,
        DeviceKind::VirtualGpu => 2,
        DeviceKind::Cpu => 3,
        DeviceKind::Other => 4,
        DeviceKind::Unknown => 5,
    }
}

impl QueueFamily {
    /// A family serves the loop if it both draws and presents.
    pub open spec fn usable(self) -> bool {
        self.graphics && self.presents
    }
}

/// `q` is the position of the first usable family.
pub open spec fn is_first_usable(families: Seq<QueueFamily>, q: int) -> bool {
    &&& 0 <= q < families.len()
    &&& families[q].usable()
    &&& forall|k: int| 0 <= k < q ==> !(#[trigger] families[k]).usable()
}

/// No family is usable.
pub open spec fn none_usable(families: Seq<QueueFamily>) -> bool {
    forall|k: int| 0 <= k < families.len() ==> !(#[trigger] families[k]).usable()
}

impl DeviceProfile {
    /// A device is a candidate if it can drive an image chain and has a
    /// usable queue family.
    pub open spec fn eligible(&self) -> bool {
        self.swapchain && !none_usable(self.families@)
    }
}

/// The position of the first queue family that both draws and presents.
pub fn first_usable_family(families: &Vec<QueueFamily>) -> (r: Option<usize>)
    ensures
        match r {
            Some(q) => is_first_usable(families@, q as int),
            None => none_usable(families@),
        },
{
    let mut i: usize = 0;
    while i < families.len()
        invariant
            i <= families@.len(),
            forall|k: int| 0 <= k < i ==> !(#[trigger] families@[k]).usable(),
        decreases families@.len() - i,
    {
        if families[i].graphics && families[i].presents {
            return Some(i);
        }
        i = i + 1;
    }
    None
}

/// `choice` is the best candidate among the first `upto` devices: none of
/// them ranks lower, and none before it ranks as low.
pub open spec fn is_best(devices: Seq<DeviceProfile>, upto: int, choice: Selection) -> bool {
    &&& 0 <= choice.device < upto
    &&& devices[choice.device as int].eligible()
    &&& is_first_usable(devices[choice.device as int].families@, choice.queue_family as int)
    &&& forall|j: int|
        0 <= j < upto && (#[trigger] devices[j]).eligible() ==> rank_of(
            devices[choice.device as int].kind,
        ) <= rank_of(devices[j].kind)
    &&& forall|j: int|
        0 <= j < choice.device && (#[trigger] devices[j]).eligible() ==> rank_of(
            devices[choice.device as int].kind,
        ) < rank_of(devices[j].kind)
}

/// None of the first `upto` devices is a candidate.
pub open spec fn none_eligible(devices: Seq<DeviceProfile>, upto: int) -> bool {
    forall|j: int| 0 <= j < upto ==> !(#[trigger] devices[j]).eligible()
}

/// Picks the device to use: among the candidates the one of the most
/// preferred kind, and among equals the one listed first; with it, its first
/// usable queue family. `None` when there is no candidate.
pub fn select_device(devices: &Vec<DeviceProfile>) -> (r: Option<Selection>)
    ensures
        match r {
            Some(choice) => is_best(devices@, devices@.len() as int, choice),
            None => none_eligible(devices@, devices@.len() as int),
        },
{
    let mut best: Option<Selection> = None;
    let mut best_rank: u8 = 0;
    let mut i: usize = 0;
    while i < devices.len()
        invariant
            i <= devices@.len(),
            match best {
                Some(choice) => is_best(devices@, i as int, choice) && best_rank == rank_of(
                    devices@[choice.device as int].kind,
                ),
                None => none_eligible(devices@, i as int),
            },
        decreases devices@.len() - i,
    {
        let device = &devices[i];
        if device.swapchain {
            match first_usable_family(&device.families) {
                Some(queue_family) => {
                    let r = rank(device.kind);
                    let better = match best {
                        Some(_) => r < best_rank,
                        None => true,
                    };
                    if better {
                        best = Some(Selection { device: i, queue_family });
                        best_rank = r;
                    }
                },
                None => {},
            }
        }
        i = i + 1;
    }
    best
}

} // verus!
