//! Choice of the physical device to compute on.
use vstd::prelude::*;

verus! {

/// The type a physical device reports.
#[derive(Clone, Copy, PartialEq, Eq, Structural, Debug)]
pub enum DeviceKind {
    DiscreteGpu,
    IntegratedGpu,
    VirtualGpu,
    Cpu,
    Other,
    /// A type this library does not know.
    Unknown,
}

/// Preference rank of a device type: lower is preferred. Discrete GPUs
/// first, then integrated and virtual GPUs, CPUs, other devices, and types
/// this library does not know last.
pub open spec fn spec_device_rank(kind: DeviceKind) -> u32 {
    match kind {
        DeviceKind::DiscreteGpu => 0,
        DeviceKind::IntegratedGpu => 1,
        DeviceKind::VirtualGpu => 2,
        DeviceKind::Cpu => 3,
        DeviceKind::Other => 4,
        DeviceKind::Unknown => 5,
    }
}

pub fn device_rank(kind: DeviceKind) -> (r: u32)
    ensures
        r == spec_device_rank(kind),
{
    match kind {
        DeviceKind::DiscreteGpu => 0,
        DeviceKind::IntegratedGpu => 1,
        DeviceKind::VirtualGpu => 2,
        DeviceKind::Cpu => 3,
        DeviceKind::Other => 4,
        DeviceKind::Unknown => 5,
    }
}

/// Index of the device to use among candidates of the given kinds: the
/// first one of the best rank; `None` when there is no candidate.
pub fn preferred_device(kinds: &[DeviceKind]) -> (r: Option<usize>)
    ensures
        r is None <==> kinds@.len() == 0,
        r matches Some(i) ==> {
            &&& i < kinds@.len()
            &&& forall|j: int|
                0 <= j < kinds@.len() ==> spec_device_rank(kinds@[i as int]) <= spec_device_rank(
                    #[trigger] kinds@[j],
                )
            &&& forall|j: int|
                0 <= j < i ==> spec_device_rank(#[trigger] kinds@[j]) > spec_device_rank(kinds@[i as int])
            &&& forall|j: int|
                0 <= j < kinds@.len() && #[trigger] kinds@[j] == DeviceKind::DiscreteGpu ==> kinds@[i as int]
                    == DeviceKind::DiscreteGpu
            &&& forall|j: int|
                0 <= j < kinds@.len() && #[trigger] kinds@[j] == DeviceKind::IntegratedGpu ==> (kinds@[i as int]
                    == DeviceKind::DiscreteGpu || kinds@[i as int] == DeviceKind::IntegratedGpu)
            &&& forall|j: int|
                0 <= j < kinds@.len() && #[trigger] kinds@[j] == DeviceKind::VirtualGpu ==> (kinds@[i as int]
                    != DeviceKind::Cpu && kinds@[i as int] != DeviceKind::Other && kinds@[i as int]
                    != DeviceKind::Unknown)
            &&& forall|j: int|
                0 <= j < kinds@.len() && #[trigger] kinds@[j] == DeviceKind::Cpu ==> (kinds@[i as int]
                    != DeviceKind::Other && kinds@[i as int] != DeviceKind::Unknown)
            &&& forall|j: int|
                0 <= j < kinds@.len() && #[trigger] kinds@[j] == DeviceKind::Other ==> kinds@[i as int]
                    != DeviceKind::Unknown
        },
{
    if kinds.len() == 0 {
        return None;
    }
    let mut best: usize = 0;
    let mut best_rank: u32 = device_rank(kinds[0]);
    let mut i: usize = 1;
    while i < kinds.len()
        invariant
            1 <= i <= kinds@.len(),
            best < i,
            best_rank == spec_device_rank(kinds@[best as int]),
            forall|j: int| 0 <= j < i ==> best_rank <= spec_device_rank(#[trigger] kinds@[j]),
            forall|j: int| 0 <= j < best ==> spec_device_rank(#[trigger] kinds@[j]) > best_rank,
        decreases kinds@.len() - i,
    {
        let rank = device_rank(kinds[i]);
        if rank < best_rank {
            best = i;
            best_rank = rank;
        }
        i = i + 1;
    }
    Some(best)
}

/// The preference order is strict and fixed: discrete GPUs before
/// integrated GPUs before virtual GPUs before CPUs before other devices
/// before unknown types.
pub proof fn lemma_device_rank_order()
    ensures
        spec_device_rank(DeviceKind::DiscreteGpu) < spec_device_rank(DeviceKind::IntegratedGpu),
        spec_device_rank(DeviceKind::IntegratedGpu) < spec_device_rank(DeviceKind::VirtualGpu),
        spec_device_rank(DeviceKind::VirtualGpu) < spec_device_rank(DeviceKind::Cpu),
        spec_device_rank(DeviceKind::Cpu) < spec_device_rank(DeviceKind::Other),
        spec_device_rank(DeviceKind::Other) < spec_device_rank(DeviceKind::Unknown),
{
}

} // verus!
