use vstd::prelude::*;
use vulkano::buffer::{BufferUsage, ExternalBufferInfo};
use vulkano::device::physical::PhysicalDevice;
use vulkano::memory::ExternalMemoryHandleType;
use vulkano::sync::{ExternalSemaphoreHandleType, ExternalSemaphoreInfo};
use crate::handle_kind::{
    memory_candidates, memory_candidates_of, semaphore_candidates, semaphore_candidates_of,
    MemoryHandleKind, Platform, SemaphoreHandleKind,
};

verus! {

#[verifier::external_type_specification]
#[verifier::external_body]
pub struct ExPhysicalDevice(PhysicalDevice);

/// Buffer usage bits that vulkano keeps when it reads a usage mask: Vulkan
/// 1.0's transfer source through indirect buffer, and shader device address.
pub const RECOGNISED_BUFFER_USAGE_BITS: u32 = 0x201ff;

/// What a device reports of one external handle configuration.
#[derive(Clone, Copy, Debug, PartialEq, Eq, Structural)]
pub struct CapabilityReport {
    /// The handle types compatible with the configuration, as Vulkan flag bits.
    pub compatible: u32,
    /// Whether a resource in the configuration can be exported.
    pub exportable: bool,
}

impl CapabilityReport {
    /// The configuration can be exported under the handle type with flag `bit`.
    pub open spec fn spec_accepts(&self, bit: u32) -> bool {
        self.exportable && (self.compatible & bit) != 0
    }

    #[verifier::when_used_as_spec(spec_accepts)]
    pub fn accepts(&self, bit: u32) -> (r: bool)
        ensures
            r == self.spec_accepts(bit),
    {
        self.exportable && (self.compatible & bit) != 0
    }
}

/// The oracle's answers on a list are a first acceptance at `i`: every
/// earlier candidate was refused and the one at `i` was accepted.
pub open spec fn accepted_first_at<K, F: Fn(K) -> bool>(candidates: Seq<K>, oracle: F, i: int) -> bool {
    &&& 0 <= i < candidates.len()
    &&& oracle.ensures((candidates[i],), true)
    &&& forall|j: int| 0 <= j < i ==> oracle.ensures((candidates[j],), false)
}

/// `r` is what negotiation over `candidates` with `oracle` may return: the
/// first candidate that the oracle accepted, or `None` where it refused all.
pub open spec fn negotiated<K, F: Fn(K) -> bool>(candidates: Seq<K>, oracle: F, r: Option<K>) -> bool {
    &&& r matches Some(k) ==> exists|i: int| accepted_first_at(candidates, oracle, i) && candidates[i] == k
    &&& r is None ==> forall|i: int| 0 <= i < candidates.len() ==> oracle.ensures((#[trigger] candidates[i],), false)
}

/// The oracle gives one answer for each candidate.
pub open spec fn deterministic<K, F: Fn(K) -> bool>(oracle: F) -> bool {
    forall|k: K, a: bool, b: bool| oracle.ensures((k,), a) && oracle.ensures((k,), b) ==> a == b
}

/// With an oracle that answers each candidate one way, negotiation returns
/// `None` exactly when the oracle refuses every candidate, and otherwise the
/// candidate at the first position that it accepts.
pub proof fn lemma_negotiation_is_first_acceptance<K, F: Fn(K) -> bool>(
    candidates: Seq<K>,
    oracle: F,
    r: Option<K>,
)
    requires
        deterministic(oracle),
        negotiated(candidates, oracle, r),
    ensures
        r is None <==> forall|i: int| 0 <= i < candidates.len() ==> oracle.ensures((#[trigger] candidates[i],), false),
        r matches Some(k) ==> exists|i: int| accepted_first_at(candidates, oracle, i) && candidates[i] == k,
{
    if r is Some {
        let i = choose|i: int| accepted_first_at(candidates, oracle, i) && candidates[i] == r->0;
        if forall|j: int| 0 <= j < candidates.len() ==> oracle.ensures((#[trigger] candidates[j],), false) {
            assert(oracle.ensures((candidates[i],), false));
            assert(oracle.ensures((candidates[i],), true));
        }
    }
}

/// Tries the candidates in order and returns the first that the oracle
/// accepts, or `None` once every candidate has been refused.
///
/// The oracle is only ever asked about members of `candidates`: it need not
/// accept being asked about anything else.
pub fn negotiate<K: Copy, F: Fn(K) -> bool>(candidates: &Vec<K>, oracle: &F) -> (r: Option<K>)
    requires
        forall|i: int| 0 <= i < candidates.len() ==> oracle.requires((candidates[i],)),
    ensures
        negotiated(candidates@, *oracle, r),
{
    let mut i: usize = 0;
    while i < candidates.len()
        invariant
            i <= candidates.len(),
            forall|i: int| 0 <= i < candidates.len() ==> oracle.requires((candidates[i],)),
            forall|j: int| 0 <= j < i ==> oracle.ensures((#[trigger] candidates[j],), false),
        decreases candidates.len() - i,
    {
        let k = candidates[i];
        if oracle(k) {
            assert(accepted_first_at(candidates@, *oracle, i as int));
            return Some(k);
        }
        i = i + 1;
    }
    None
}

/// Relies on vulkano's `PhysicalDevice::external_buffer_properties`, which
/// asks the driver about buffers with the given usage exported under
/// `handle_type`; vulkano asserts that the usage is not empty.
#[verifier::external_body]
fn external_buffer_capability(
    physical_device: &PhysicalDevice,
    usage: u32,
    handle_type: ExternalMemoryHandleType,
) -> (r: Option<CapabilityReport>)
    requires
        usage & RECOGNISED_BUFFER_USAGE_BITS != 0,
{
    let mut info = ExternalBufferInfo::handle_type(handle_type);
    info.usage = BufferUsage::from(ash::vk::BufferUsageFlags::from_raw(usage));
    physical_device.external_buffer_properties(info).ok().map(|p| CapabilityReport {
        compatible: ash::vk::ExternalMemoryHandleTypeFlags::from(
            p.external_memory_properties.compatible_handle_types,
        ).as_raw(),
        exportable: p.external_memory_properties.exportable,
    })
}

/// Relies on vulkano's `PhysicalDevice::external_semaphore_properties`, which
/// asks the driver about semaphores exported under `handle_type`.
#[verifier::external_body]
fn external_semaphore_capability(
    physical_device: &PhysicalDevice,
    handle_type: ExternalSemaphoreHandleType,
) -> (r: Option<CapabilityReport>) {
    let info = ExternalSemaphoreInfo::handle_type(handle_type);
    physical_device.external_semaphore_properties(info).ok().map(|p| CapabilityReport {
        compatible: ash::vk::ExternalSemaphoreHandleTypeFlags::from(p.compatible_handle_types).as_raw(),
        exportable: p.exportable,
    })
}

/// Whether a capability answer accepts the handle type with flag `bit`; no
/// answer (the query failed) accepts nothing.
pub fn kind_accepted(report: Option<CapabilityReport>, bit: u32) -> (r: bool)
    ensures
        r == (report matches Some(p) && p.spec_accepts(bit)),
{
    match report {
        Some(p) => p.accepts(bit),
        None => false,
    }
}

/// Whether buffers with `usage` can be exported under `kind` on the device.
fn memory_kind_accepted(physical_device: &PhysicalDevice, usage: u32, kind: MemoryHandleKind) -> (r: bool)
    requires
        usage & RECOGNISED_BUFFER_USAGE_BITS != 0,
{
    let report = external_buffer_capability(physical_device, usage, kind.to_vulkano());
    kind_accepted(report, kind.bit())
}

/// Whether semaphores can be exported under `kind` on the device.
fn semaphore_kind_accepted(physical_device: &PhysicalDevice, kind: SemaphoreHandleKind) -> (r: bool) {
    let report = external_semaphore_capability(physical_device, kind.to_vulkano());
    kind_accepted(report, kind.bit())
}

/// The most preferred memory handle kind of the platform under which the
/// device can export buffers with `usage` (Vulkan buffer usage flag bits).
/// The device is asked about the platform's candidates only, in order of
/// preference, and no further once one is accepted.
pub fn get_external_memory_type(physical_device: &PhysicalDevice, usage: u32, platform: Platform) -> (r: Option<MemoryHandleKind>)
    requires
        usage & RECOGNISED_BUFFER_USAGE_BITS != 0,
    ensures
        r matches Some(k) ==> memory_candidates_of(platform).contains(k),
{
    let candidates = memory_candidates(platform);
    let oracle = |kind: MemoryHandleKind| -> (b: bool)
        requires
            usage & RECOGNISED_BUFFER_USAGE_BITS != 0,
            memory_candidates_of(platform).contains(kind),
        { memory_kind_accepted(physical_device, usage, kind) };
    assert(forall|i: int| 0 <= i < candidates.len() ==> memory_candidates_of(platform).contains(#[trigger] candidates[i]));
    let r = negotiate(&candidates, &oracle);
    proof {
        if r is Some {
            let i = choose|i: int| accepted_first_at(candidates@, oracle, i) && candidates[i] == r->0;
            assert(candidates@[i] == r->0);
        }
    }
    r
}

/// The most preferred semaphore handle kind of the platform under which the
/// device can export semaphores. The device is asked about the platform's
/// candidates only, in order of preference, and no further once one is
/// accepted.
pub fn get_external_semaphore_type(physical_device: &PhysicalDevice, platform: Platform) -> (r: Option<SemaphoreHandleKind>)
    ensures
        r matches Some(k) ==> semaphore_candidates_of(platform).contains(k),
{
    let candidates = semaphore_candidates(platform);
    let oracle = |kind: SemaphoreHandleKind| -> (b: bool)
        requires
            semaphore_candidates_of(platform).contains(kind),
        { semaphore_kind_accepted(physical_device, kind) };
    assert(forall|i: int| 0 <= i < candidates.len() ==> semaphore_candidates_of(platform).contains(#[trigger] candidates[i]));
    let r = negotiate(&candidates, &oracle);
    proof {
        if r is Some {
            let i = choose|i: int| accepted_first_at(candidates@, oracle, i) && candidates[i] == r->0;
            assert(candidates@[i] == r->0);
        }
    }
    r
}

} // verus!
