use vstd::prelude::*;
use crate::handle_kind::MemoryHandleKind;

verus! {

/// Why an exportable image could not be made.
#[derive(Clone, Copy, Debug, PartialEq, Eq, Structural)]
pub enum ExternalImageError {
    /// The format, usage and flags cannot be created or exported together.
    ImageCreationFailed,
    /// No device-local memory type is allowed by the image's requirements, or
    /// the one found is not among them.
    NoEligibleMemoryType,
    /// The dedicated allocation was refused, or does not fit the requirements.
    AllocationFailed,
    /// The allocation could not be bound to the image.
    BindFailed,
}

/// The memory requirements of an image, as the driver reports them.
#[derive(Clone, Copy, Debug, PartialEq, Eq, Structural)]
pub struct MemoryRequirements {
    pub size: u64,
    pub alignment: u64,
    pub memory_type_bits: u32,
}

/// Where a dedicated allocation lies in its device memory, and how large it is.
#[derive(Clone, Copy, Debug, PartialEq, Eq, Structural)]
pub struct Allocation {
    pub offset: u64,
    pub size: u64,
}

/// The allocation meets the requirements: exactly their size, at an offset
/// that is a multiple of their alignment.
pub open spec fn fits(requirements: MemoryRequirements, allocation: Allocation) -> bool {
    &&& requirements.alignment > 0
    &&& allocation.offset % requirements.alignment == 0
    &&& allocation.size == requirements.size
}

pub fn allocation_fits(requirements: &MemoryRequirements, allocation: &Allocation) -> (r: bool)
    ensures
        r == fits(*requirements, *allocation),
{
    requirements.alignment > 0 && allocation.offset % requirements.alignment == 0
        && allocation.size == requirements.size
}

/// What the driver answered to the factory's last request.
#[derive(Clone, Copy, Debug, PartialEq, Eq, Structural)]
pub enum FactoryEvent {
    /// The image format query: whether the combination is supported at all,
    /// and whether it is exportable under the handle kind.
    FormatQueried { supported: bool, exportable: bool },
    /// Whether the raw image was created.
    ImageCreated { ok: bool },
    /// The memory requirements of the raw image.
    RequirementsRead { requirements: MemoryRequirements },
    /// The device-local memory type chosen among the allowed ones, if any.
    MemoryTypeFound { index: Option<u32> },
    /// The dedicated allocation, if it was made.
    Allocated { allocation: Option<Allocation> },
    /// Whether the allocation was bound to the image.
    Bound { ok: bool },
}

/// What the factory asks of the driver next.
#[derive(Clone, Copy, Debug, PartialEq, Eq, Structural)]
pub enum FactoryAction {
    /// Query the image format properties with the handle kind attached.
    QueryFormat { kind: MemoryHandleKind },
    /// Create the raw image with the handle kind as its external memory type.
    CreateImage { kind: MemoryHandleKind },
    /// Read the raw image's memory requirements.
    ReadRequirements,
    /// Find a device-local memory type among `memory_type_bits`.
    FindMemoryType { memory_type_bits: u32 },
    /// Make a dedicated allocation for the image, exportable under `kind`.
    AllocateDedicated { memory_type_index: u32, size: u64, kind: MemoryHandleKind },
    /// Bind the allocation to the image.
    Bind,
    /// The image and its allocation are ready.
    Finish,
    /// Give up; nothing made so far is handed out.
    Abort { error: ExternalImageError },
}

/// How far the construction of an exportable image has come.
#[derive(Clone, Copy, Debug, PartialEq, Eq, Structural)]
pub enum FactoryState {
    AwaitFormat,
    AwaitImage,
    AwaitRequirements,
    AwaitMemoryType { requirements: MemoryRequirements },
    AwaitAllocation { requirements: MemoryRequirements, memory_type_index: u32 },
    AwaitBind { requirements: MemoryRequirements, allocation: Allocation },
    Done { requirements: MemoryRequirements, allocation: Allocation },
    Failed { error: ExternalImageError },
}

/// The construction of one image with a dedicated allocation exportable
/// under `kind`. The caller performs each action that `pending` names and
/// hands the driver's answer to `advance`.
#[derive(Clone, Copy, Debug, PartialEq, Eq, Structural)]
pub struct ImageFactory {
    pub kind: MemoryHandleKind,
    pub state: FactoryState,
}

/// Memory type `index` is among those that `memory_type_bits` allows.
pub open spec fn memory_type_allowed(memory_type_bits: u32, index: u32) -> bool {
    index < 32 && (memory_type_bits >> index) & 1 == 1
}

pub fn is_memory_type_allowed(memory_type_bits: u32, index: u32) -> (r: bool)
    ensures
        r == memory_type_allowed(memory_type_bits, index),
{
    index < 32 && (memory_type_bits >> index) & 1 == 1
}

/// A request that the factory can serve: one queue family, and no disjoint
/// multi-planar layout.
pub open spec fn request_supported(queue_family_count: nat, disjoint: bool) -> bool {
    queue_family_count == 1 && !disjoint
}

pub fn image_request_supported(queue_family_count: usize, disjoint: bool) -> (r: bool)
    ensures
        r == request_supported(queue_family_count as nat, disjoint),
{
    queue_family_count == 1 && !disjoint
}

/// The state after the driver's answer `e`. An answer that the state does
/// not wait for changes nothing.
pub open spec fn next_state(s: FactoryState, e: FactoryEvent) -> FactoryState {
    match (s, e) {
        (FactoryState::AwaitFormat, FactoryEvent::FormatQueried { supported, exportable }) =>
            if supported && exportable {
                FactoryState::AwaitImage
            } else {
                FactoryState::Failed { error: ExternalImageError::ImageCreationFailed }
            },
        (FactoryState::AwaitImage, FactoryEvent::ImageCreated { ok }) =>
            if ok {
                FactoryState::AwaitRequirements
            } else {
                FactoryState::Failed { error: ExternalImageError::ImageCreationFailed }
            },
        (FactoryState::AwaitRequirements, FactoryEvent::RequirementsRead { requirements }) =>
            FactoryState::AwaitMemoryType { requirements },
        (FactoryState::AwaitMemoryType { requirements }, FactoryEvent::MemoryTypeFound { index }) =>
            match index {
                Some(memory_type_index) =>
                    if memory_type_allowed(requirements.memory_type_bits, memory_type_index) {
                        FactoryState::AwaitAllocation { requirements, memory_type_index }
                    } else {
                        FactoryState::Failed { error: ExternalImageError::NoEligibleMemoryType }
                    },
                None => FactoryState::Failed { error: ExternalImageError::NoEligibleMemoryType },
            },
        (FactoryState::AwaitAllocation { requirements, .. }, FactoryEvent::Allocated { allocation }) =>
            match allocation {
                Some(a) =>
                    if fits(requirements, a) {
                        FactoryState::AwaitBind { requirements, allocation: a }
                    } else {
                        FactoryState::Failed { error: ExternalImageError::AllocationFailed }
                    },
                None => FactoryState::Failed { error: ExternalImageError::AllocationFailed },
            },
        (FactoryState::AwaitBind { requirements, allocation }, FactoryEvent::Bound { ok }) =>
            if ok {
                FactoryState::Done { requirements, allocation }
            } else {
                FactoryState::Failed { error: ExternalImageError::BindFailed }
            },
        _ => s,
    }
}

/// The states reachable from a request through the answers `events`.
pub open spec fn run(s: FactoryState, events: Seq<FactoryEvent>) -> FactoryState
    decreases events.len(),
{
    if events.len() == 0 {
        s
    } else {
        run(next_state(s, events[0]), events.drop_first())
    }
}

/// A state keeps a memory type only where the requirements allow it, and an
/// allocation only where the allocation fits.
pub open spec fn state_wf(s: FactoryState) -> bool {
    match s {
        FactoryState::AwaitAllocation { requirements, memory_type_index } =>
            memory_type_allowed(requirements.memory_type_bits, memory_type_index),
        FactoryState::AwaitBind { requirements, allocation } => fits(requirements, allocation),
        FactoryState::Done { requirements, allocation } => fits(requirements, allocation),
        _ => true,
    }
}

impl ImageFactory {
    pub open spec fn wf(&self) -> bool {
        state_wf(self.state)
    }

    /// Starts the construction of an image exportable under `kind`, from the
    /// number of queue families that will use it and whether its flags ask
    /// for a disjoint layout; only one family and no disjoint layout are
    /// served.
    pub fn new(kind: MemoryHandleKind, queue_family_count: usize, disjoint: bool) -> (r: ImageFactory)
        requires
            request_supported(queue_family_count as nat, disjoint),
        ensures
            r.kind == kind,
            r.state == FactoryState::AwaitFormat,
            r.wf(),
    {
        ImageFactory { kind, state: FactoryState::AwaitFormat }
    }

    /// What the factory waits for: an action of the driver, or the end.
    pub open spec fn spec_pending(&self) -> FactoryAction {
        match self.state {
            FactoryState::AwaitFormat => FactoryAction::QueryFormat { kind: self.kind },
            FactoryState::AwaitImage => FactoryAction::CreateImage { kind: self.kind },
            FactoryState::AwaitRequirements => FactoryAction::ReadRequirements,
            FactoryState::AwaitMemoryType { requirements } =>
                FactoryAction::FindMemoryType { memory_type_bits: requirements.memory_type_bits },
            FactoryState::AwaitAllocation { requirements, memory_type_index } =>
                FactoryAction::AllocateDedicated {
                    memory_type_index,
                    size: requirements.size,
                    kind: self.kind,
                },
            FactoryState::AwaitBind { .. } => FactoryAction::Bind,
            FactoryState::Done { .. } => FactoryAction::Finish,
            FactoryState::Failed { error } => FactoryAction::Abort { error },
        }
    }

    #[verifier::when_used_as_spec(spec_pending)]
    pub fn pending(&self) -> (r: FactoryAction)
        ensures
            r == self.spec_pending(),
    {
        match self.state {
            FactoryState::AwaitFormat => FactoryAction::QueryFormat { kind: self.kind },
            FactoryState::AwaitImage => FactoryAction::CreateImage { kind: self.kind },
            FactoryState::AwaitRequirements => FactoryAction::ReadRequirements,
            FactoryState::AwaitMemoryType { requirements } =>
                FactoryAction::FindMemoryType { memory_type_bits: requirements.memory_type_bits },
            FactoryState::AwaitAllocation { requirements, memory_type_index } =>
                FactoryAction::AllocateDedicated {
                    memory_type_index,
                    size: requirements.size,
                    kind: self.kind,
                },
            FactoryState::AwaitBind { .. } => FactoryAction::Bind,
            FactoryState::Done { .. } => FactoryAction::Finish,
            FactoryState::Failed { error } => FactoryAction::Abort { error },
        }
    }

    /// Takes the driver's answer to the pending action.
    pub fn advance(&mut self, event: FactoryEvent)
        ensures
            final(self).kind == old(self).kind,
            final(self).state == next_state(old(self).state, event),
            old(self).wf() ==> final(self).wf(),
    {
        let next = match (self.state, event) {
            (FactoryState::AwaitFormat, FactoryEvent::FormatQueried { supported, exportable }) =>
                if supported && exportable {
                    FactoryState::AwaitImage
                } else {
                    FactoryState::Failed { error: ExternalImageError::ImageCreationFailed }
                },
            (FactoryState::AwaitImage, FactoryEvent::ImageCreated { ok }) =>
                if ok {
                    FactoryState::AwaitRequirements
                } else {
                    FactoryState::Failed { error: ExternalImageError::ImageCreationFailed }
                },
            (FactoryState::AwaitRequirements, FactoryEvent::RequirementsRead { requirements }) =>
                FactoryState::AwaitMemoryType { requirements },
            (FactoryState::AwaitMemoryType { requirements }, FactoryEvent::MemoryTypeFound { index }) =>
                match index {
                    Some(memory_type_index) =>
                        if is_memory_type_allowed(requirements.memory_type_bits, memory_type_index) {
                            FactoryState::AwaitAllocation { requirements, memory_type_index }
                        } else {
                            FactoryState::Failed { error: ExternalImageError::NoEligibleMemoryType }
                        },
                    None => FactoryState::Failed { error: ExternalImageError::NoEligibleMemoryType },
                },
            (FactoryState::AwaitAllocation { requirements, .. }, FactoryEvent::Allocated { allocation }) =>
                match allocation {
                    Some(a) =>
                        if allocation_fits(&requirements, &a) {
                            FactoryState::AwaitBind { requirements, allocation: a }
                        } else {
                            FactoryState::Failed { error: ExternalImageError::AllocationFailed }
                        },
                    None => FactoryState::Failed { error: ExternalImageError::AllocationFailed },
                },
            (FactoryState::AwaitBind { requirements, allocation }, FactoryEvent::Bound { ok }) =>
                if ok {
                    FactoryState::Done { requirements, allocation }
                } else {
                    FactoryState::Failed { error: ExternalImageError::BindFailed }
                },
            _ => self.state,
        };
        self.state = next;
    }
}

/// Whatever the driver answers, the factory asks for a dedicated allocation
/// only in a memory type that the image's requirements allow, and the
/// construction only reaches its end with an allocation of exactly the
/// required size, at an offset that is a multiple of the required alignment.
pub proof fn lemma_run_respects_requirements(events: Seq<FactoryEvent>)
    ensures
        run(FactoryState::AwaitFormat, events) matches FactoryState::AwaitAllocation {
            requirements,
            memory_type_index,
        } ==> memory_type_allowed(requirements.memory_type_bits, memory_type_index),
        run(FactoryState::AwaitFormat, events) matches FactoryState::Done {
            requirements,
            allocation,
        } ==> fits(requirements, allocation),
{
    lemma_run_keeps_wf(FactoryState::AwaitFormat, events);
}

proof fn lemma_run_keeps_wf(s: FactoryState, events: Seq<FactoryEvent>)
    requires
        state_wf(s),
    ensures
        state_wf(run(s, events)),
    decreases events.len(),
{
    if events.len() > 0 {
        lemma_run_keeps_wf(next_state(s, events[0]), events.drop_first());
    }
}

/// A failed construction stays failed with the same error.
pub proof fn lemma_failed_is_final(error: ExternalImageError, events: Seq<FactoryEvent>)
    ensures
        run(FactoryState::Failed { error }, events) == (FactoryState::Failed { error }),
    decreases events.len(),
{
    if events.len() > 0 {
        lemma_failed_is_final(error, events.drop_first());
    }
}

} // verus!
