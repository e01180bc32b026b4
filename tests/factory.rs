use viewer::factory::{
    allocation_fits, image_request_supported, is_memory_type_allowed, Allocation, ExternalImageError, FactoryAction, FactoryEvent, FactoryState, ImageFactory,
    MemoryRequirements,
};
use viewer::handle_kind::MemoryHandleKind;

fn requirements() -> MemoryRequirements {
    MemoryRequirements { size: 3_840_000, alignment: 1024, memory_type_bits: 0b1011 }
}

fn through_allocation(allocation: Option<Allocation>) -> ImageFactory {
    let mut f = ImageFactory::new(MemoryHandleKind::OpaqueFd, 1, false);
    f.advance(FactoryEvent::FormatQueried { supported: true, exportable: true });
    f.advance(FactoryEvent::ImageCreated { ok: true });
    f.advance(FactoryEvent::RequirementsRead { requirements: requirements() });
    f.advance(FactoryEvent::MemoryTypeFound { index: Some(3) });
    f.advance(FactoryEvent::Allocated { allocation });
    f
}

#[test]
fn factory_happy_path() {
    let mut f = ImageFactory::new(MemoryHandleKind::OpaqueFd, 1, false);
    assert_eq!(f.pending(), FactoryAction::QueryFormat { kind: MemoryHandleKind::OpaqueFd });
    f.advance(FactoryEvent::FormatQueried { supported: true, exportable: true });
    assert_eq!(f.pending(), FactoryAction::CreateImage { kind: MemoryHandleKind::OpaqueFd });
    f.advance(FactoryEvent::ImageCreated { ok: true });
    assert_eq!(f.pending(), FactoryAction::ReadRequirements);
    f.advance(FactoryEvent::RequirementsRead { requirements: requirements() });
    assert_eq!(f.pending(), FactoryAction::FindMemoryType { memory_type_bits: 0b1011 });
    f.advance(FactoryEvent::MemoryTypeFound { index: Some(3) });
    assert_eq!(
        f.pending(),
        FactoryAction::AllocateDedicated {
            memory_type_index: 3,
            size: 3_840_000,
            kind: MemoryHandleKind::OpaqueFd
        }
    );
    f.advance(FactoryEvent::Allocated { allocation: Some(Allocation { offset: 0, size: 3_840_000 }) });
    assert_eq!(f.pending(), FactoryAction::Bind);
    f.advance(FactoryEvent::Bound { ok: true });
    assert_eq!(f.pending(), FactoryAction::Finish);
}

#[test]
fn disjoint_request_is_not_served() {
    assert!(!image_request_supported(1, true));
    assert!(image_request_supported(1, false));
}

#[test]
fn several_queue_families_are_not_served() {
    assert!(!image_request_supported(2, false));
    assert!(!image_request_supported(0, false));
}

#[test]
fn memory_type_outside_the_requirements_is_refused() {
    let mut f = ImageFactory::new(MemoryHandleKind::OpaqueFd, 1, false);
    f.advance(FactoryEvent::FormatQueried { supported: true, exportable: true });
    f.advance(FactoryEvent::ImageCreated { ok: true });
    f.advance(FactoryEvent::RequirementsRead { requirements: requirements() });
    f.advance(FactoryEvent::MemoryTypeFound { index: Some(2) });
    assert_eq!(f.pending(), FactoryAction::Abort { error: ExternalImageError::NoEligibleMemoryType });
    assert!(is_memory_type_allowed(0b1011, 0));
    assert!(is_memory_type_allowed(0b1011, 3));
    assert!(!is_memory_type_allowed(0b1011, 2));
    assert!(!is_memory_type_allowed(u32::MAX, 32));
}

#[test]
fn unexportable_format_fails_creation() {
    let mut f = ImageFactory::new(MemoryHandleKind::OpaqueFd, 1, false);
    f.advance(FactoryEvent::FormatQueried { supported: true, exportable: false });
    assert_eq!(f.pending(), FactoryAction::Abort { error: ExternalImageError::ImageCreationFailed });
    let mut f = ImageFactory::new(MemoryHandleKind::OpaqueFd, 1, false);
    f.advance(FactoryEvent::FormatQueried { supported: false, exportable: true });
    assert_eq!(f.state, FactoryState::Failed { error: ExternalImageError::ImageCreationFailed });
}

#[test]
fn raw_image_failure_fails_creation() {
    let mut f = ImageFactory::new(MemoryHandleKind::OpaqueFd, 1, false);
    f.advance(FactoryEvent::FormatQueried { supported: true, exportable: true });
    f.advance(FactoryEvent::ImageCreated { ok: false });
    assert_eq!(f.pending(), FactoryAction::Abort { error: ExternalImageError::ImageCreationFailed });
}

#[test]
fn no_memory_type_is_reported() {
    let mut f = ImageFactory::new(MemoryHandleKind::OpaqueFd, 1, false);
    f.advance(FactoryEvent::FormatQueried { supported: true, exportable: true });
    f.advance(FactoryEvent::ImageCreated { ok: true });
    f.advance(FactoryEvent::RequirementsRead { requirements: requirements() });
    f.advance(FactoryEvent::MemoryTypeFound { index: None });
    assert_eq!(f.pending(), FactoryAction::Abort { error: ExternalImageError::NoEligibleMemoryType });
}

#[test]
fn refused_allocation_fails() {
    let f = through_allocation(None);
    assert_eq!(f.pending(), FactoryAction::Abort { error: ExternalImageError::AllocationFailed });
}

#[test]
fn misaligned_allocation_is_caught() {
    let f = through_allocation(Some(Allocation { offset: 512, size: 3_840_000 }));
    assert_eq!(f.pending(), FactoryAction::Abort { error: ExternalImageError::AllocationFailed });
    let f = through_allocation(Some(Allocation { offset: 2048, size: 3_840_000 }));
    assert_eq!(f.pending(), FactoryAction::Bind);
}

#[test]
fn wrongly_sized_allocation_is_caught() {
    let f = through_allocation(Some(Allocation { offset: 0, size: 4_000_000 }));
    assert_eq!(f.pending(), FactoryAction::Abort { error: ExternalImageError::AllocationFailed });
}

#[test]
fn bind_failure_is_reported() {
    let mut f = through_allocation(Some(Allocation { offset: 1024, size: 3_840_000 }));
    f.advance(FactoryEvent::Bound { ok: false });
    assert_eq!(f.pending(), FactoryAction::Abort { error: ExternalImageError::BindFailed });
}

#[test]
fn out_of_turn_answer_changes_nothing() {
    let mut f = ImageFactory::new(MemoryHandleKind::OpaqueFd, 1, false);
    f.advance(FactoryEvent::Bound { ok: true });
    assert_eq!(f.state, FactoryState::AwaitFormat);
}

#[test]
fn allocation_fit_needs_alignment_offset_and_size() {
    let r = MemoryRequirements { size: 4096, alignment: 256, memory_type_bits: 1 };
    assert!(allocation_fits(&r, &Allocation { offset: 768, size: 4096 }));
    assert!(!allocation_fits(&r, &Allocation { offset: 700, size: 4096 }));
    assert!(!allocation_fits(&r, &Allocation { offset: 768, size: 4095 }));
    let unaligned = MemoryRequirements { size: 4096, alignment: 0, memory_type_bits: 1 };
    assert!(!allocation_fits(&unaligned, &Allocation { offset: 0, size: 4096 }));
}
