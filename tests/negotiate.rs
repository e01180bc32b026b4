use std::cell::RefCell;
use viewer::handle_kind::{memory_candidates, semaphore_candidates, MemoryHandleKind, Platform, SemaphoreHandleKind};
use viewer::negotiate::{kind_accepted, negotiate, CapabilityReport};

fn report(compatible: u32, exportable: bool) -> CapabilityReport {
    CapabilityReport { compatible, exportable }
}

#[test]
fn posix_device_exporting_opaque_fd_only() {
    let candidates = memory_candidates(Platform::Posix);
    let oracle = |k: MemoryHandleKind| {
        let r = if k == MemoryHandleKind::OpaqueFd { report(0x1, true) } else { report(0, false) };
        r.accepts(k.bit())
    };
    assert_eq!(negotiate(&candidates, &oracle), Some(MemoryHandleKind::OpaqueFd));
}

#[test]
fn nothing_exportable_gives_none() {
    let candidates = memory_candidates(Platform::Windows);
    let oracle = |k: MemoryHandleKind| report(k.bit(), false).accepts(k.bit());
    assert_eq!(negotiate(&candidates, &oracle), None);
    let semaphores = semaphore_candidates(Platform::Posix);
    let oracle = |k: SemaphoreHandleKind| report(0, true).accepts(k.bit());
    assert_eq!(negotiate(&semaphores, &oracle), None);
}

#[test]
fn first_accepted_candidate_wins() {
    let candidates = memory_candidates(Platform::Windows);
    let oracle = |k: MemoryHandleKind| {
        k == MemoryHandleKind::OpaqueWin32Kmt || k == MemoryHandleKind::D3D12Heap
    };
    assert_eq!(negotiate(&candidates, &oracle), Some(MemoryHandleKind::D3D12Heap));
}

#[test]
fn oracle_is_asked_only_about_candidates_in_order() {
    let candidates = memory_candidates(Platform::Windows);
    let asked: RefCell<Vec<MemoryHandleKind>> = RefCell::new(Vec::new());
    let oracle = |k: MemoryHandleKind| {
        assert!(candidates.contains(&k));
        asked.borrow_mut().push(k);
        k == MemoryHandleKind::D3D12Resource
    };
    assert_eq!(negotiate(&candidates, &oracle), Some(MemoryHandleKind::D3D12Resource));
    assert_eq!(*asked.borrow(), candidates[..4].to_vec());
    assert!(!asked.borrow().contains(&MemoryHandleKind::OpaqueFd));
}

#[test]
fn semaphore_negotiation_on_windows() {
    let candidates = semaphore_candidates(Platform::Windows);
    let oracle = |k: SemaphoreHandleKind| {
        let r = match k {
            SemaphoreHandleKind::OpaqueWin32 => report(0x2, false),
            SemaphoreHandleKind::OpaqueWin32Kmt => report(0x4 | 0x2, true),
            _ => report(0x8, true),
        };
        r.accepts(k.bit())
    };
    assert_eq!(negotiate(&candidates, &oracle), Some(SemaphoreHandleKind::OpaqueWin32Kmt));
}

#[test]
fn report_needs_both_compatibility_and_export() {
    assert!(report(0x1 | 0x200, true).accepts(MemoryHandleKind::DmaBuf.bit()));
    assert!(!report(0x1, true).accepts(MemoryHandleKind::DmaBuf.bit()));
    assert!(!report(0x200, false).accepts(MemoryHandleKind::DmaBuf.bit()));
}

#[test]
fn candidate_lists_per_platform() {
    assert_eq!(
        memory_candidates(Platform::Posix),
        vec![MemoryHandleKind::OpaqueFd, MemoryHandleKind::DmaBuf]
    );
    assert_eq!(memory_candidates(Platform::Windows)[0], MemoryHandleKind::OpaqueWin32);
    assert!(!memory_candidates(Platform::Posix).contains(&MemoryHandleKind::D3D12Resource));
    assert_eq!(
        semaphore_candidates(Platform::Posix),
        vec![SemaphoreHandleKind::OpaqueFd, SemaphoreHandleKind::SyncFd]
    );
    assert_eq!(memory_candidates(Platform::Windows).len(), 6);
    assert_eq!(MemoryHandleKind::D3D12Resource.bit(), 0x40);
    assert_eq!(SemaphoreHandleKind::SyncFd.bit(), 0x10);
}

#[test]
fn missing_answer_accepts_nothing() {
    assert!(kind_accepted(Some(report(0x1, true)), MemoryHandleKind::OpaqueFd.bit()));
    assert!(!kind_accepted(Some(report(0x1, false)), MemoryHandleKind::OpaqueFd.bit()));
    assert!(!kind_accepted(Some(report(0x2, true)), MemoryHandleKind::OpaqueFd.bit()));
    assert!(!kind_accepted(None, MemoryHandleKind::OpaqueFd.bit()));
}
