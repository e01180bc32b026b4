use std::sync::Arc;
use vstd::prelude::*;
use vulkano::device::Device;
use vulkano::sync::{ExternalSemaphoreHandleType, Semaphore, SemaphoreCreateInfo, SemaphoreError};
use crate::handle_kind::SemaphoreHandleKind;

verus! {

#[verifier::external_type_specification]
#[verifier::external_body]
pub struct ExDevice(Device);

#[verifier::external_type_specification]
#[verifier::external_body]
pub struct ExSemaphore(Semaphore);

#[verifier::external_type_specification]
#[verifier::external_body]
pub struct ExSemaphoreError(SemaphoreError);

/// Relies on vulkano's `Semaphore::new`, creating a semaphore whose only
/// export handle type is `handle_type`; vulkano checks that the device can
/// export it and returns an error otherwise.
#[verifier::external_body]
fn new_exportable_semaphore(
    device: Arc<Device>,
    handle_type: ExternalSemaphoreHandleType,
) -> (r: Result<Semaphore, SemaphoreError>) {
    Semaphore::new(
        device,
        SemaphoreCreateInfo { export_handle_types: handle_type.into(), ..Default::default() },
    )
}

/// A semaphore made exportable under one handle kind.
pub struct ExternalSemaphore {
    pub semaphore: Arc<Semaphore>,
    /// The kind that the semaphore can be exported under.
    pub kind: SemaphoreHandleKind,
}

/// Creates a semaphore that can be exported under `kind`; the driver's
/// refusal comes back as vulkano's error.
pub fn create_external_semaphore(device: Arc<Device>, kind: SemaphoreHandleKind) -> (r: Result<
    ExternalSemaphore,
    SemaphoreError,
>)
    ensures
        r matches Ok(s) ==> s.kind == kind,
{
    match new_exportable_semaphore(device, kind.to_vulkano()) {
        Ok(semaphore) => Ok(ExternalSemaphore { semaphore: Arc::new(semaphore), kind }),
        Err(e) => Err(e),
    }
}

} // verus!
