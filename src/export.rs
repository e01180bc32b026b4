use vstd::prelude::*;
use crate::handle_kind::{MemoryHandleKind, SemaphoreHandleKind};

verus! {

/// Why a handle could not be exported or relayed.
#[derive(Clone, Copy, Debug, PartialEq, Eq, Structural)]
pub enum ExportError {
    /// The export path does not take this handle kind, or the device lacks
    /// the extension that the path needs.
    HandleTypeNotSupported,
    /// The driver's export call failed with this status code.
    DriverExportFailed { code: i32 },
    /// No process in the snapshot is this process, so its parent is unknown.
    ParentProcessNotFound,
    /// The parent process could not be opened, or the handle not duplicated into it.
    DuplicateHandleFailed,
}

/// The two ways of pulling a native handle out of the driver.
#[derive(Clone, Copy, Debug, PartialEq, Eq, Structural)]
pub enum ExportPath {
    /// A Win32 `HANDLE`, through the win32 export extensions.
    Win32,
    /// A POSIX file descriptor, through the fd export extensions.
    PosixFd,
}

impl ExportPath {
    /// The memory handle kinds that the path's export entry point takes.
    pub open spec fn spec_takes_memory(self, kind: MemoryHandleKind) -> bool {
        match self {
            ExportPath::Win32 => match kind {
                MemoryHandleKind::OpaqueWin32
                | MemoryHandleKind::OpaqueWin32Kmt
                | MemoryHandleKind::D3D11Texture
                | MemoryHandleKind::D3D11TextureKmt
                | MemoryHandleKind::D3D12Resource
                | MemoryHandleKind::D3D12Heap => true,
                _ => false,
            },
            ExportPath::PosixFd => match kind {
                MemoryHandleKind::OpaqueFd | MemoryHandleKind::DmaBuf => true,
                _ => false,
            },
        }
    }

    #[verifier::when_used_as_spec(spec_takes_memory)]
    pub fn takes_memory(self, kind: MemoryHandleKind) -> (r: bool)
        ensures
            r == self.spec_takes_memory(kind),
    {
        match self {
            ExportPath::Win32 => match kind {
                MemoryHandleKind::OpaqueWin32
                | MemoryHandleKind::OpaqueWin32Kmt
                | MemoryHandleKind::D3D11Texture
                | MemoryHandleKind::D3D11TextureKmt
                | MemoryHandleKind::D3D12Resource
                | MemoryHandleKind::D3D12Heap => true,
                _ => false,
            },
            ExportPath::PosixFd => match kind {
                MemoryHandleKind::OpaqueFd | MemoryHandleKind::DmaBuf => true,
                _ => false,
            },
        }
    }

    /// The semaphore handle kinds that the path's export entry point takes.
    pub open spec fn spec_takes_semaphore(self, kind: SemaphoreHandleKind) -> bool {
        match self {
            ExportPath::Win32 => match kind {
                SemaphoreHandleKind::OpaqueWin32
                | SemaphoreHandleKind::OpaqueWin32Kmt
                | SemaphoreHandleKind::D3D12Fence => true,
                _ => false,
            },
            ExportPath::PosixFd => match kind {
                SemaphoreHandleKind::OpaqueFd | SemaphoreHandleKind::SyncFd => true,
                _ => false,
            },
        }
    }

    #[verifier::when_used_as_spec(spec_takes_semaphore)]
    pub fn takes_semaphore(self, kind: SemaphoreHandleKind) -> (r: bool)
        ensures
            r == self.spec_takes_semaphore(kind),
    {
        match self {
            ExportPath::Win32 => match kind {
                SemaphoreHandleKind::OpaqueWin32
                | SemaphoreHandleKind::OpaqueWin32Kmt
                | SemaphoreHandleKind::D3D12Fence => true,
                _ => false,
            },
            ExportPath::PosixFd => match kind {
                SemaphoreHandleKind::OpaqueFd | SemaphoreHandleKind::SyncFd => true,
                _ => false,
            },
        }
    }

    /// Checks, before the driver is called, that memory can be exported
    /// under `kind` on this path, given whether the device has the path's
    /// external memory extension enabled.
    pub fn check_memory_export(self, kind: MemoryHandleKind, extension_enabled: bool) -> (r: Result<(), ExportError>)
        ensures
            r is Ok <==> self.takes_memory(kind) && extension_enabled,
            r is Err ==> r == Err::<(), ExportError>(ExportError::HandleTypeNotSupported),
    {
        if self.takes_memory(kind) && extension_enabled {
            Ok(())
        } else {
            Err(ExportError::HandleTypeNotSupported)
        }
    }

    /// Checks, before the driver is called, that a semaphore can be exported
    /// under `kind` on this path, given whether the device has the path's
    /// external semaphore extension enabled.
    pub fn check_semaphore_export(self, kind: SemaphoreHandleKind, extension_enabled: bool) -> (r: Result<(), ExportError>)
        ensures
            r is Ok <==> self.takes_semaphore(kind) && extension_enabled,
            r is Err ==> r == Err::<(), ExportError>(ExportError::HandleTypeNotSupported),
    {
        if self.takes_semaphore(kind) && extension_enabled {
            Ok(())
        } else {
            Err(ExportError::HandleTypeNotSupported)
        }
    }
}

/// The Vulkan status code of success.
pub const VK_SUCCESS: i32 = 0;

/// The outcome of a driver export call that returned `status` and wrote
/// `handle`: the handle on success, else the status as the error.
pub fn export_outcome(status: i32, handle: usize) -> (r: Result<usize, ExportError>)
    ensures
        status == VK_SUCCESS ==> r == Ok::<usize, ExportError>(handle),
        status != VK_SUCCESS ==> r == Err::<usize, ExportError>(ExportError::DriverExportFailed { code: status }),
{
    if status == VK_SUCCESS {
        Ok(handle)
    } else {
        Err(ExportError::DriverExportFailed { code: status })
    }
}

} // verus!
