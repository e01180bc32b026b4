use vstd::prelude::*;
use vulkano::memory::ExternalMemoryHandleType;
use vulkano::sync::ExternalSemaphoreHandleType;

verus! {

#[verifier::external_type_specification]
pub struct ExExternalMemoryHandleType(ExternalMemoryHandleType);

#[verifier::external_type_specification]
pub struct ExExternalSemaphoreHandleType(ExternalSemaphoreHandleType);

/// The operating system on whose handle mechanisms the candidates are drawn.
#[derive(Clone, Copy, Debug, PartialEq, Eq, Structural)]
pub enum Platform {
    Windows,
    Posix,
}

/// A mechanism by which device memory can be exported.
#[derive(Clone, Copy, Debug, PartialEq, Eq, Structural)]
pub enum MemoryHandleKind {
    OpaqueFd,
    OpaqueWin32,
    OpaqueWin32Kmt,
    D3D11Texture,
    D3D11TextureKmt,
    D3D12Heap,
    D3D12Resource,
    DmaBuf,
}

/// A mechanism by which a semaphore can be exported.
#[derive(Clone, Copy, Debug, PartialEq, Eq, Structural)]
pub enum SemaphoreHandleKind {
    OpaqueFd,
    OpaqueWin32,
    OpaqueWin32Kmt,
    D3D12Fence,
    SyncFd,
}

impl MemoryHandleKind {
    /// The bit of this kind in Vulkan's external memory handle type flags.
    pub open spec fn spec_bit(self) -> u32 {
        match self {
            MemoryHandleKind::OpaqueFd => 0x1,
            MemoryHandleKind::OpaqueWin32 => 0x2,
            MemoryHandleKind::OpaqueWin32Kmt => 0x4,
            MemoryHandleKind::D3D11Texture => 0x8,
            MemoryHandleKind::D3D11TextureKmt => 0x10,
            MemoryHandleKind::D3D12Heap => 0x20,
            MemoryHandleKind::D3D12Resource => 0x40,
            MemoryHandleKind::DmaBuf => 0x200,
        }
    }

    #[verifier::when_used_as_spec(spec_bit)]
    pub fn bit(self) -> (r: u32)
        ensures
            r == self.spec_bit(),
    {
        match self {
            MemoryHandleKind::OpaqueFd => 0x1,
            MemoryHandleKind::OpaqueWin32 => 0x2,
            MemoryHandleKind::OpaqueWin32Kmt => 0x4,
            MemoryHandleKind::D3D11Texture => 0x8,
            MemoryHandleKind::D3D11TextureKmt => 0x10,
            MemoryHandleKind::D3D12Heap => 0x20,
            MemoryHandleKind::D3D12Resource => 0x40,
            MemoryHandleKind::DmaBuf => 0x200,
        }
    }

    /// The name under which the kind is announced to the consumer.
    pub open spec fn spec_name(self) -> Seq<char> {
        match self {
            MemoryHandleKind::OpaqueFd => "OpaqueFd"@,
            MemoryHandleKind::OpaqueWin32 => "OpaqueWin32"@,
            MemoryHandleKind::OpaqueWin32Kmt => "OpaqueWin32Kmt"@,
            MemoryHandleKind::D3D11Texture => "D3D11Texture"@,
            MemoryHandleKind::D3D11TextureKmt => "D3D11TextureKmt"@,
            MemoryHandleKind::D3D12Heap => "D3D12Heap"@,
            MemoryHandleKind::D3D12Resource => "D3D12Resource"@,
            MemoryHandleKind::DmaBuf => "DmaBuf"@,
        }
    }

    pub fn name(self) -> (r: &'static str)
        ensures
            r@ == self.spec_name(),
    {
        match self {
            MemoryHandleKind::OpaqueFd => "OpaqueFd",
            MemoryHandleKind::OpaqueWin32 => "OpaqueWin32",
            MemoryHandleKind::OpaqueWin32Kmt => "OpaqueWin32Kmt",
            MemoryHandleKind::D3D11Texture => "D3D11Texture",
            MemoryHandleKind::D3D11TextureKmt => "D3D11TextureKmt",
            MemoryHandleKind::D3D12Heap => "D3D12Heap",
            MemoryHandleKind::D3D12Resource => "D3D12Resource",
            MemoryHandleKind::DmaBuf => "DmaBuf",
        }
    }

    /// The same kind as vulkano names it.
    pub fn to_vulkano(self) -> (r: ExternalMemoryHandleType)
        ensures
            self == MemoryHandleKind::OpaqueFd ==> r == ExternalMemoryHandleType::OpaqueFd,
            self == MemoryHandleKind::OpaqueWin32 ==> r == ExternalMemoryHandleType::OpaqueWin32,
            self == MemoryHandleKind::OpaqueWin32Kmt ==> r == ExternalMemoryHandleType::OpaqueWin32Kmt,
            self == MemoryHandleKind::D3D11Texture ==> r == ExternalMemoryHandleType::D3D11Texture,
            self == MemoryHandleKind::D3D11TextureKmt ==> r == ExternalMemoryHandleType::D3D11TextureKmt,
            self == MemoryHandleKind::D3D12Heap ==> r == ExternalMemoryHandleType::D3D12Heap,
            self == MemoryHandleKind::D3D12Resource ==> r == ExternalMemoryHandleType::D3D12Resource,
            self == MemoryHandleKind::DmaBuf ==> r == ExternalMemoryHandleType::DmaBuf,
    {
        match self {
            MemoryHandleKind::OpaqueFd => ExternalMemoryHandleType::OpaqueFd,
            MemoryHandleKind::OpaqueWin32 => ExternalMemoryHandleType::OpaqueWin32,
            MemoryHandleKind::OpaqueWin32Kmt => ExternalMemoryHandleType::OpaqueWin32Kmt,
            MemoryHandleKind::D3D11Texture => ExternalMemoryHandleType::D3D11Texture,
            MemoryHandleKind::D3D11TextureKmt => ExternalMemoryHandleType::D3D11TextureKmt,
            MemoryHandleKind::D3D12Heap => ExternalMemoryHandleType::D3D12Heap,
            MemoryHandleKind::D3D12Resource => ExternalMemoryHandleType::D3D12Resource,
            MemoryHandleKind::DmaBuf => ExternalMemoryHandleType::DmaBuf,
        }
    }
}

impl SemaphoreHandleKind {
    /// The bit of this kind in Vulkan's external semaphore handle type flags.
    pub open spec fn spec_bit(self) -> u32 {
        match self {
            SemaphoreHandleKind::OpaqueFd => 0x1,
            SemaphoreHandleKind::OpaqueWin32 => 0x2,
            SemaphoreHandleKind::OpaqueWin32Kmt => 0x4,
            SemaphoreHandleKind::D3D12Fence => 0x8,
            SemaphoreHandleKind::SyncFd => 0x10,
        }
    }

    #[verifier::when_used_as_spec(spec_bit)]
    pub fn bit(self) -> (r: u32)
        ensures
            r == self.spec_bit(),
    {
        match self {
            SemaphoreHandleKind::OpaqueFd => 0x1,
            SemaphoreHandleKind::OpaqueWin32 => 0x2,
            SemaphoreHandleKind::OpaqueWin32Kmt => 0x4,
            SemaphoreHandleKind::D3D12Fence => 0x8,
            SemaphoreHandleKind::SyncFd => 0x10,
        }
    }

    /// The name under which the kind is announced to the consumer.
    pub open spec fn spec_name(self) -> Seq<char> {
        match self {
            SemaphoreHandleKind::OpaqueFd => "OpaqueFd"@,
            SemaphoreHandleKind::OpaqueWin32 => "OpaqueWin32"@,
            SemaphoreHandleKind::OpaqueWin32Kmt => "OpaqueWin32Kmt"@,
            SemaphoreHandleKind::D3D12Fence => "D3D12Fence"@,
            SemaphoreHandleKind::SyncFd => "SyncFd"@,
        }
    }

    pub fn name(self) -> (r: &'static str)
        ensures
            r@ == self.spec_name(),
    {
        match self {
            SemaphoreHandleKind::OpaqueFd => "OpaqueFd",
            SemaphoreHandleKind::OpaqueWin32 => "OpaqueWin32",
            SemaphoreHandleKind::OpaqueWin32Kmt => "OpaqueWin32Kmt",
            SemaphoreHandleKind::D3D12Fence => "D3D12Fence",
            SemaphoreHandleKind::SyncFd => "SyncFd",
        }
    }

    /// The same kind as vulkano names it.
    pub fn to_vulkano(self) -> (r: ExternalSemaphoreHandleType)
        ensures
            self == SemaphoreHandleKind::OpaqueFd ==> r == ExternalSemaphoreHandleType::OpaqueFd,
            self == SemaphoreHandleKind::OpaqueWin32 ==> r == ExternalSemaphoreHandleType::OpaqueWin32,
            self == SemaphoreHandleKind::OpaqueWin32Kmt ==> r == ExternalSemaphoreHandleType::OpaqueWin32Kmt,
            self == SemaphoreHandleKind::D3D12Fence ==> r == ExternalSemaphoreHandleType::D3D12Fence,
            self == SemaphoreHandleKind::SyncFd ==> r == ExternalSemaphoreHandleType::SyncFd,
    {
        match self {
            SemaphoreHandleKind::OpaqueFd => ExternalSemaphoreHandleType::OpaqueFd,
            SemaphoreHandleKind::OpaqueWin32 => ExternalSemaphoreHandleType::OpaqueWin32,
            SemaphoreHandleKind::OpaqueWin32Kmt => ExternalSemaphoreHandleType::OpaqueWin32Kmt,
            SemaphoreHandleKind::D3D12Fence => ExternalSemaphoreHandleType::D3D12Fence,
            SemaphoreHandleKind::SyncFd => ExternalSemaphoreHandleType::SyncFd,
        }
    }
}

/// The memory handle kinds tried on a platform, most preferred first.
///
/// The owning opaque Win32 handle leads on Windows because it is the one kind
/// that can be relayed into another process.
pub open spec fn memory_candidates_of(platform: Platform) -> Seq<MemoryHandleKind> {
    match platform {
        Platform::Windows => seq![
            MemoryHandleKind::OpaqueWin32,
            MemoryHandleKind::D3D11TextureKmt,
            MemoryHandleKind::D3D11Texture,
            MemoryHandleKind::D3D12Resource,
            MemoryHandleKind::D3D12Heap,
            MemoryHandleKind::OpaqueWin32Kmt,
        ],
        Platform::Posix => seq![MemoryHandleKind::OpaqueFd, MemoryHandleKind::DmaBuf],
    }
}

/// The semaphore handle kinds tried on a platform, most preferred first.
pub open spec fn semaphore_candidates_of(platform: Platform) -> Seq<SemaphoreHandleKind> {
    match platform {
        Platform::Windows => seq![
            SemaphoreHandleKind::OpaqueWin32,
            SemaphoreHandleKind::OpaqueWin32Kmt,
            SemaphoreHandleKind::D3D12Fence,
        ],
        Platform::Posix => seq![SemaphoreHandleKind::OpaqueFd, SemaphoreHandleKind::SyncFd],
    }
}

pub fn memory_candidates(platform: Platform) -> (r: Vec<MemoryHandleKind>)
    ensures
        r@ == memory_candidates_of(platform),
{
    let r = match platform {
        Platform::Windows => vec![
            MemoryHandleKind::OpaqueWin32,
            MemoryHandleKind::D3D11TextureKmt,
            MemoryHandleKind::D3D11Texture,
            MemoryHandleKind::D3D12Resource,
            MemoryHandleKind::D3D12Heap,
            MemoryHandleKind::OpaqueWin32Kmt,
        ],
        Platform::Posix => vec![MemoryHandleKind::OpaqueFd, MemoryHandleKind::DmaBuf],
    };
    assert(r@ =~= memory_candidates_of(platform));
    r
}

pub fn semaphore_candidates(platform: Platform) -> (r: Vec<SemaphoreHandleKind>)
    ensures
        r@ == semaphore_candidates_of(platform),
{
    let r = match platform {
        Platform::Windows => vec![
            SemaphoreHandleKind::OpaqueWin32,
            SemaphoreHandleKind::OpaqueWin32Kmt,
            SemaphoreHandleKind::D3D12Fence,
        ],
        Platform::Posix => vec![SemaphoreHandleKind::OpaqueFd, SemaphoreHandleKind::SyncFd],
    };
    assert(r@ =~= semaphore_candidates_of(platform));
    r
}

} // verus!
