use viewer::handle_kind::{MemoryHandleKind, SemaphoreHandleKind};
use viewer::handshake::{format_decimal, format_handle, image_line, semaphore_line};

#[test]
fn handle_format_logic_test() {
    assert_eq!(format_handle(1usize), "0000000000000001");
    assert_eq!(format_handle(1usize << 1), "0000000000000002");
    assert_eq!(format_handle(15usize), "000000000000000f");
    assert_eq!(format_handle(16usize), "0000000000000010");
    assert_eq!(format_handle(usize::MAX), "ffffffffffffffff");
}

#[test]
fn handle_text_is_sixteen_digits_for_zero_and_max() {
    assert_eq!(format_handle(0), "0000000000000000");
    assert_eq!(format_handle(0).len(), 16);
    assert_eq!(format_handle(usize::MAX).len(), 16);
    assert_eq!(format_handle(0xdead_beef), "00000000deadbeef");
}

#[test]
fn decimal_text() {
    assert_eq!(format_decimal(0), "0");
    assert_eq!(format_decimal(7), "7");
    assert_eq!(format_decimal(1_920_000), "1920000");
    assert_eq!(format_decimal(u64::MAX), "18446744073709551615");
}

#[test]
fn semaphore_handshake_line() {
    assert_eq!(
        semaphore_line("OGL_begin", SemaphoreHandleKind::OpaqueWin32, 0x1a4),
        "Connection data: {\"semaphore\", \"OGL_begin\", \"OpaqueWin32\", \"00000000000001a4\"}"
    );
    assert_eq!(
        semaphore_line("OGL_end", SemaphoreHandleKind::OpaqueFd, 0),
        "Connection data: {\"semaphore\", \"OGL_end\", \"OpaqueFd\", \"0000000000000000\"}"
    );
}

#[test]
fn image_handshake_line() {
    assert_eq!(
        image_line("OGL_buffer", MemoryHandleKind::OpaqueFd, 17, 3_840_000, "R16G16B16A16_UNORM"),
        "Connection data: {\"image\", \"OGL_buffer\", \"OpaqueFd\", \"0000000000000011\", size: \"3840000\", format: \"R16G16B16A16_UNORM\"}"
    );
}

#[test]
fn kind_names() {
    assert_eq!(MemoryHandleKind::D3D11TextureKmt.name(), "D3D11TextureKmt");
    assert_eq!(MemoryHandleKind::DmaBuf.name(), "DmaBuf");
    assert_eq!(SemaphoreHandleKind::D3D12Fence.name(), "D3D12Fence");
    assert_eq!(SemaphoreHandleKind::SyncFd.name(), "SyncFd");
}
