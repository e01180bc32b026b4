//! Exporting GPU images and semaphores to another process.
//!
//! The library decides which external handle kind a device can export,
//! drives the creation of an exportable image and its dedicated allocation,
//! checks the preconditions of handle export, relays a Windows handle to the
//! parent process, and renders the handshake line that announces a handle.
pub mod handle_kind;
pub mod negotiate;
pub mod factory;
pub mod export;
pub mod relay;
pub mod semaphore;
pub mod handshake;
pub mod device;
