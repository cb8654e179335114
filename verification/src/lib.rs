//! Host-side core of a SAE J2534 "PassThru" driver.
//!
//! The crate verifies the logic of the driver: the serial frame codec, the
//! request/response correlation of the transport, the four protocol-family
//! channel slots with their filter tables and bounded receive queues, and the
//! PassThru call surface that ties them together.  The serial port, the
//! threads that pump it, and the C ABI marshalling live outside the library,
//! behind the `SerialLink` trait.

pub mod channels;
pub mod comm;
pub mod frame;
pub mod ioctl;
pub mod j2534;
pub mod logger;
pub mod passthru_drv;
