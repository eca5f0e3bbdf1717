//! A verified implementation of the SMP device-management protocol:
//! the binary frame codec, the line-oriented console framing sublayer
//! with base64 encoding and a CRC-16 integrity check, a transport
//! abstraction with request/response correlation, and the resumable
//! chunked image-upload protocol.

/// The SMP frame: header layout and payload encoding/decoding.
pub mod smp;
/// The console framing sublayer for byte-stream transports.
pub mod smp_framing;
/// The transport capability and the typed session.
pub mod transport;
/// Image state queries and the chunked image-upload protocol.
pub mod application_management;
/// Echo, device info and reset commands.
pub mod os_management;
/// Remote shell commands.
pub mod shell_management;
