//! Client-side driver logic for a small LED-matrix accessory split into
//! independently addressable applets.
//!
//! The crate holds the protocol client's design content: the command codec
//! (typed commands to the wire JSON form, status bytes to typed outcomes)
//! and the per-applet session state (grid and separator mirrors with their
//! mutation and serialization rules). The transport itself, a loopback TCP
//! stream carrying one JSON command per request and one raw status byte per
//! response, is driven by a thin unverified shell around this crate.

pub mod codec;
pub mod wire;
pub mod session;
pub mod status;

pub use codec::Command;
pub use codec::Opcode;
pub use session::AppletInterface;
pub use session::Separator;
pub use status::InterfaceError;
