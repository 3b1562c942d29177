//! Client binding for an IEEE-1275 style firmware ("Open Firmware").
//!
//! The firmware exposes a single entry point that dispatches a generic call
//! frame by an embedded service name.  This crate models that boundary: the
//! [`services`] module holds the per-service frame records with their exact
//! header contracts, and the [`prom`] module builds each high-level operation
//! (console output, device open/read/close, property lookup, memory
//! claim/release, program exit) from one frame shape plus a single dispatch.

pub mod handles;
pub mod prom;
pub mod services;
pub mod wire;

pub use handles::IHandle;
pub use handles::PHandle;
pub use prom::prom_init;
pub use prom::ClientInterface;
pub use prom::FallbackEntry;
pub use prom::PromError;
pub use prom::PROM;
