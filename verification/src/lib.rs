//! Adapter between a host that talks through a C plugin interface and a set
//! of named talk-table resolvers.
//!
//! Everything here works on plain values: byte strings as the host hands
//! them over (without the terminating nul), integers, and caller-supplied
//! output buffers. The code that touches raw pointers, reads files and asks
//! the table service for entries lives outside of this library and feeds it
//! the results.

pub mod buffer;
pub mod cplugin;
pub mod error;
pub mod plugin;
pub mod reference;
pub mod registry;
pub mod reply;
pub mod table;
pub mod text;

pub use crate::error::NWNXError;
pub use crate::plugin::XPTlk;
