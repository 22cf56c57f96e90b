//! A `Cell`-like container for register values that is always accessed
//! through explicit, one-per-call read and write operations, with an
//! optional redirection layer: when a memory-access backend is installed
//! in the registry, every access on every cell is routed to the backend
//! as an address-based read or write instead of touching the cell's own
//! storage. This models memory-mapped hardware registers, and lets the
//! same code run against a simulated address space under a test harness.

mod backend;
mod cell;
mod laws;
mod registry;

pub use backend::AccessKind;
pub use backend::AccessRecord;
pub use backend::MemoryBackend;
pub use backend::SimBackend;
pub use cell::VolatileCell;
pub use cell::VolatileCell32;
pub use cell::VolatileCell8;
pub use registry::Registry;
pub use registry::set_memory_interface;
