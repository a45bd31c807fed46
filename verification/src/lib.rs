//! Hot reloading of a plugin module: the reload state machine, the adapter
//! contract that moves opaque state across a swap, and the boundary protocol
//! of the three-symbol adapter.

pub mod basic;
pub mod hotloader;
pub mod module;
pub mod proxy;
pub mod state;
pub mod time;

pub use basic::{BasicProxy, Construction, Export, Step};
pub use hotloader::Hotloader;
pub use proxy::HotloadProxy;
pub use state::OpaqueState;
pub use time::Timestamp;
