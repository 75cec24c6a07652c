//! An owner-scoped counter: one record per owner identity, stored at an
//! address derived from a namespace tag and the owner, with checked
//! increments and an owner-only reset.

pub mod key;
pub mod layout;
pub mod record;
pub mod store;

pub use key::{derive_key, PublicKey, COUNTER_SEED, PROGRAM_ID_BYTES};
pub use layout::INIT_SPACE;
pub use record::{increment, reset, Counter, CounterError, Update};
pub use store::{initialize, CounterStore, Initialize};
