//! A hot-reloading configuration store.
//!
//! Callers register a typed configuration backed by a file on disk under a
//! [`ConfigId`]. The store decodes the file once, keeps the decoded value in a
//! type-erased registry cell, and republishes every successfully decoded value
//! on a subscription channel. A filesystem watcher (run by the embedding
//! program) reports change events; on a genuine content change the store
//! re-decodes and atomically replaces the stored value, while failed reload
//! attempts leave the previous good value untouched.

mod channel;
mod codec;
mod erase;
mod errors;
mod event;
mod registry;
mod store;
mod types;

pub use codec::decode_str;
pub use erase::{AnyValue, WatchGuard};
pub use errors::ReloadifyError;
pub use event::{spec_should_reload, should_reload, FsEventKind};
pub use registry::{
    lemma_duplicate_registration_is_no_op, spec_register, Registry, RegistryEntry, StoredConfig,
};
pub use store::{RegistryPred, ReloadOutcome, Reloadify};
pub use types::{ConfigId, Format, ReloadableConfig};
