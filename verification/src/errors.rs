use vstd::prelude::*;

verus! {

/// The errors of the configuration store.
///
/// `GetLockError` mirrors a lock that could not be acquired; with the
/// verified lock used here it can never arise, and the contracts of the
/// store's operations state that it is never returned. `LoadConfigError`,
/// `DeserializeError` and `WatchError` carry the reporting collaborator's
/// message as plain text.
#[derive(Debug, Clone)]
pub enum ReloadifyError {
    GetLockError,
    LoadConfigError(String),
    DeserializeError(String),
    WatchError(String),
    DowncastError,
    ConfigNotExist,
    SendError,
}

} // verus!
