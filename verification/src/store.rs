use crate::channel::send_value;
use crate::codec::decode_str;
use crate::erase::{AnyValue, WatchGuard};
use crate::errors::ReloadifyError;
use crate::event::{should_reload, spec_should_reload, FsEventKind};
use crate::registry::{Registry, StoredConfig};
use crate::types::{ConfigId, ReloadableConfig};
use vstd::prelude::*;
use vstd::rwlock::{RwLock, RwLockPredicate};

verus! {

/// The predicate the registry lock maintains: whatever the lock stores is a
/// well-formed registry.
pub struct RegistryPred;

impl RwLockPredicate<Registry> for RegistryPred {
    open spec fn inv(self, r: Registry) -> bool {
        r.wf()
    }
}

/// A shared collection of reloadable configurations: a registry of
/// type-erased cells guarded by one reader/writer lock. Registration,
/// reload-driven update and retrieval each take the lock once; no lock is
/// held across a file read, and the lock itself cannot fail, so no
/// operation here ever reports `GetLockError`. Share the store between the
/// caller and the background watchers by reference counting.
pub struct Reloadify {
    lock: RwLock<Registry, RegistryPred>,
}

/// What one reload attempt came to. A skipped attempt leaves the previous
/// good value authoritative; nothing is retried until the next qualifying
/// change event.
#[derive(Clone, Copy, Debug, PartialEq, Eq, Structural)]
pub enum ReloadOutcome {
    /// The event did not report a content change, so nothing was attempted.
    SkippedEvent,
    /// The file could not be read back, so the attempt was dropped.
    SkippedRead,
    /// The new content could not be decoded, so the attempt was dropped.
    SkippedDecode,
    /// The identifier is no longer registered, so there was nothing to
    /// update.
    NotRegistered,
    /// The decoded value's concrete type differs from the one the entry was
    /// registered with, so the attempt was dropped: the type recoverable
    /// from a cell never changes after creation.
    SkippedType,
    /// The stored value was replaced and the new value delivered.
    Updated,
}

impl Reloadify {
    #[verifier::type_invariant]
    spec fn type_inv(self) -> bool {
        self.lock.pred() == (RegistryPred {})
    }

    /// Creates a new `Reloadify` instance with nothing registered.
    pub fn new() -> (r: Self) {
        Reloadify { lock: RwLock::new(Registry::new(), Ghost(RegistryPred {})) }
    }

    /// Registers a configuration: decodes the already-read file content
    /// into the caller's type, delivers the initial value on the channel,
    /// and inserts a cell owning the watcher guard — only if the identifier
    /// is absent; an existing registration is never replaced. The caller
    /// hands in the initial read of the backing file (an `Err` carries the
    /// reader's message), the two ends of a fresh channel, and the guard of
    /// a watch already running on the file.
    ///
    /// Errors exactly as the attempt fails: `LoadConfigError` with the
    /// reader's message when the file could not be read,
    /// `DeserializeError` when the content does not decode into `C`,
    /// `SendError` when the channel refused the initial value. On success
    /// the returned receiver is the channel's receiving end, and its first
    /// item is the initial decoded value.
    ///
    /// A second registration under an identifier that is already present
    /// keeps the existing entry, value and watcher; the guard handed to the
    /// duplicate call is dropped, which stops its watch, so the returned
    /// channel carries the duplicate call's initial value and nothing
    /// after it. Only the original registration keeps publishing reloads.
    pub fn add<C: serde::de::DeserializeOwned + Clone + Send + Sync + 'static>(
        &self,
        reloadable_config: ReloadableConfig,
        content: Result<String, String>,
        tx: &std::sync::mpsc::Sender<C>,
        rx: std::sync::mpsc::Receiver<C>,
        watcher: WatchGuard,
    ) -> (r: Result<std::sync::mpsc::Receiver<C>, ReloadifyError>)
        ensures
            r matches Ok(receiver) ==> receiver == rx && content matches Ok(_),
            content matches Err(m) ==> r == Err::<std::sync::mpsc::Receiver<C>, _>(
                ReloadifyError::LoadConfigError(m),
            ),
            r matches Err(e) ==> (e matches ReloadifyError::LoadConfigError(_) || e matches
                ReloadifyError::DeserializeError(_) || e matches ReloadifyError::SendError),
            r matches Err(ReloadifyError::LoadConfigError(_)) ==> content matches Err(_),
            r matches Err(ReloadifyError::DeserializeError(_)) ==> content matches Ok(_),
            r matches Err(ReloadifyError::SendError) ==> content matches Ok(_),
    {
        let text = match content {
            Ok(t) => t,
            Err(m) => {
                return Err(ReloadifyError::LoadConfigError(m));
            },
        };
        let initial: C = match decode_str::<C>(text.as_str(), reloadable_config.format) {
            Ok(v) => v,
            Err(e) => {
                return Err(e);
            },
        };
        if !send_value(tx, initial.clone()) {
            return Err(ReloadifyError::SendError);
        }
        proof {
            use_type_invariant(self);
        }
        let (mut registry, write_handle) = self.lock.acquire_write();
        let cell = StoredConfig { value: AnyValue::pack(initial), watcher };
        let _inserted = registry.insert_if_absent(reloadable_config.id, cell);
        write_handle.release_write(registry);
        Ok(rx)
    }

    /// Retrieves the current value registered under `config_id`, recovered
    /// as the type it was registered with. Always reads the latest
    /// committed value; never blocks beyond the lock and never reports
    /// `GetLockError`. Errors: `ConfigNotExist` when the identifier is
    /// unknown, `DowncastError` when `C` differs from the registered type.
    pub fn get<C: Clone + Send + Sync + 'static>(&self, config_id: ConfigId) -> (r: Result<
        C,
        ReloadifyError,
    >)
        ensures
            r matches Err(e) ==> (e matches ReloadifyError::ConfigNotExist || e matches
                ReloadifyError::DowncastError),
    {
        proof {
            use_type_invariant(self);
        }
        let read_handle = self.lock.acquire_read();
        let result = match read_handle.borrow().get_value(&config_id) {
            None => Err(ReloadifyError::ConfigNotExist),
            Some(handle) => match handle.unpack::<C>() {
                Some(v) => Ok(v),
                None => Err(ReloadifyError::DowncastError),
            },
        };
        read_handle.release_read();
        result
    }

    /// One pass of the reload pipeline, run for each change notification
    /// the watcher delivers: decide whether the event qualifies, re-decode
    /// the freshly read content, replace the registered value in place and
    /// deliver the new value on the channel. Every failure is contained to
    /// this single attempt — a bad read or a bad write to the watched file
    /// never disturbs the stored value — and a delivery with no receiver
    /// left is silently dropped.
    ///
    /// The replacement is guarded by a type check against the stored value:
    /// a reload invoked under a type other than the one the entry was
    /// registered with is dropped as `SkippedType`, so the concrete type
    /// recoverable from a cell never changes after creation.
    pub fn apply_event<C: serde::de::DeserializeOwned + Clone + Send + Sync + 'static>(
        &self,
        reloadable_config: &ReloadableConfig,
        tx: &std::sync::mpsc::Sender<C>,
        event: FsEventKind,
        content: Option<String>,
    ) -> (outcome: ReloadOutcome)
        ensures
            outcome == ReloadOutcome::SkippedEvent <==> !spec_should_reload(event),
            outcome == ReloadOutcome::SkippedRead <==> (spec_should_reload(event)
                && content is None),
            (outcome == ReloadOutcome::SkippedDecode || outcome == ReloadOutcome::NotRegistered
                || outcome == ReloadOutcome::SkippedType || outcome == ReloadOutcome::Updated)
                ==> (spec_should_reload(event) && content is Some),
    {
        if !should_reload(event) {
            return ReloadOutcome::SkippedEvent;
        }
        let text = match content {
            Some(t) => t,
            None => {
                return ReloadOutcome::SkippedRead;
            },
        };
        let latest: C = match decode_str::<C>(text.as_str(), reloadable_config.format) {
            Ok(v) => v,
            Err(_) => {
                return ReloadOutcome::SkippedDecode;
            },
        };
        let packed = AnyValue::pack(latest.clone());
        proof {
            use_type_invariant(self);
        }
        let (mut registry, write_handle) = self.lock.acquire_write();
        let type_matches: Option<bool> = match registry.get_value(&reloadable_config.id) {
            None => None,
            Some(current) => Some(current.same_type(&packed)),
        };
        match type_matches {
            None => {
                write_handle.release_write(registry);
                ReloadOutcome::NotRegistered
            },
            Some(false) => {
                write_handle.release_write(registry);
                ReloadOutcome::SkippedType
            },
            Some(true) => {
                let updated = registry.update_value(&reloadable_config.id, packed);
                assert(updated);
                write_handle.release_write(registry);
                let _delivered = send_value(tx, latest);
                ReloadOutcome::Updated
            },
        }
    }
}

} // verus!
