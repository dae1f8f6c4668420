use vstd::prelude::*;

verus! {

/// The format of a configuration file, a closed set of supported codecs.
#[derive(Clone, Copy, Debug, PartialEq, Eq, Structural)]
pub enum Format {
    Json,
    Yaml,
    Toml,
    Xml,
    Ini,
}

/// The identifier of a configuration: an opaque string token compared by
/// exact string equality.
#[derive(Debug, Eq, Hash)]
pub struct ConfigId(pub String);

impl View for ConfigId {
    type V = Seq<char>;

    open spec fn view(&self) -> Seq<char> {
        self.0@
    }
}

impl ConfigId {
    /// Creates a new `ConfigId` with the given identifier.
    pub fn new(id: String) -> (r: Self)
        ensures
            r@ == id@,
    {
        ConfigId(id)
    }
}

impl Clone for ConfigId {
    fn clone(&self) -> (r: Self)
        ensures
            r == *self,
    {
        ConfigId(self.0.clone())
    }
}

impl PartialEq for ConfigId {
    fn eq(&self, other: &Self) -> (r: bool) {
        self.0 == other.0
    }
}

impl vstd::std_specs::cmp::PartialEqSpecImpl for ConfigId {
    open spec fn obeys_eq_spec() -> bool {
        true
    }

    open spec fn eq_spec(&self, other: &Self) -> bool {
        self.0@ == other.0@
    }
}

/// Describes one registration: which file backs the configuration, how its
/// content is decoded, and how often a polling watcher should look for
/// changes. Supplied once at registration time and never mutated afterwards.
#[derive(Debug)]
pub struct ReloadableConfig {
    pub id: ConfigId,
    pub path: String,
    pub format: Format,
    pub poll_interval_ms: u64,
}

impl Clone for ReloadableConfig {
    fn clone(&self) -> (r: Self)
        ensures
            r.id == self.id,
            r.path@ == self.path@,
            r.format == self.format,
            r.poll_interval_ms == self.poll_interval_ms,
    {
        ReloadableConfig {
            id: self.id.clone(),
            path: self.path.clone(),
            format: self.format,
            poll_interval_ms: self.poll_interval_ms,
        }
    }
}

} // verus!
