//! Saved proxy profiles: named endpoints kept in insertion order.
use vstd::prelude::*;
use crate::endpoint::ProxyProtocol;

verus! {

/// A named endpoint. Names need not be unique: a profile is known by its
/// position in the collection.
#[derive(Clone, Debug)]
pub struct ProxyProfile {
    pub name: String,
    pub ip: String,
    pub port: String,
    pub protocol: ProxyProtocol,
}

/// What is persisted: every profile, in order.
#[derive(Clone, Debug)]
pub struct AppConfig {
    pub profiles: Vec<ProxyProfile>,
}

/// The text fields and protocol of a profile.
pub open spec fn profile_fields(p: ProxyProfile) -> (Seq<char>, Seq<char>, Seq<char>, ProxyProtocol) {
    (p.name@, p.ip@, p.port@, p.protocol)
}

impl ProxyProfile {
    /// A profile with the given fields, taken as they are.
    pub fn new(name: String, ip: String, port: String, protocol: ProxyProtocol) -> (r: ProxyProfile)
        ensures
            profile_fields(r) == (name@, ip@, port@, protocol),
    {
        ProxyProfile { name, ip, port, protocol }
    }
}

impl AppConfig {
    /// A configuration with no profiles.
    pub fn empty() -> (r: AppConfig)
        ensures
            r.profiles@.len() == 0,
    {
        AppConfig { profiles: Vec::new() }
    }

    /// The configuration to start from, given what reading and parsing the
    /// stored file gave: nothing when the file was missing, unreadable or
    /// malformed. Such a file gives an empty collection, never an error.
    pub fn loaded_or_empty(loaded: Option<AppConfig>) -> (r: AppConfig)
        ensures
            loaded is None ==> r.profiles@.len() == 0,
            loaded is Some ==> r == loaded->0,
    {
        match loaded {
            Some(config) => config,
            None => AppConfig::empty(),
        }
    }
}

} // verus!
