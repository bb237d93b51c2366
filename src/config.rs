//! The settings that the engine is built with: profiles and identifier
//! systems of the resources it writes.
use vstd::prelude::*;

verus! {

/// The profile and the identifier system of one kind of resource.
#[derive(Clone)]
pub struct ResourceConfig {
    pub profile: String,
    pub system: String,
}

/// The identifier system of one level of encounter.
#[derive(Clone)]
pub struct ContactLevelConfig {
    pub system: String,
}

impl Default for ContactLevelConfig {
    fn default() -> (r: ContactLevelConfig)
        ensures
            r.system@.len() == 0,
    {
        ContactLevelConfig { system: String::new() }
    }
}

/// The settings of encounters: their profile, the system of the visit
/// number, and one system per level of encounter.
#[derive(Clone)]
pub struct FallConfig {
    pub profile: String,
    pub system: String,
    pub einrichtungskontakt: ContactLevelConfig,
    pub abteilungskontakt: ContactLevelConfig,
    pub versorgungsstellenkontakt: ContactLevelConfig,
}

/// The settings of the FHIR side: persons and encounters.
#[derive(Clone)]
pub struct Fhir {
    pub person: ResourceConfig,
    pub fall: FallConfig,
}

} // verus!
