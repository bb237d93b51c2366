//! The lookup tables of departments and cost centres.
//!
//! The tables are read once, when the engine is built, and shared unchanged
//! by every message. Where a key occurs twice, the first entry counts.
use vstd::prelude::*;
use crate::error::{agrees, MappingError, MappingErrorView};
use crate::model::{CodeableConcept, Coding, CodingView};
use crate::text::str_eq;

verus! {

/// A department: its specialty key and its name.
#[derive(Clone)]
pub struct Department {
    pub fachabteilungs_schluessel: String,
    pub abteilungs_bezeichnung: String,
}

impl View for Department {
    type V = (Seq<char>, Seq<char>);

    open spec fn view(&self) -> (Seq<char>, Seq<char>) {
        (self.fachabteilungs_schluessel@, self.abteilungs_bezeichnung@)
    }
}

/// A cost centre: its description, its department and whether it is an
/// intensive care unit.
#[derive(Clone)]
pub struct Location {
    pub desc: String,
    pub fachabteilungs_kuerzel: String,
    pub abteilungs_bezeichnung: String,
    pub fachabteilungs_schluessel: String,
    pub ist_intensiv_station: bool,
}

/// The tables of departments by abbreviation and of locations by cost
/// centre.
#[derive(Clone)]
pub struct ResourceMap {
    pub department_map: Vec<(String, Department)>,
    pub location_map: Vec<(String, Location)>,
}

/// The department stored first under `key`, from entry `i` on.
pub open spec fn department_from(entries: Seq<(String, Department)>, key: Seq<char>, i: int) -> Option<(Seq<char>, Seq<char>)>
    decreases entries.len() - i,
{
    if i < 0 || i >= entries.len() {
        None
    } else if entries[i].0@ == key {
        Some(entries[i].1@)
    } else {
        department_from(entries, key, i + 1)
    }
}

/// Whether a location is stored under `key` in entries from `i` on.
pub open spec fn location_from(entries: Seq<(String, Location)>, key: Seq<char>, i: int) -> Option<Location>
    decreases entries.len() - i,
{
    if i < 0 || i >= entries.len() {
        None
    } else if entries[i].0@ == key {
        Some(entries[i].1)
    } else {
        location_from(entries, key, i + 1)
    }
}

/// Whether no key occurs twice among the entries.
pub open spec fn keys_unique<T>(entries: Seq<(String, T)>) -> bool {
    forall|i: int, j: int| 0 <= i < j < entries.len() ==> #[trigger] entries[i].0@ != #[trigger] entries[j].0@
}

/// The code system of department keys.
pub open spec fn department_system() -> Seq<char> {
    "http://fhir.de/CodeSystem/dkgev/Fachabteilungsschluessel-erweitert"@
}

impl ResourceMap {
    /// The department stored under `key`: its specialty key and name.
    pub open spec fn department_of(&self, key: Seq<char>) -> Option<(Seq<char>, Seq<char>)> {
        department_from(self.department_map@, key, 0)
    }

    /// The location stored under `key`.
    pub open spec fn location_of(&self, key: Seq<char>) -> Option<Location> {
        location_from(self.location_map@, key, 0)
    }

    /// The concept for the department under `code`, or the fault for an
    /// unknown key.
    pub open spec fn department_concept_of(&self, code: Seq<char>) -> Result<Seq<CodingView>, MappingErrorView> {
        match self.department_of(code) {
            Some((key, name)) => Ok(seq![CodingView { system: department_system(), code: key, display: Some(name) }]),
            None => Err(MappingErrorView::UnknownDepartment(code)),
        }
    }

    /// Whether each table holds each key at most once, as the JSON objects
    /// that the tables are read from do.
    pub open spec fn wf(&self) -> bool {
        keys_unique(self.department_map@) && keys_unique(self.location_map@)
    }

    /// Builds the tables from their entries, each key at most once per table.
    pub fn new(departments: Vec<(String, Department)>, locations: Vec<(String, Location)>) -> (r: ResourceMap)
        requires
            keys_unique(departments@),
            keys_unique(locations@),
        ensures
            r.department_map@ == departments@,
            r.location_map@ == locations@,
            r.wf(),
    {
        ResourceMap { department_map: departments, location_map: locations }
    }

    /// The department stored under `key`.
    pub fn department(&self, key: &str) -> (r: Option<&Department>)
        ensures
            match self.department_of(key@) {
                Some(d) => r is Some && r->Some_0@ == d,
                None => r is None,
            },
    {
        let mut i: usize = 0;
        while i < self.department_map.len()
            invariant
                i <= self.department_map@.len(),
                self.department_of(key@) == department_from(self.department_map@, key@, i as int),
            decreases self.department_map.len() - i,
        {
            if str_eq(self.department_map[i].0.as_str(), key) {
                return Some(&self.department_map[i].1);
            }
            i += 1;
        }
        None
    }

    /// The location stored under `key`.
    pub fn location(&self, key: &str) -> (r: Option<&Location>)
        ensures
            match self.location_of(key@) {
                Some(l) => r is Some && *r->Some_0 == l,
                None => r is None,
            },
    {
        let mut i: usize = 0;
        while i < self.location_map.len()
            invariant
                i <= self.location_map@.len(),
                self.location_of(key@) == location_from(self.location_map@, key@, i as int),
            decreases self.location_map.len() - i,
        {
            if str_eq(self.location_map[i].0.as_str(), key) {
                return Some(&self.location_map[i].1);
            }
            i += 1;
        }
        None
    }

    /// The specialty concept of the department under `code`; an unknown key
    /// is a fault.
    pub fn map_fab_schluessel(&self, code: &str) -> (r: Result<CodeableConcept, MappingError>)
        ensures
            agrees(r, self.department_concept_of(code@)),
    {
        match self.department(code) {
            None => Err(MappingError::UnknownDepartment(code.to_string())),
            Some(dep) => {
                let coding = Coding {
                    system: "http://fhir.de/CodeSystem/dkgev/Fachabteilungsschluessel-erweitert".to_string(),
                    code: dep.fachabteilungs_schluessel.clone(),
                    display: Some(dep.abteilungs_bezeichnung.clone()),
                };
                let r = CodeableConcept { coding: vec![coding] };
                assert(r@ =~= seq![coding@]);
                Ok(r)
            },
        }
    }
}

/// What the intensive-care flag of a location reads as: `1` yes, `0` or
/// empty no.
pub open spec fn intensive_flag_of(s: Seq<char>) -> Option<bool> {
    if s == "1"@ {
        Some(true)
    } else if s == ""@ || s == "0"@ {
        Some(false)
    } else {
        None
    }
}

/// Reads the intensive-care flag of a location: `1` yes, `0` or empty no;
/// anything else is not a flag.
pub fn parse_intensive_flag(s: &str) -> (r: Option<bool>)
    ensures
        r == intensive_flag_of(s@),
{
    if str_eq(s, "1") {
        Some(true)
    } else if str_eq(s, "") || str_eq(s, "0") {
        Some(false)
    } else {
        None
    }
}

proof fn lemma_department_from(entries: Seq<(String, Department)>, i: int, k: int)
    requires
        keys_unique(entries),
        0 <= i <= k < entries.len(),
    ensures
        department_from(entries, entries[k].0@, i) == Some(entries[k].1@),
    decreases k - i,
{
    if i < k {
        assert(entries[i].0@ != entries[k].0@);
        lemma_department_from(entries, i + 1, k);
    }
}

proof fn lemma_location_from(entries: Seq<(String, Location)>, i: int, k: int)
    requires
        keys_unique(entries),
        0 <= i <= k < entries.len(),
    ensures
        location_from(entries, entries[k].0@, i) == Some(entries[k].1),
    decreases k - i,
{
    if i < k {
        assert(entries[i].0@ != entries[k].0@);
        lemma_location_from(entries, i + 1, k);
    }
}

/// In well-formed tables, a lookup under the key of any entry finds that
/// entry: the tables behave as maps from key to entry.
pub proof fn lemma_lookup_finds_entry(map: ResourceMap)
    requires
        map.wf(),
    ensures
        forall|k: int| 0 <= k < map.department_map@.len() ==> #[trigger] map.department_of(map.department_map@[k].0@)
            == Some(map.department_map@[k].1@),
        forall|k: int| 0 <= k < map.location_map@.len() ==> #[trigger] map.location_of(map.location_map@[k].0@)
            == Some(map.location_map@[k].1),
{
    assert forall|k: int| 0 <= k < map.department_map@.len() implies #[trigger] map.department_of(map.department_map@[k].0@)
        == Some(map.department_map@[k].1@) by {
        lemma_department_from(map.department_map@, 0, k);
    }
    assert forall|k: int| 0 <= k < map.location_map@.len() implies #[trigger] map.location_of(map.location_map@[k].0@)
        == Some(map.location_map@[k].1) by {
        lemma_location_from(map.location_map@, 0, k);
    }
}

} // verus!
