//! The engine: one HL7 message in, a transaction bundle of its Patient and
//! Encounter entries out, or nothing where the event yields no entry.
use vstd::prelude::*;
use crate::bundle::{assemble_bundle, bundle_of};
use crate::config::Fhir;
use crate::encounter::{encounter_entries_of, map_encounter};
use crate::error::{agrees_vec, MappingError, MappingErrorView};
use crate::hl7::{hl7_segments_of, AccessErrorView, Hl7Message, MessageAccessError, SegmentView};
use crate::message_type::{event_of, message_type};
use crate::model::{Bundle, BundleEntry, BundleType, EntryView};
use crate::patient::{map_patient, patient_entries_of};
use crate::resources::ResourceMap;

verus! {

/// The entries of a parsed message: the Patient entries, then the
/// Encounter entries.
pub open spec fn entries_of(m: Seq<SegmentView>, config: Fhir, resources: ResourceMap, now: int) -> Result<Seq<EntryView>, MappingErrorView> {
    match event_of(m) {
        Err(e) => Err(MappingErrorView::MessageAccessError(AccessErrorView::MessageTypeError(e))),
        Ok(t) => match patient_entries_of(m, t, config) {
            Err(e) => Err(e),
            Ok(p) => match encounter_entries_of(m, t, config, resources, now) {
                Err(e) => Err(e),
                Ok(e) => Ok(p + e),
            },
        },
    }
}

/// What mapping the text of a message gives: a transaction bundle of its
/// entries, nothing where there are none, or the fault.
pub open spec fn mapping_of(text: Seq<char>, config: Fhir, resources: ResourceMap, now: int) -> Result<Option<(BundleType, Seq<EntryView>)>, MappingErrorView> {
    match hl7_segments_of(text) {
        None => Err(MappingErrorView::MessageAccessError(AccessErrorView::ParseError)),
        Some(m) => match entries_of(m, config, resources, now) {
            Err(e) => Err(e),
            Ok(entries) => Ok(bundle_of(entries)),
        },
    }
}

/// The mapping engine: its settings and lookup tables, fixed once built.
#[derive(Clone)]
pub struct FhirMapper {
    pub config: Fhir,
    pub resources: ResourceMap,
}

impl FhirMapper {
    /// Builds the engine from its settings and lookup tables.
    pub fn new(config: Fhir, resources: ResourceMap) -> (r: FhirMapper)
        ensures
            r.config == config,
            r.resources == resources,
    {
        FhirMapper { config, resources }
    }

    /// Maps the text of one HL7 message onto a transaction bundle; `None`
    /// where the event yields no entry. `now` (seconds since the Unix epoch)
    /// decides whether an open encounter is planned or in progress.
    pub fn map(&self, msg: &str, now: i64) -> (r: Result<Option<Bundle>, MappingError>)
        ensures
            match mapping_of(msg@, self.config, self.resources, now as int) {
                Ok(Some(b)) => r is Ok && r->Ok_0 is Some && r->Ok_0->Some_0@ == b,
                Ok(None) => r is Ok && r->Ok_0 is None,
                Err(e) => r is Err && r->Err_0@ == e,
            },
    {
        let v2_msg = match Hl7Message::parse(msg) {
            Ok(m) => m,
            Err(e) => {
                return Err(MappingError::MessageAccessError(e));
            },
        };
        let entries = self.map_resources(&v2_msg, now)?;
        Ok(assemble_bundle(entries))
    }

    /// The entries of a parsed message: Patient entries first.
    pub fn map_resources(&self, v2_msg: &Hl7Message, now: i64) -> (r: Result<Vec<BundleEntry>, MappingError>)
        ensures
            agrees_vec(r, entries_of(v2_msg@, self.config, self.resources, now as int)),
    {
        let t = match message_type(v2_msg) {
            Ok(t) => t,
            Err(e) => {
                return Err(MappingError::MessageAccessError(MessageAccessError::MessageTypeError(e)));
            },
        };
        let mut p = map_patient(v2_msg, t, &self.config)?;
        let mut e = map_encounter(v2_msg, t, &self.config, &self.resources, now)?;
        let ghost pv = p@;
        let ghost ev = e@;
        p.append(&mut e);
        assert(p@ =~= pv + ev);
        assert(p@.map_values(|x: BundleEntry| x@) =~= pv.map_values(|x: BundleEntry| x@) + ev.map_values(|x: BundleEntry| x@));
        Ok(p)
    }
}

} // verus!
