//! The Patient-only engine: one HL7 message in, a bundle with a Patient that
//! holds only its profile and routing identifier out, whatever the event
//! type.
use vstd::prelude::*;
use crate::bundle::{resource_entry, resource_entry_of, RequestKind};
use crate::config::Fhir;
use crate::error::{agrees, MappingError, MappingErrorView};
use crate::hl7::{has_segment, hl7_segments_of, AccessErrorView, Hl7Message, MessageAccessError, SegmentView};
use crate::model::{
    Address, Bundle, BundleEntry, BundleType, EntryView, HumanName, Identifier, IdentifierUse, Patient,
    PatientView, Resource, ResourceType, ResourceView,
};
use crate::patient::{missing_field, missing_segment, patient_identifier_of, pid};

verus! {

/// The Patient that the Patient-only engine builds: the profile and the
/// routing identifier from `PID.2`, nothing else.
pub open spec fn basic_patient_of(m: Seq<SegmentView>, config: Fhir) -> Result<PatientView, MappingErrorView> {
    if !has_segment(m, "PID"@) {
        Err(missing_segment("PID"@))
    } else {
        match pid(m, 2) {
            None => Err(missing_field("2"@, "PID"@)),
            Some(id) => Ok(PatientView {
                profile: config.person.profile@,
                identifier: seq![patient_identifier_of(config.person.system@, id)],
                name: Seq::empty(),
                birth_date: None,
                gender: None,
                address: Seq::empty(),
                marital_status: None,
                deceased: None,
                multiple_birth: None,
            }),
        }
    }
}

/// The entries that the Patient-only engine gives for a parsed message: one
/// entry that writes the Patient with an update that creates.
pub open spec fn patient_bundle_of_segments(m: Seq<SegmentView>, config: Fhir) -> Result<Seq<EntryView>, MappingErrorView> {
    match basic_patient_of(m, config) {
        Err(e) => Err(e),
        Ok(p) => match resource_entry_of(RequestKind::UpdateAsCreate, ResourceType::Patient, ResourceView::Patient(p)) {
            Err(e) => Err(e),
            Ok(entry) => Ok(seq![entry]),
        },
    }
}

/// What the Patient-only engine gives for the text of a message: a bundle
/// whose one entry writes the Patient with an update that creates.
pub open spec fn patient_bundle_of(text: Seq<char>, config: Fhir) -> Result<(BundleType, Seq<EntryView>), MappingErrorView> {
    match hl7_segments_of(text) {
        None => Err(MappingErrorView::MessageAccessError(AccessErrorView::ParseError)),
        Some(m) => match patient_bundle_of_segments(m, config) {
            Err(e) => Err(e),
            Ok(entries) => Ok((BundleType::Transaction, entries)),
        },
    }
}

/// The Patient-only engine.
#[derive(Clone)]
pub struct Mapper {
    pub config: Fhir,
}

impl Mapper {
    /// Builds the engine from its settings.
    pub fn new(config: Fhir) -> (r: Mapper)
        ensures
            r.config == config,
    {
        Mapper { config }
    }

    /// Maps the text of one HL7 message onto a bundle with its Patient.
    pub fn map(&self, msg: &str) -> (r: Result<Option<Bundle>, MappingError>)
        ensures
            match patient_bundle_of(msg@, self.config) {
                Ok(b) => r is Ok && r->Ok_0 is Some && r->Ok_0->Some_0@ == b,
                Err(e) => r is Err && r->Err_0@ == e,
            },
    {
        let v2_msg = match Hl7Message::parse(msg) {
            Ok(m) => m,
            Err(e) => {
                return Err(MappingError::MessageAccessError(e));
            },
        };
        let entry_list = self.map_resources(&v2_msg)?;
        Ok(Some(Bundle { bundle_type: BundleType::Transaction, entry: entry_list }))
    }

    /// Builds the Patient of a parsed message with its profile and its
    /// routing identifier from `PID.2`.
    pub fn map_patient(&self, v2_msg: &Hl7Message) -> (r: Result<Patient, MappingError>)
        ensures
            agrees(r, basic_patient_of(v2_msg@, self.config)),
    {
        if !v2_msg.has_segment("PID") {
            return Err(MappingError::MessageAccessError(MessageAccessError::MissingMessageSegment("PID".to_string())));
        }
        let id = match v2_msg.optional_field("PID", 2) {
            None => {
                return Err(MappingError::MessageAccessError(MessageAccessError::MissingMessageField("2".to_string(), "PID".to_string())));
            },
            Some(id) => id,
        };
        let identifier = Identifier {
            use_: IdentifierUse::Usual,
            system: self.config.person.system.clone(),
            value: id,
            type_: None,
        };
        let identifiers = vec![identifier];
        assert(identifiers@.map_values(|i: Identifier| i@) =~= seq![identifier@]);
        let name: Vec<HumanName> = Vec::new();
        let address: Vec<Address> = Vec::new();
        let p = Patient {
            profile: self.config.person.profile.clone(),
            identifier: identifiers,
            name,
            birth_date: None,
            gender: None,
            address,
            marital_status: None,
            deceased: None,
            multiple_birth: None,
        };
        assert(p@.name =~= Seq::empty());
        assert(p@.address =~= Seq::empty());
        Ok(p)
    }

    /// The one entry of a parsed message: its Patient, written with an
    /// update that creates.
    pub fn map_resources(&self, v2_msg: &Hl7Message) -> (r: Result<Vec<BundleEntry>, MappingError>)
        ensures
            match patient_bundle_of_segments(v2_msg@, self.config) {
                Ok(entries) => r is Ok && r->Ok_0@.map_values(|e: BundleEntry| e@) == entries,
                Err(e) => r is Err && r->Err_0@ == e,
            },
    {
        let p = self.map_patient(v2_msg)?;
        let entry = resource_entry(RequestKind::UpdateAsCreate, ResourceType::Patient, Resource::Patient(p))?;
        let entry_list = vec![entry];
        assert(entry_list@.map_values(|e: BundleEntry| e@) =~= seq![entry@]);
        Ok(entry_list)
    }
}

} // verus!
