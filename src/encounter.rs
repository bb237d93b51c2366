//! The Encounter mapper: the institution-level encounter
//! (Einrichtungskontakt) of a visit, from `PV1`, `PID` and the event type.
use vstd::prelude::*;
use crate::bundle::{conditional_url_of, resource_entry, resource_entry_of, resource_ref, RequestKind};
use crate::codes::{
    admit_source_concept_of, class_coding_of, kontaktart_coding_of, map_admit_source,
    map_encounter_class, map_kontaktart,
};
use crate::config::Fhir;
use crate::datetime::{datetime_of, parse_datetime, FhirDateTime};
use crate::error::{agrees, agrees_opt, agrees_vec, from_access, from_formatting, MappingError, MappingErrorView};
use crate::hl7::{comp_at, component_at, components, field_in, has_segment, hl7_components_of, Hl7Message, MessageAccessError, SegmentView};
use crate::message_type::MessageType;
use crate::model::{
    BundleEntry, CodeableConcept, Coding, CodingView, Encounter, EncounterStatus, EncounterView,
    EntryView, Identifier, IdentifierUse, IdentifierView, Period, Resource, ResourceType,
    ResourceView, };
use crate::patient::{missing_field, missing_segment, parse_fault, pid};
use crate::resources::ResourceMap;
use crate::text::{opt_view, str_eq};

verus! {

/// Field `i` of `PV1`.
pub open spec fn pv1(m: Seq<SegmentView>, i: int) -> Option<Seq<char>> {
    field_in(m, "PV1"@, i)
}

/// The visit number: `PID.4` for a pending admit, else `PV1.19`.
pub open spec fn visit_number_of(m: Seq<SegmentView>, t: MessageType) -> Result<Seq<char>, MappingErrorView> {
    if t == MessageType::PendingAdmit {
        match pid(m, 4) {
            None => Err(missing_field("4"@, "PID"@)),
            Some(v) => Ok(v),
        }
    } else {
        match pv1(m, 19) {
            None => Err(missing_field("19"@, "PV1"@)),
            Some(v) => Ok(v),
        }
    }
}

/// The period of the visit: admission `PV1.44` (required) to discharge
/// `PV1.45`; a registration without a discharge ends when it starts. A
/// discharge before the admission is a fault.
pub open spec fn period_of(m: Seq<SegmentView>, t: MessageType) -> Result<((Seq<char>, int), Option<(Seq<char>, int)>), MappingErrorView> {
    if !has_segment(m, "PV1"@) {
        Err(missing_segment("PV1"@))
    } else {
    match pv1(m, 44) {
        None => Err(missing_field("44"@, "PV1"@)),
        Some(s) => match datetime_of(s) {
            Err(e) => Err(MappingErrorView::FormattingError(e)),
            Ok(start) => match pv1(m, 45) {
                Some(x) => match datetime_of(x) {
                    Err(e) => Err(MappingErrorView::FormattingError(e)),
                    Ok(end) => if end.1 < start.1 {
                        Err(MappingErrorView::MessageContentUnexpected("PV1.45"@, "not before PV1.44"@))
                    } else {
                        Ok((start, Some(end)))
                    },
                },
                None => if t == MessageType::Registration {
                    Ok((start, Some(start)))
                } else {
                    Ok((start, None))
                },
            },
        },
    }
    }
}

/// The status of an encounter with this period at the instant `now`:
/// finished once it has an end, in progress once it has started, planned
/// before.
pub open spec fn status_of(period: ((Seq<char>, int), Option<(Seq<char>, int)>), now: int) -> EncounterStatus {
    if period.1 is Some {
        EncounterStatus::Finished
    } else if period.0.1 < now {
        EncounterStatus::InProgress
    } else {
        EncounterStatus::Planned
    }
}

/// The department code of the components of `PV1.3`: the facility (4) where
/// it stands with the point of care (1); else the point of care alone; else
/// the location status (5) where only the facility stands beside it.
pub open spec fn department_code_of(cs: Seq<Seq<char>>) -> Option<Seq<char>> {
    let f = comp_at(cs, 4);
    let l = comp_at(cs, 1);
    let s = comp_at(cs, 5);
    if f is Some && l is Some {
        f
    } else if l is Some {
        l
    } else if f is Some && s is Some {
        s
    } else {
        None
    }
}

/// The department code of `PV1.3`, if any.
pub open spec fn department_of(m: Seq<SegmentView>) -> Result<Option<Seq<char>>, MappingErrorView> {
    match pv1(m, 3) {
        None => Ok(None),
        Some(f) => match hl7_components_of(f) {
            None => Err(parse_fault()),
            Some(cs) => Ok(department_code_of(cs)),
        },
    }
}

/// The admission reason of `PV1.4.1`, if the field is present.
pub open spec fn admission_of(m: Seq<SegmentView>) -> Result<Option<Seq<CodingView>>, MappingErrorView> {
    match pv1(m, 4) {
        None => Ok(None),
        Some(f) => match hl7_components_of(f) {
            None => Err(parse_fault()),
            Some(cs) => match comp_at(cs, 1) {
                None => Ok(None),
                Some(c) => match admit_source_concept_of(c) {
                    Ok(v) => Ok(Some(v)),
                    Err(e) => Err(e),
                },
            },
        },
    }
}

/// The system of department identifiers.
pub open spec fn department_id_system() -> Seq<char> {
    "https://fhir.diz.uni-marburg.de/sid/department"@
}

/// The coding of the contact level of an institution-level encounter.
pub open spec fn kontaktebene_coding() -> CodingView {
    CodingView {
        system: "http://fhir.de/CodeSystem/Kontaktebene"@,
        code: "einrichtungskontakt"@,
        display: Some("Einrichtungskontakt"@),
    }
}

/// The type of the encounter: its contact level, and its contact kind where
/// `PV1.2` has one.
pub open spec fn encounter_type_of(code: Seq<char>) -> Seq<CodingView> {
    match kontaktart_coding_of(code) {
        Some(c) => seq![kontaktebene_coding(), c],
        None => seq![kontaktebene_coding()],
    }
}

/// The identifiers of the encounter: the routing one (`usual`) under the
/// system of institution-level contacts, then the visit number under the
/// encounter system.
pub open spec fn encounter_identifiers_of(config: Fhir, vn: Seq<char>) -> Seq<IdentifierView> {
    seq![
        IdentifierView {
            use_: IdentifierUse::Usual,
            system: config.fall.einrichtungskontakt.system@,
            value: vn,
            type_: None,
        },
        IdentifierView {
            use_: IdentifierUse::Official,
            system: config.fall.system@,
            value: vn,
            type_: Some(seq![CodingView { system: "http://terminology.hl7.org/CodeSystem/v2-0203"@, code: "VN"@, display: None }]),
        },
    ]
}

/// The service type of the department, if there is one.
pub open spec fn service_type_of(resources: ResourceMap, dep: Option<Seq<char>>) -> Result<Option<Seq<CodingView>>, MappingErrorView> {
    match dep {
        None => Ok(None),
        Some(d) => match resources.department_concept_of(d) {
            Ok(c) => Ok(Some(c)),
            Err(e) => Err(e),
        },
    }
}

/// The institution-level encounter that a message of type `t` describes,
/// with its status as of the instant `now` (seconds since the Unix epoch).
pub open spec fn encounter_of(m: Seq<SegmentView>, t: MessageType, config: Fhir, resources: ResourceMap, now: int) -> Result<EncounterView, MappingErrorView> {
    if !has_segment(m, "PV1"@) {
        Err(missing_segment("PV1"@))
    } else if !has_segment(m, "PID"@) {
        Err(missing_segment("PID"@))
    } else {
        match pv1(m, 2) {
            None => Err(missing_field("2"@, "PV1"@)),
            Some(code) => match class_coding_of(code) {
                Err(e) => Err(e),
                Ok(class) => match visit_number_of(m, t) {
                    Err(e) => Err(e),
                    Ok(vn) => match pid(m, 2) {
                        None => Err(missing_field("2"@, "PID"@)),
                        Some(patient_id) => match period_of(m, t) {
                            Err(e) => Err(e),
                            Ok(period) => match department_of(m) {
                                Err(e) => Err(e),
                                Ok(dep) => match service_type_of(resources, dep) {
                                    Err(e) => Err(e),
                                    Ok(service_type) => match admission_of(m) {
                                        Err(e) => Err(e),
                                        Ok(admit_source) => Ok(EncounterView {
                                            profile: config.fall.profile@,
                                            source: "#orbis"@,
                                            identifier: encounter_identifiers_of(config, vn),
                                            status: status_of(period, now),
                                            class,
                                            type_: encounter_type_of(code),
                                            subject: conditional_url_of(ResourceType::Patient, config.person.system@, patient_id),
                                            service_type,
                                            service_provider: match dep {
                                                Some(d) => Some(conditional_url_of(ResourceType::Organization, department_id_system(), d)),
                                                None => None,
                                            },
                                            admit_source,
                                            period,
                                        }),
                                    },
                                },
                            },
                        },
                    },
                },
            },
        }
    }
}

/// Whether the event type yields an institution-level encounter: admit,
/// transfer, discharge, registration and pre-admit.
pub open spec fn encounter_wanted(t: MessageType) -> bool {
    t == MessageType::Admit || t == MessageType::Transfer || t == MessageType::Discharge
        || t == MessageType::Registration || t == MessageType::PreAdmit
}

/// Whether the visit is that of an accompanying person (`PV1.2 = H`).
pub open spec fn is_companion(m: Seq<SegmentView>) -> bool {
    pv1(m, 2) == Some("H"@)
}

/// The entries that the Encounter mapper produces for a message of type `t`.
pub open spec fn encounter_entries_of(m: Seq<SegmentView>, t: MessageType, config: Fhir, resources: ResourceMap, now: int) -> Result<Seq<EntryView>, MappingErrorView> {
    if !encounter_wanted(t) || is_companion(m) {
        Ok(Seq::empty())
    } else {
        match encounter_of(m, t, config, resources, now) {
            Err(e) => Err(e),
            Ok(e) => match resource_entry_of(RequestKind::UpdateAsCreate, ResourceType::Encounter, ResourceView::Encounter(e)) {
                Err(e) => Err(e),
                Ok(entry) => Ok(seq![entry]),
            },
        }
    }
}

fn map_visit_number(msg: &Hl7Message, t: MessageType) -> (r: Result<String, MappingError>)
    ensures
        agrees(r, visit_number_of(msg@, t)),
{
    if t == MessageType::PendingAdmit {
        match msg.optional_field("PID", 4) {
            None => Err(MappingError::MessageAccessError(MessageAccessError::MissingMessageField("4".to_string(), "PID".to_string()))),
            Some(v) => Ok(v),
        }
    } else {
        match msg.optional_field("PV1", 19) {
            None => Err(MappingError::MessageAccessError(MessageAccessError::MissingMessageField("19".to_string(), "PV1".to_string()))),
            Some(v) => Ok(v),
        }
    }
}

/// Builds the period of the visit from `PV1.44` and `PV1.45`.
pub fn map_period(msg: &Hl7Message, t: MessageType) -> (r: Result<Period, MappingError>)
    ensures
        agrees(r, period_of(msg@, t)),
{
    if !msg.has_segment("PV1") {
        return Err(MappingError::MessageAccessError(MessageAccessError::MissingMessageSegment("PV1".to_string())));
    }
    let start = match msg.optional_field("PV1", 44) {
        None => {
            return Err(MappingError::MessageAccessError(MessageAccessError::MissingMessageField("44".to_string(), "PV1".to_string())));
        },
        Some(s) => from_formatting(parse_datetime(s.as_str()))?,
    };
    match msg.optional_field("PV1", 45) {
        Some(x) => {
            let end = from_formatting(parse_datetime(x.as_str()))?;
            if end.timestamp < start.timestamp {
                Err(MappingError::MessageContentUnexpected("PV1.45".to_string(), "not before PV1.44".to_string()))
            } else {
                Ok(Period { start, end: Some(end) })
            }
        },
        None => if t == MessageType::Registration {
            let end = FhirDateTime { text: start.text.clone(), timestamp: start.timestamp };
            Ok(Period { start, end: Some(end) })
        } else {
            Ok(Period { start, end: None })
        },
    }
}

/// The status of an encounter with period `period` at the instant `now`.
pub fn map_encounter_status(period: &Period, now: i64) -> (r: EncounterStatus)
    ensures
        r == status_of(period@, now as int),
{
    if period.end.is_some() {
        EncounterStatus::Finished
    } else if period.start.timestamp < now {
        EncounterStatus::InProgress
    } else {
        EncounterStatus::Planned
    }
}

/// Picks the department code from the components of `PV1.3`.
pub fn select_department(cs: &Vec<String>) -> (r: Option<String>)
    ensures
        opt_view(r) == department_code_of(cs@.map_values(|s: String| s@)),
{
    let f = component_at(cs, 4);
    let l = component_at(cs, 1);
    let s = component_at(cs, 5);
    if f.is_some() && l.is_some() {
        f
    } else if l.is_some() {
        l
    } else if f.is_some() && s.is_some() {
        s
    } else {
        None
    }
}

fn map_department(msg: &Hl7Message) -> (r: Result<Option<String>, MappingError>)
    ensures
        agrees_opt(r, department_of(msg@)),
{
    match msg.optional_field("PV1", 3) {
        None => Ok(None),
        Some(f) => {
            let cs = from_access(components(f.as_str()))?;
            Ok(select_department(&cs))
        },
    }
}

fn map_admission(msg: &Hl7Message) -> (r: Result<Option<CodeableConcept>, MappingError>)
    ensures
        agrees_opt(r, admission_of(msg@)),
{
    match msg.optional_field("PV1", 4) {
        None => Ok(None),
        Some(f) => {
            let cs = from_access(components(f.as_str()))?;
            match component_at(&cs, 1) {
                None => Ok(None),
                Some(c) => Ok(Some(map_admit_source(c.as_str())?)),
            }
        },
    }
}

fn map_encounter_type(code: &str) -> (r: CodeableConcept)
    ensures
        r@ == encounter_type_of(code@),
{
    let ebene = Coding {
        system: "http://fhir.de/CodeSystem/Kontaktebene".to_string(),
        code: "einrichtungskontakt".to_string(),
        display: Some("Einrichtungskontakt".to_string()),
    };
    let mut coding = vec![ebene];
    assert(coding@.map_values(|c: Coding| c@) =~= seq![kontaktebene_coding()]);
    match map_kontaktart(code) {
        Some(c) => {
            let ghost before = coding@;
            coding.push(c);
            assert(coding@.map_values(|c: Coding| c@) =~= before.map_values(|c: Coding| c@).push(c@));
        },
        None => {},
    }
    CodeableConcept { coding }
}

fn encounter_identifiers(config: &Fhir, vn: &String) -> (r: Vec<Identifier>)
    ensures
        r@.map_values(|i: Identifier| i@) == encounter_identifiers_of(*config, vn@),
{
    let vn_coding = Coding {
        system: "http://terminology.hl7.org/CodeSystem/v2-0203".to_string(),
        code: "VN".to_string(),
        display: None,
    };
    let vn_type = CodeableConcept { coding: vec![vn_coding] };
    assert(vn_type@ =~= seq![vn_coding@]);
    let routing = Identifier {
        use_: IdentifierUse::Usual,
        system: config.fall.einrichtungskontakt.system.clone(),
        value: vn.clone(),
        type_: None,
    };
    let visit = Identifier {
        use_: IdentifierUse::Official,
        system: config.fall.system.clone(),
        value: vn.clone(),
        type_: Some(vn_type),
    };
    let r = vec![routing, visit];
    assert(r@.map_values(|i: Identifier| i@) =~= encounter_identifiers_of(*config, vn@));
    r
}

/// Builds the institution-level encounter of a message of type `t`, with its
/// status as of `now` (seconds since the Unix epoch).
pub fn map_einrichtungskontakt(msg: &Hl7Message, t: MessageType, config: &Fhir, resources: &ResourceMap, now: i64) -> (r: Result<Encounter, MappingError>)
    ensures
        agrees(r, encounter_of(msg@, t, *config, *resources, now as int)),
{
    if !msg.has_segment("PV1") {
        return Err(MappingError::MessageAccessError(MessageAccessError::MissingMessageSegment("PV1".to_string())));
    }
    if !msg.has_segment("PID") {
        return Err(MappingError::MessageAccessError(MessageAccessError::MissingMessageSegment("PID".to_string())));
    }
    let code = match msg.optional_field("PV1", 2) {
        None => {
            return Err(MappingError::MessageAccessError(MessageAccessError::MissingMessageField("2".to_string(), "PV1".to_string())));
        },
        Some(code) => code,
    };
    let class = map_encounter_class(code.as_str())?;
    let vn = map_visit_number(msg, t)?;
    let patient_id = match msg.optional_field("PID", 2) {
        None => {
            return Err(MappingError::MessageAccessError(MessageAccessError::MissingMessageField("2".to_string(), "PID".to_string())));
        },
        Some(id) => id,
    };
    let period = map_period(msg, t)?;
    let dep = map_department(msg)?;
    let (service_type, service_provider) = match &dep {
        None => (None, None),
        Some(d) => {
            let st = resources.map_fab_schluessel(d.as_str())?;
            let sp = resource_ref(ResourceType::Organization, "https://fhir.diz.uni-marburg.de/sid/department", d.as_str());
            (Some(st), Some(sp))
        },
    };
    let admit_source = map_admission(msg)?;
    let status = map_encounter_status(&period, now);
    Ok(Encounter {
        profile: config.fall.profile.clone(),
        source: "#orbis".to_string(),
        identifier: encounter_identifiers(config, &vn),
        status,
        class,
        type_: map_encounter_type(code.as_str()),
        subject: resource_ref(ResourceType::Patient, config.person.system.as_str(), patient_id.as_str()),
        service_type,
        service_provider,
        admit_source,
        period,
    })
}

/// The Encounter entries for a message of type `t`.
pub fn map_encounter(msg: &Hl7Message, t: MessageType, config: &Fhir, resources: &ResourceMap, now: i64) -> (r: Result<Vec<BundleEntry>, MappingError>)
    ensures
        agrees_vec(r, encounter_entries_of(msg@, t, *config, *resources, now as int)),
{
    let wanted = t == MessageType::Admit || t == MessageType::Transfer || t == MessageType::Discharge
        || t == MessageType::Registration || t == MessageType::PreAdmit;
    let companion = match msg.field("PV1", 2) {
        Ok(Some(code)) => str_eq(code.as_str(), "H"),
        _ => false,
    };
    proof {
        reveal_strlit("H");
    }
    if !wanted || companion {
        let v: Vec<BundleEntry> = Vec::new();
        assert(v@.map_values(|e: BundleEntry| e@) =~= Seq::empty());
        return Ok(v);
    }
    let e = map_einrichtungskontakt(msg, t, config, resources, now)?;
    let entry = resource_entry(RequestKind::UpdateAsCreate, ResourceType::Encounter, Resource::Encounter(e))?;
    let v = vec![entry];
    assert(v@.map_values(|e: BundleEntry| e@) =~= seq![entry@]);
    Ok(v)
}

} // verus!
