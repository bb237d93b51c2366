//! What holds of every mapping: the shape of identifiers, requests, periods
//! and references, and the table of entries per event type.
use vstd::prelude::*;
use crate::bundle::{
    conditional_url_of, if_none_exist_of, request_of, usual_count, usual_identifier_of, RequestKind,
};
use crate::config::Fhir;
use crate::encounter::{
    encounter_entries_of, encounter_identifiers_of, encounter_of, encounter_wanted, is_companion,
    };
use crate::error::MappingErrorView;
use crate::hl7::{field_in, hl7_segments_of, SegmentView};
use crate::mapper::{entries_of, mapping_of};
use crate::message_type::{event_of, MessageType};
use crate::model::{
    BundleType, EntryView, HttpVerb, IdentifierUse, IdentifierView, RequestView, ResourceType,
    ResourceView, resource_type_name,
};
use crate::patient::{
    patient_entries_of, patient_of, patient_plan_of,
    PatientPlan,
};
use crate::resources::ResourceMap;

verus! {

/// Whether a request finds its target by an identifier search: the URL
/// `T?identifier=sys|val`, or the bare type name with `ifNoneExist` set.
pub open spec fn request_is_conditional(r: RequestView) -> bool {
    exists|t: ResourceType, s: Seq<char>, v: Seq<char>|
        r.url == #[trigger] conditional_url_of(t, s, v) || (r.url == resource_type_name(t)
            && r.if_none_exist == Some(#[trigger] if_none_exist_of(s, v)))
}

/// Whether a Patient or an Encounter has exactly one identifier with use
/// `usual`.
pub open spec fn has_one_usual(r: ResourceView) -> bool {
    match r {
        ResourceView::Patient(p) => usual_count(p.identifier) == 1,
        ResourceView::Encounter(e) => usual_count(e.identifier) == 1,
        ResourceView::Parameters(_) => true,
    }
}

/// Whether an Encounter's period does not end before it starts.
pub open spec fn period_ordered(r: ResourceView) -> bool {
    match r {
        ResourceView::Encounter(e) => match e.period.1 {
            Some(end) => e.period.0.1 <= end.1,
            None => true,
        },
        _ => true,
    }
}

/// Whether an Encounter refers to its patient under the person system.
pub open spec fn subject_uses_system(r: ResourceView, system: Seq<char>) -> bool {
    match r {
        ResourceView::Encounter(e) => exists|v: Seq<char>| e.subject == #[trigger] conditional_url_of(ResourceType::Patient, system, v),
        _ => true,
    }
}

/// All of the above, of one entry.
pub open spec fn entry_sound(e: EntryView, config: Fhir) -> bool {
    request_is_conditional(e.request) && has_one_usual(e.resource) && period_ordered(e.resource)
        && subject_uses_system(e.resource, config.person.system@)
}

proof fn lemma_request_is_conditional(kind: RequestKind, t: ResourceType, s: Seq<char>, v: Seq<char>)
    ensures
        request_is_conditional(request_of(kind, t, s, v)),
{
    let r = request_of(kind, t, s, v);
    match kind {
        RequestKind::ConditionalCreate => {
            assert(r.url == resource_type_name(t) && r.if_none_exist == Some(if_none_exist_of(s, v)));
        },
        _ => {
            assert(r.url == conditional_url_of(t, s, v));
        },
    }
}

proof fn lemma_usual_count_patient(id: IdentifierView)
    requires
        id.use_ == IdentifierUse::Usual,
    ensures
        usual_count(seq![id]) == 1,
        usual_identifier_of(seq![id]) == Some(id),
{
    assert(seq![id].drop_last() =~= Seq::<IdentifierView>::empty());
    assert(usual_count(Seq::<IdentifierView>::empty()) == 0);
    assert(usual_count(seq![id]) == usual_count(seq![id].drop_last()) + 1);
}

proof fn lemma_usual_count_encounter(config: Fhir, vn: Seq<char>)
    ensures
        usual_count(encounter_identifiers_of(config, vn)) == 1,
        usual_identifier_of(encounter_identifiers_of(config, vn)) == Some(encounter_identifiers_of(config, vn)[0]),
{
    let ids = encounter_identifiers_of(config, vn);
    assert(ids.drop_last() =~= seq![ids[0]]);
    lemma_usual_count_patient(ids[0]);
    assert(usual_count(ids) == usual_count(ids.drop_last()) + 0);
}

proof fn lemma_patient_entries_sound(m: Seq<SegmentView>, t: MessageType, config: Fhir)
    ensures
        patient_entries_of(m, t, config) matches Ok(es) ==> forall|i: int| 0 <= i < es.len() ==> entry_sound(#[trigger] es[i], config),
{
    match patient_plan_of(t) {
        PatientPlan::Store(kind) => {
            if let Ok(p) = patient_of(m, config) {
                let id = p.identifier[0];
                assert(p.identifier == seq![id]);
                lemma_usual_count_patient(id);
                lemma_request_is_conditional(kind, ResourceType::Patient, id.system, id.value);
            }
        },
        PatientPlan::Merge => {
            if let Some(prior) = field_in(m, "MRG"@, 1) {
                lemma_request_is_conditional(RequestKind::Patch, ResourceType::Patient, config.person.system@, prior);
            }
        },
        _ => {},
    }
}

proof fn lemma_encounter_entries_sound(m: Seq<SegmentView>, t: MessageType, config: Fhir, resources: ResourceMap, now: int)
    ensures
        encounter_entries_of(m, t, config, resources, now) matches Ok(es) ==> forall|i: int| 0 <= i < es.len() ==> entry_sound(#[trigger] es[i], config),
{
    if encounter_wanted(t) && !is_companion(m) {
        if let Ok(e) = encounter_of(m, t, config, resources, now) {
            let vn = e.identifier[0].value;
            assert(e.identifier == encounter_identifiers_of(config, vn));
            lemma_usual_count_encounter(config, vn);
            let id = e.identifier[0];
            lemma_request_is_conditional(RequestKind::UpdateAsCreate, ResourceType::Encounter, id.system, id.value);
            assert(period_ordered(ResourceView::Encounter(e)));
            if let Some(patient_id) = crate::patient::pid(m, 2) {
                assert(e.subject == conditional_url_of(ResourceType::Patient, config.person.system@, patient_id));
            }
        }
    }
}

proof fn lemma_entries_sound(m: Seq<SegmentView>, config: Fhir, resources: ResourceMap, now: int)
    ensures
        entries_of(m, config, resources, now) matches Ok(es) ==> forall|i: int| 0 <= i < es.len() ==> entry_sound(#[trigger] es[i], config),
{
    if let Ok(t) = event_of(m) {
        lemma_patient_entries_sound(m, t, config);
        lemma_encounter_entries_sound(m, t, config, resources, now);
        if let Ok(p) = patient_entries_of(m, t, config) {
            if let Ok(e) = encounter_entries_of(m, t, config, resources, now) {
                assert forall|i: int| 0 <= i < (p + e).len() implies entry_sound(#[trigger] (p + e)[i], config) by {
                    if i < p.len() {
                        assert((p + e)[i] == p[i]);
                    } else {
                        assert((p + e)[i] == e[i - p.len()]);
                    }
                }
            }
        }
    }
}

proof fn lemma_mapping_sound(text: Seq<char>, config: Fhir, resources: ResourceMap, now: int)
    ensures
        mapping_of(text, config, resources, now) matches Ok(Some(b)) ==> forall|i: int| 0 <= i < b.1.len() ==> entry_sound(#[trigger] b.1[i], config),
{
    if let Some(m) = hl7_segments_of(text) {
        lemma_entries_sound(m, config, resources, now);
    }
}

/// Every Patient and every Encounter in a bundle that the engine produces
/// has exactly one identifier with use `usual`.
pub proof fn lemma_one_usual_identifier(text: Seq<char>, config: Fhir, resources: ResourceMap, now: int)
    ensures
        mapping_of(text, config, resources, now) matches Ok(Some(b)) ==> forall|i: int| 0 <= i < b.1.len() ==> has_one_usual(#[trigger] b.1[i].resource),
{
    lemma_mapping_sound(text, config, resources, now);
}

/// Every request in a bundle that the engine produces finds its target by
/// an identifier search: `T?identifier=sys|val`, or the bare type name with
/// `ifNoneExist` set.
pub proof fn lemma_requests_are_conditional(text: Seq<char>, config: Fhir, resources: ResourceMap, now: int)
    ensures
        mapping_of(text, config, resources, now) matches Ok(Some(b)) ==> forall|i: int| 0 <= i < b.1.len() ==> request_is_conditional(#[trigger] b.1[i].request),
{
    lemma_mapping_sound(text, config, resources, now);
}

/// No Encounter in a bundle that the engine produces ends before it starts.
pub proof fn lemma_period_ordered(text: Seq<char>, config: Fhir, resources: ResourceMap, now: int)
    ensures
        mapping_of(text, config, resources, now) matches Ok(Some(b)) ==> forall|i: int| 0 <= i < b.1.len() ==> period_ordered(#[trigger] b.1[i].resource),
{
    lemma_mapping_sound(text, config, resources, now);
}

/// Every Encounter in a bundle that the engine produces refers to its
/// patient under the configured person system.
pub proof fn lemma_subject_uses_person_system(text: Seq<char>, config: Fhir, resources: ResourceMap, now: int)
    ensures
        mapping_of(text, config, resources, now) matches Ok(Some(b)) ==> forall|i: int| 0 <= i < b.1.len() ==> subject_uses_system(#[trigger] b.1[i].resource, config.person.system@),
{
    lemma_mapping_sound(text, config, resources, now);
}

/// Which resource an entry carries, and the method of its request.
#[derive(PartialEq, Eq, Structural, Clone, Copy, Debug)]
pub enum EntryKind {
    Patient(HttpVerb),
    Encounter(HttpVerb),
    Parameters(HttpVerb),
}

pub open spec fn entry_kind(e: EntryView) -> EntryKind {
    match e.resource {
        ResourceView::Patient(_) => EntryKind::Patient(e.request.method),
        ResourceView::Encounter(_) => EntryKind::Encounter(e.request.method),
        ResourceView::Parameters(_) => EntryKind::Parameters(e.request.method),
    }
}

/// The Patient entries of the dispatch table: a `PUT` of the Patient for
/// A01, A04 to A08; a `POST` for A02, A03, A31; a `PATCH` for the merges
/// A34 and A40; none otherwise.
pub open spec fn patient_kinds(t: MessageType) -> Seq<EntryKind> {
    if t == MessageType::Admit || t == MessageType::Registration || t == MessageType::PreAdmit
        || t == MessageType::ChangeOutpatientToInpatient || t == MessageType::ChangeInpatientToOutpatient
        || t == MessageType::PatientUpdate {
        seq![EntryKind::Patient(HttpVerb::Put)]
    } else if t == MessageType::Transfer || t == MessageType::Discharge || t == MessageType::ChangePersonData {
        seq![EntryKind::Patient(HttpVerb::Post)]
    } else if t == MessageType::PatientMerge || t == MessageType::MergePatientRecords {
        seq![EntryKind::Parameters(HttpVerb::Patch)]
    } else {
        Seq::empty()
    }
}

/// The Encounter entries of the dispatch table: a `PUT` of the Encounter
/// for A01 to A05, unless the visit is that of an accompanying person.
pub open spec fn encounter_kinds(t: MessageType, companion: bool) -> Seq<EntryKind> {
    if (t == MessageType::Admit || t == MessageType::Transfer || t == MessageType::Discharge
        || t == MessageType::Registration || t == MessageType::PreAdmit) && !companion {
        seq![EntryKind::Encounter(HttpVerb::Put)]
    } else {
        Seq::empty()
    }
}

/// The event types that the Patient mapper refuses: A28, A29, A45, A47, A50.
pub open spec fn refused_by_patient_mapper(t: MessageType) -> bool {
    t == MessageType::AddPersonInformation || t == MessageType::DeletePersonInformation
        || t == MessageType::PatientReassignmentToSingleCase || t == MessageType::PatientReassignmentToAllCases
        || t == MessageType::UpdateEncounterNumber
}

proof fn lemma_patient_kinds(m: Seq<SegmentView>, t: MessageType, config: Fhir)
    ensures
        patient_entries_of(m, t, config) matches Ok(es) ==> es.map_values(|e: EntryView| entry_kind(e)) =~= patient_kinds(t),
        refused_by_patient_mapper(t) ==> patient_entries_of(m, t, config) == Err::<Seq<EntryView>, MappingErrorView>(MappingErrorView::InvalidMessageType(t)),
{
    if let Ok(es) = patient_entries_of(m, t, config) {
        if es.len() == 1 {
            assert(es.map_values(|e: EntryView| entry_kind(e)) =~= seq![entry_kind(es[0])]);
        } else {
            assert(es.map_values(|e: EntryView| entry_kind(e)) =~= Seq::empty());
        }
    }
}

proof fn lemma_encounter_kinds(m: Seq<SegmentView>, t: MessageType, config: Fhir, resources: ResourceMap, now: int)
    ensures
        encounter_entries_of(m, t, config, resources, now) matches Ok(es) ==> es.map_values(|e: EntryView| entry_kind(e)) =~= encounter_kinds(t, is_companion(m)),
{
    if let Ok(es) = encounter_entries_of(m, t, config, resources, now) {
        if es.len() == 1 {
            assert(es.map_values(|e: EntryView| entry_kind(e)) =~= seq![entry_kind(es[0])]);
        } else {
            assert(es.map_values(|e: EntryView| entry_kind(e)) =~= Seq::empty());
        }
    }
}

/// The dispatch table: for each event type, the entries of a mapped message
/// are the Patient entries of `patient_kinds`, then the Encounter entries
/// of `encounter_kinds`; the event types that the Patient mapper refuses
/// end in `InvalidMessageType`.
pub proof fn lemma_dispatch_table(m: Seq<SegmentView>, config: Fhir, resources: ResourceMap, now: int)
    ensures
        event_of(m) matches Ok(t) ==> {
            &&& refused_by_patient_mapper(t) ==> entries_of(m, config, resources, now) == Err::<Seq<EntryView>, MappingErrorView>(MappingErrorView::InvalidMessageType(t))
            &&& entries_of(m, config, resources, now) matches Ok(es) ==> es.map_values(|e: EntryView| entry_kind(e))
                == patient_kinds(t) + encounter_kinds(t, is_companion(m))
        },
{
    if let Ok(t) = event_of(m) {
        lemma_patient_kinds(m, t, config);
        lemma_encounter_kinds(m, t, config, resources, now);
        if let Ok(p) = patient_entries_of(m, t, config) {
            if let Ok(e) = encounter_entries_of(m, t, config, resources, now) {
                assert((p + e).map_values(|x: EntryView| entry_kind(x)) =~= p.map_values(|x: EntryView| entry_kind(x)) + e.map_values(|x: EntryView| entry_kind(x)));
            }
        }
    }
}

/// The cancellations A11, A12, A13, A27 and the pending admit A14 yield no
/// bundle.
pub proof fn lemma_cancellations_yield_nothing(text: Seq<char>, config: Fhir, resources: ResourceMap, now: int)
    requires
        hl7_segments_of(text) matches Some(m) && event_of(m) matches Ok(t) && (t == MessageType::CancelAdmitVisit
            || t == MessageType::CancelTransfer || t == MessageType::CancelDischarge || t == MessageType::PendingAdmit
            || t == MessageType::CancelPendingAdmit),
    ensures
        mapping_of(text, config, resources, now) == Ok::<Option<(BundleType, Seq<EntryView>)>, MappingErrorView>(None),
{
    let m = hl7_segments_of(text)->Some_0;
    let t = event_of(m)->Ok_0;
    assert(patient_entries_of(m, t, config) == Ok::<Seq<EntryView>, MappingErrorView>(Seq::empty()));
    assert(encounter_entries_of(m, t, config, resources, now) == Ok::<Seq<EntryView>, MappingErrorView>(Seq::empty()));
    assert(Seq::<EntryView>::empty() + Seq::<EntryView>::empty() =~= Seq::<EntryView>::empty());
}

/// The visit of an accompanying person (`PV1.2 = H`) yields no Encounter,
/// whatever the event type.
pub proof fn lemma_companion_yields_no_encounter(m: Seq<SegmentView>, t: MessageType, config: Fhir, resources: ResourceMap, now: int)
    requires
        is_companion(m),
    ensures
        encounter_entries_of(m, t, config, resources, now) == Ok::<Seq<EntryView>, MappingErrorView>(Seq::empty()),
{
}

} // verus!
