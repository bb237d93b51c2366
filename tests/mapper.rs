use hl7_fhir_mapper::config::{ContactLevelConfig, FallConfig, Fhir, ResourceConfig};
use hl7_fhir_mapper::datetime::parse_datetime;
use hl7_fhir_mapper::error::MappingError;
use hl7_fhir_mapper::fhir::Mapper;
use hl7_fhir_mapper::encounter::map_period;
use hl7_fhir_mapper::hl7::{Hl7Message, MessageAccessError};
use hl7_fhir_mapper::mapper::FhirMapper;
use hl7_fhir_mapper::message_type::MessageType;
use hl7_fhir_mapper::pipeline::{handle_record, Action};
use hl7_fhir_mapper::model::{
    Bundle, BundleType, EncounterStatus, HttpVerb, IdentifierUse, PatientDeceased,
    PatientMultipleBirth, Resource,
};
use hl7_fhir_mapper::resources::{Department, ResourceMap};

const PERSON_SYSTEM: &str = "https://fhir.diz.uni-marburg.de/sid/patient-id";
const ENCOUNTER_SYSTEM: &str = "https://fhir.diz.uni-marburg.de/sid/encounter-id";
const CONTACT_SYSTEM: &str = "https://fhir.diz.uni-marburg.de/sid/einrichtungskontakt-id";
const PERSON_PROFILE: &str = "https://www.medizininformatik-initiative.de/fhir/core/modul-person/StructureDefinition/Patient|2025.0.0";
const FALL_PROFILE: &str = "https://www.medizininformatik-initiative.de/fhir/core/modul-fall/StructureDefinition/KontaktGesundheitseinrichtung|2025.0.0";

/// A segment with the given fields set and all others empty.
fn segment(name: &str, fields: &[(usize, &str)]) -> String {
    let last = fields.iter().map(|(i, _)| *i).max().unwrap_or(0);
    let mut parts = vec![String::new(); last];
    for (i, v) in fields {
        parts[i - 1] = v.to_string();
    }
    format!("{}|{}", name, parts.join("|"))
}

fn message(event: &str, segments: &[String]) -> String {
    let mut lines = vec![
        format!("MSH|^~\\&|ORBIS|KH|RECV|KH|202511022120||ADT^{}|MSG0001|P|2.5", event),
        segment("EVN", &[(1, event), (2, "202511022120")]),
    ];
    lines.extend(segments.iter().cloned());
    lines.join("\r")
}

fn pid_a01() -> String {
    segment("PID", &[(1, "1"), (2, "9999999"), (5, "Doe^John^^von^^Dr.^L"), (7, "19480203"), (8, "M"), (11, "Hauptstr. 1^^Marburg^^35037^DE"), (16, "M")])
}

fn pv1(class: &str, department: &str, visit: &str, start: &str, end: &str) -> String {
    segment("PV1", &[(1, "1"), (2, class), (3, department), (19, visit), (44, start), (45, end)])
}

fn config(contact_system: &str) -> Fhir {
    Fhir {
        person: ResourceConfig { profile: PERSON_PROFILE.to_string(), system: PERSON_SYSTEM.to_string() },
        fall: FallConfig {
            profile: FALL_PROFILE.to_string(),
            system: ENCOUNTER_SYSTEM.to_string(),
            einrichtungskontakt: ContactLevelConfig { system: contact_system.to_string() },
            abteilungskontakt: Default::default(),
            versorgungsstellenkontakt: Default::default(),
        },
    }
}

fn departments() -> ResourceMap {
    ResourceMap::new(
        vec![(
            "POL".to_string(),
            Department { abteilungs_bezeichnung: "Pneumologie".to_string(), fachabteilungs_schluessel: "0800".to_string() },
        )],
        vec![],
    )
}

fn engine() -> FhirMapper {
    FhirMapper::new(config(CONTACT_SYSTEM), departments())
}

const NOW: i64 = 1_800_000_000;

fn bundle_of(text: &str) -> Bundle {
    engine().map(text, NOW).ok().unwrap().unwrap()
}

#[test]
fn test_parse_datetime() {
    // 2009-03-30 10:36 in Berlin is 08:36 UTC (CEST)
    let parsed = parse_datetime("200903301036").ok().unwrap();
    assert_eq!(parsed.text, "2009-03-30T10:36:00+02:00");
    assert_eq!(parsed.timestamp, 1238402160);
}

#[test]
fn map_test() {
    let hl7 = message("A01", &[pid_a01(), pv1("I", "POL", "88888888", "202511022120", "202511022120")]);
    let config = Fhir {
        person: ResourceConfig { profile: PERSON_PROFILE.to_string(), system: PERSON_SYSTEM.to_string() },
        fall: FallConfig {
            profile: FALL_PROFILE.to_string(),
            system: ENCOUNTER_SYSTEM.to_string(),
            einrichtungskontakt: Default::default(),
            abteilungskontakt: Default::default(),
            versorgungsstellenkontakt: Default::default(),
        },
    };
    let mapper = FhirMapper::new(config.clone(), departments());

    let bundle = mapper.map(&hl7, NOW).ok().unwrap().unwrap();
    assert_eq!(bundle.entry.len(), 2);

    let patient = bundle.entry.iter().find_map(|e| match &e.resource {
        Resource::Patient(p) => Some(p.clone()),
        _ => None,
    });
    let encounter = bundle.entry.iter().find_map(|e| match &e.resource {
        Resource::Encounter(e) => Some(e.clone()),
        _ => None,
    });
    assert_eq!(patient.unwrap().profile, config.person.profile);
    assert_eq!(encounter.unwrap().profile, config.fall.profile);
}

#[test]
fn a01_admit_gives_patient_and_encounter() {
    let hl7 = message("A01", &[pid_a01(), pv1("I", "POL", "88888888", "202511022120", "202511022120")]);
    let bundle = bundle_of(&hl7);
    assert_eq!(bundle.bundle_type, BundleType::Transaction);
    assert_eq!(bundle.entry.len(), 2);

    let Resource::Patient(p) = &bundle.entry[0].resource else { panic!("first entry is not a Patient") };
    assert_eq!(p.identifier.len(), 1);
    assert_eq!(p.identifier[0].use_, IdentifierUse::Usual);
    assert_eq!(p.identifier[0].system, PERSON_SYSTEM);
    assert_eq!(p.identifier[0].value, "9999999");
    assert_eq!(p.profile, PERSON_PROFILE);
    assert_eq!(bundle.entry[0].request.method, HttpVerb::Put);
    assert_eq!(bundle.entry[0].request.url, format!("Patient?identifier={}|9999999", PERSON_SYSTEM));

    let Resource::Encounter(e) = &bundle.entry[1].resource else { panic!("second entry is not an Encounter") };
    assert_eq!(e.class.code, "IMP");
    assert_eq!(e.identifier[0].value, "88888888");
    assert_eq!(e.identifier[0].use_, IdentifierUse::Usual);
    assert_eq!(e.identifier[0].system, CONTACT_SYSTEM);
    assert_eq!(e.identifier[1].use_, IdentifierUse::Official);
    assert_eq!(e.identifier[1].system, ENCOUNTER_SYSTEM);
    assert_eq!(e.identifier[1].type_.as_ref().unwrap().coding[0].code, "VN");
    assert_eq!(e.subject.reference, format!("Patient?identifier={}|9999999", PERSON_SYSTEM));
    assert_eq!(e.period.start.text, "2025-11-02T21:20:00+01:00");
    assert_eq!(e.period.end.as_ref().unwrap().text, "2025-11-02T21:20:00+01:00");
    assert_eq!(e.status, EncounterStatus::Finished);
    assert_eq!(e.type_.coding.len(), 1);
    assert_eq!(e.type_.coding[0].code, "einrichtungskontakt");
    let service_type = e.service_type.as_ref().unwrap();
    assert_eq!(service_type.coding[0].code, "0800");
    assert_eq!(service_type.coding[0].display.as_deref(), Some("Pneumologie"));
    assert_eq!(
        e.service_provider.as_ref().unwrap().reference,
        "Organization?identifier=https://fhir.diz.uni-marburg.de/sid/department|POL"
    );
    assert_eq!(bundle.entry[1].request.method, HttpVerb::Put);
    assert_eq!(bundle.entry[1].request.url, format!("Encounter?identifier={}|88888888", CONTACT_SYSTEM));
}

#[test]
fn a04_without_discharge_ends_at_start() {
    let hl7 = message("A04", &[pid_a01(), pv1("O", "", "77777777", "202511022120", "")]);
    let bundle = bundle_of(&hl7);
    let Resource::Encounter(e) = &bundle.entry[1].resource else { panic!("second entry is not an Encounter") };
    assert_eq!(e.period.end.as_ref().unwrap().text, e.period.start.text);
    assert_eq!(e.status, EncounterStatus::Finished);
    assert_eq!(e.class.code, "AMB");
    assert!(e.service_type.is_none());
    assert!(e.service_provider.is_none());
}

#[test]
fn open_encounter_status_follows_now() {
    let hl7 = message("A01", &[pid_a01(), pv1("I", "", "1", "202511022120", "")]);
    let m = engine();
    let before = m.map(&hl7, 1762114800).ok().unwrap().unwrap();
    let after = m.map(&hl7, 1762114801).ok().unwrap().unwrap();
    let Resource::Encounter(e) = &before.entry[1].resource else { panic!("not an Encounter") };
    assert_eq!(e.status, EncounterStatus::Planned);
    assert!(e.period.end.is_none());
    let Resource::Encounter(e) = &after.entry[1].resource else { panic!("not an Encounter") };
    assert_eq!(e.status, EncounterStatus::InProgress);
}

#[test]
fn transfer_creates_patient_conditionally() {
    let hl7 = message("A02", &[pid_a01(), pv1("I", "", "1", "202511022120", "")]);
    let bundle = bundle_of(&hl7);
    assert_eq!(bundle.entry[0].request.method, HttpVerb::Post);
    assert_eq!(bundle.entry[0].request.url, "Patient");
    assert_eq!(
        bundle.entry[0].request.if_none_exist.as_deref(),
        Some(format!("identifier={}|9999999", PERSON_SYSTEM).as_str())
    );
}

#[test]
fn a40_merge_gives_one_patch() {
    let hl7 = message("A40", &[segment("PID", &[(1, "1"), (2, "1234567")]), segment("MRG", &[(1, "09876543")])]);
    let bundle = bundle_of(&hl7);
    assert_eq!(bundle.entry.len(), 1);
    let entry = &bundle.entry[0];
    assert_eq!(entry.request.method, HttpVerb::Patch);
    assert_eq!(entry.request.url, format!("Patient?identifier={}|09876543", PERSON_SYSTEM));
    let Resource::Parameters(p) = &entry.resource else { panic!("entry is not a patch") };
    assert_eq!(p.other.reference, format!("Patient?identifier={}|1234567", PERSON_SYSTEM));
    assert_eq!(p.link_type, "replaced-by");
    assert_eq!(p.operation_type, "add");
    assert_eq!(p.path, "Patient");
    assert_eq!(p.name, "link");
}

#[test]
fn a11_cancel_gives_no_output() {
    let hl7 = message("A11", &[pid_a01(), pv1("I", "", "1", "202511022120", "")]);
    assert!(engine().map(&hl7, NOW).ok().unwrap().is_none());
}

#[test]
fn cancellations_and_pending_admit_give_no_output() {
    for event in ["A11", "A12", "A13", "A14", "A27"] {
        let hl7 = message(event, &[pid_a01(), pv1("I", "", "1", "202511022120", "")]);
        assert!(engine().map(&hl7, NOW).ok().unwrap().is_none(), "{event}");
    }
}

#[test]
fn companion_visit_gives_no_encounter() {
    let hl7 = message("A01", &[pid_a01(), pv1("H", "", "1", "202511022120", "")]);
    let bundle = bundle_of(&hl7);
    assert_eq!(bundle.entry.len(), 1);
    assert!(matches!(bundle.entry[0].resource, Resource::Patient(_)));
}

#[test]
fn contradictory_multiple_birth_is_a_content_fault() {
    let pid = segment("PID", &[(1, "1"), (2, "9999999"), (24, "N"), (25, "12")]);
    let hl7 = message("A08", &[pid]);
    match engine().map(&hl7, NOW) {
        Err(MappingError::MessageContentUnexpected(field, expected)) => {
            assert_eq!(field, "PID.24");
            assert_eq!(expected, "Y");
        },
        _ => panic!("expected a content fault"),
    }
}

#[test]
fn multiple_birth_table() {
    let cases: [(&str, &str, Option<PatientMultipleBirth>); 4] = [
        ("", "", None),
        ("Y", "", Some(PatientMultipleBirth::Boolean(true))),
        ("N", "", Some(PatientMultipleBirth::Boolean(false))),
        ("Y", "2", Some(PatientMultipleBirth::Integer(2))),
    ];
    for (flag, number, expected) in cases {
        let pid = segment("PID", &[(1, "1"), (2, "9999999"), (24, flag), (25, number)]);
        let bundle = bundle_of(&message("A08", &[pid]));
        let Resource::Patient(p) = &bundle.entry[0].resource else { panic!("not a Patient") };
        assert_eq!(p.multiple_birth, expected, "{flag} {number}");
    }
    let bad_flag = segment("PID", &[(1, "1"), (2, "9999999"), (24, "X")]);
    assert!(matches!(engine().map(&message("A08", &[bad_flag]), NOW), Err(MappingError::MessageContentUnexpected(_, _))));
    let bad_number = segment("PID", &[(1, "1"), (2, "9999999"), (24, "Y"), (25, "two")]);
    assert!(matches!(engine().map(&message("A08", &[bad_number]), NOW), Err(MappingError::FormattingError(_))));
}

#[test]
fn patient_details_are_mapped() {
    let pid = segment(
        "PID",
        &[(1, "1"), (2, "9999999"), (5, "Doe^John^^von^^Dr.^L"), (6, "Smith^Jane"), (7, "19480203"), (8, "F"),
          (11, "Hauptstr. 1&Hinterhaus^^Marburg^^35037^DE"), (16, "G"), (29, "202401011200")],
    );
    let bundle = bundle_of(&message("A08", &[pid]));
    let Resource::Patient(p) = &bundle.entry[0].resource else { panic!("not a Patient") };
    assert_eq!(p.birth_date.as_deref(), Some("1948-02-03"));
    assert_eq!(p.gender, Some(hl7_fhir_mapper::model::AdministrativeGender::Female));
    assert_eq!(p.name.len(), 2);
    let n = &p.name[0];
    assert_eq!(n.family.as_deref(), Some("Doe"));
    assert_eq!(n.given, vec!["John".to_string()]);
    assert_eq!(n.prefix, vec!["Dr.".to_string()]);
    assert_eq!(n.prefix_extension.as_ref().unwrap().value, "AC");
    assert_eq!(n.family_extension.as_ref().unwrap().value, "von");
    assert_eq!(n.use_, Some(hl7_fhir_mapper::model::NameUse::Official));
    assert_eq!(p.name[1].use_, Some(hl7_fhir_mapper::model::NameUse::Maiden));
    assert_eq!(p.name[1].family.as_deref(), Some("Smith"));
    let a = &p.address[0];
    assert_eq!(a.line, vec!["Hauptstr. 1".to_string(), "Hinterhaus".to_string()]);
    assert_eq!(a.city.as_deref(), Some("Marburg"));
    assert_eq!(a.postal_code.as_deref(), Some("35037"));
    assert_eq!(a.country.as_deref(), Some("DE"));
    assert_eq!(p.marital_status.as_ref().unwrap().coding[0].code, "T");
    match &p.deceased {
        Some(PatientDeceased::DateTime(t)) => assert_eq!(t.text, "2024-01-01T12:00:00+01:00"),
        _ => panic!("expected a time of death"),
    }
}

#[test]
fn deceased_flag_without_time() {
    let pid = segment("PID", &[(1, "1"), (2, "9999999"), (30, "Y")]);
    let bundle = bundle_of(&message("A08", &[pid]));
    let Resource::Patient(p) = &bundle.entry[0].resource else { panic!("not a Patient") };
    assert!(matches!(p.deceased, Some(PatientDeceased::Boolean(true))));
}

#[test]
fn refused_event_is_invalid_message_type() {
    let hl7 = message("A28", &[pid_a01()]);
    assert!(matches!(engine().map(&hl7, NOW), Err(MappingError::InvalidMessageType(_))));
}

#[test]
fn unknown_event_is_an_access_fault() {
    let hl7 = message("A99", &[pid_a01()]);
    assert!(matches!(engine().map(&hl7, NOW), Err(MappingError::MessageAccessError(_))));
}

#[test]
fn unknown_encounter_class_is_a_content_fault() {
    let hl7 = message("A01", &[pid_a01(), pv1("X", "", "1", "202511022120", "")]);
    match engine().map(&hl7, NOW) {
        Err(MappingError::MessageContentUnexpected(field, _)) => assert_eq!(field, "PV1.2"),
        _ => panic!("expected a content fault"),
    }
}

#[test]
fn unknown_department_is_a_fault() {
    let hl7 = message("A01", &[pid_a01(), pv1("I", "XYZ", "1", "202511022120", "")]);
    assert!(matches!(engine().map(&hl7, NOW), Err(MappingError::UnknownDepartment(_))));
}

#[test]
fn discharge_before_admission_is_a_fault() {
    let hl7 = message("A03", &[pid_a01(), pv1("I", "", "1", "202511022120", "202511012120")]);
    assert!(matches!(engine().map(&hl7, NOW), Err(MappingError::MessageContentUnexpected(_, _))));
}

#[test]
fn missing_visit_number_is_an_access_fault() {
    let hl7 = message("A01", &[pid_a01(), pv1("I", "", "", "202511022120", "")]);
    assert!(matches!(engine().map(&hl7, NOW), Err(MappingError::MessageAccessError(_))));
}

#[test]
fn empty_person_system_is_a_builder_fault() {
    let hl7 = message("A08", &[pid_a01()]);
    let m = FhirMapper::new(
        Fhir { person: ResourceConfig { profile: PERSON_PROFILE.to_string(), system: String::new() }, ..config(CONTACT_SYSTEM) },
        departments(),
    );
    assert!(matches!(m.map(&hl7, NOW), Err(MappingError::BuilderError(_))));
}

#[test]
fn admit_source_is_mapped() {
    let pv1 = segment("PV1", &[(1, "1"), (2, "I"), (4, "N"), (19, "1"), (44, "202511022120")]);
    let bundle = bundle_of(&message("A01", &[pid_a01(), pv1]));
    let Resource::Encounter(e) = &bundle.entry[1].resource else { panic!("not an Encounter") };
    let c = &e.admit_source.as_ref().unwrap().coding[0];
    assert_eq!(c.code, "N");
    assert_eq!(c.system, "http://fhir.de/CodeSystem/dgkev/Aufnahmeanlass");
    let bad = segment("PV1", &[(1, "1"), (2, "I"), (4, "Q"), (19, "1"), (44, "202511022120")]);
    assert!(matches!(engine().map(&message("A01", &[pid_a01(), bad]), NOW), Err(MappingError::MessageContentUnexpected(_, _))));
}

#[test]
fn mapping_is_repeatable() {
    let hl7 = message("A01", &[pid_a01(), pv1("I", "POL", "88888888", "202511022120", "202511022120")]);
    let a = bundle_of(&hl7);
    let b = bundle_of(&hl7);
    assert_eq!(a.entry.len(), b.entry.len());
    for (x, y) in a.entry.iter().zip(b.entry.iter()) {
        assert_eq!(x.request.url, y.request.url);
        assert_eq!(x.request.method, y.request.method);
    }
}

#[test]
fn newline_conventions_are_all_accepted() {
    let hl7 = message("A01", &[pid_a01(), pv1("I", "POL", "88888888", "202511022120", "202511022120")]);
    for sep in ["\n", "\r\n"] {
        let text = hl7.replace('\r', sep);
        assert_eq!(bundle_of(&text).entry.len(), 2);
    }
}

#[test]
fn patient_only_engine_writes_patient() {
    let hl7 = message("A03", &[pid_a01()]);
    let bundle = Mapper::new(config(CONTACT_SYSTEM)).map(&hl7).ok().unwrap().unwrap();
    assert_eq!(bundle.entry.len(), 1);
    assert_eq!(bundle.entry[0].request.method, HttpVerb::Put);
    assert_eq!(bundle.entry[0].request.url, format!("Patient?identifier={}|9999999", PERSON_SYSTEM));
    let Resource::Patient(p) = &bundle.entry[0].resource else { panic!("not a Patient") };
    assert_eq!(p.profile, PERSON_PROFILE);
    assert!(p.name.is_empty());
    assert!(p.gender.is_none());
    assert!(p.birth_date.is_none());
}

#[test]
fn patient_only_engine_ignores_other_fields() {
    let pid = segment("PID", &[(1, "1"), (2, "9999999"), (7, "notadate"), (24, "N"), (25, "3")]);
    let hl7 = message("A08", &[pid]);
    assert!(Mapper::new(config(CONTACT_SYSTEM)).map(&hl7).ok().unwrap().is_some());
    let no_id = message("A08", &[segment("PID", &[(1, "1")])]);
    assert!(matches!(Mapper::new(config(CONTACT_SYSTEM)).map(&no_id), Err(MappingError::MessageAccessError(_))));
}

#[test]
fn encounter_carries_its_source() {
    let hl7 = message("A01", &[pid_a01(), pv1("I", "", "1", "202511022120", "")]);
    let bundle = bundle_of(&hl7);
    let Resource::Encounter(e) = &bundle.entry[1].resource else { panic!("not an Encounter") };
    assert_eq!(e.source, "#orbis");
}

#[test]
fn missing_visit_segment_is_an_access_fault() {
    let m = Hl7Message::parse(&message("A01", &[pid_a01()])).ok().unwrap();
    match map_period(&m, MessageType::Admit) {
        Err(MappingError::MessageAccessError(MessageAccessError::MissingMessageSegment(s))) => assert_eq!(s, "PV1"),
        _ => panic!("expected a missing segment"),
    }
    assert!(matches!(engine().map(&message("A01", &[pid_a01()]), NOW), Err(MappingError::MessageAccessError(_))));
}

#[test]
fn worker_decisions() {
    let m = engine();
    assert!(matches!(handle_record(&m, None, NOW), Action::Skip));
    let cancel = message("A11", &[pid_a01()]);
    assert!(matches!(handle_record(&m, Some(cancel), NOW), Action::Commit));
    let admission = message("A01", &[pid_a01(), pv1("I", "POL", "88888888", "202511022120", "202511022120")]);
    match handle_record(&m, Some(admission), NOW) {
        Action::Publish(b) => assert_eq!(b.entry.len(), 2),
        _ => panic!("expected a bundle to publish"),
    }
    let refused = message("A28", &[pid_a01()]);
    assert!(matches!(handle_record(&m, Some(refused), NOW), Action::Fail(MappingError::InvalidMessageType(_))));
}
