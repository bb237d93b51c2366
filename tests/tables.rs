use hl7_fhir_mapper::codes::{
    map_admit_source, map_encounter_class, map_gender, map_kontaktart, map_marital_status,
    marital_status_code,
};
use hl7_fhir_mapper::datetime::{parse_date, parse_datetime, FormattingError};
use hl7_fhir_mapper::error::MappingError;
use hl7_fhir_mapper::hl7::{component, subcomponents, Hl7Message};
use hl7_fhir_mapper::message_type::{message_type, parse_message_type, MessageType, MessageTypeError};
use hl7_fhir_mapper::model::AdministrativeGender;
use hl7_fhir_mapper::resources::{parse_intensive_flag, Department, Location, ResourceMap};
use hl7_fhir_mapper::text::parse_decimal;
use std::str::FromStr;

#[test]
fn gender_table_is_total() {
    assert_eq!(map_gender("F"), AdministrativeGender::Female);
    assert_eq!(map_gender("M"), AdministrativeGender::Male);
    assert_eq!(map_gender("U"), AdministrativeGender::Other);
    assert_eq!(map_gender("X"), AdministrativeGender::Unknown);
    assert_eq!(map_gender(""), AdministrativeGender::Unknown);
}

#[test]
fn marital_status_table() {
    let cases = [
        ("A", "L"), ("E", "L"), ("D", "D"), ("M", "M"), ("S", "S"), ("W", "W"), ("C", "C"),
        ("G", "T"), ("P", "T"), ("R", "T"), ("N", "A"), ("I", "I"), ("B", "U"),
    ];
    for (code, expected) in cases {
        assert_eq!(marital_status_code(code), expected, "{code}");
    }
    assert_eq!(marital_status_code("Z"), "UNK");
    assert_eq!(marital_status_code(""), "UNK");
    let c = map_marital_status("M");
    assert_eq!(c.coding[0].system, "http://terminology.hl7.org/CodeSystem/v3-MaritalStatus");
    assert_eq!(c.coding[0].code, "M");
}

#[test]
fn encounter_class_table() {
    assert_eq!(map_encounter_class("I").ok().unwrap().code, "IMP");
    assert_eq!(map_encounter_class("O").ok().unwrap().code, "AMB");
    assert_eq!(map_encounter_class("P").ok().unwrap().code, "PRENC");
    assert!(matches!(map_encounter_class("TS"), Err(MappingError::MessageContentUnexpected(_, _))));
}

#[test]
fn kontaktart_table() {
    assert_eq!(map_kontaktart("H").unwrap().code, "begleitperson");
    assert_eq!(map_kontaktart("TS").unwrap().code, "teilstationaer");
    assert_eq!(map_kontaktart("NS").unwrap().code, "nachstationaer");
    assert_eq!(map_kontaktart("UB").unwrap().code, "ub");
    assert!(map_kontaktart("I").is_none());
    assert!(map_kontaktart("O").is_none());
}

#[test]
fn admit_source_table() {
    for code in ["E", "Z", "N", "R", "V", "A", "G", "B"] {
        let c = map_admit_source(code).ok().unwrap();
        assert_eq!(c.coding[0].code, code);
    }
    assert!(matches!(map_admit_source("X"), Err(MappingError::MessageContentUnexpected(_, _))));
}

#[test]
fn message_types_are_read() {
    assert_eq!(parse_message_type("A01").ok().unwrap(), MessageType::Admit);
    assert_eq!(parse_message_type("A34").ok().unwrap(), MessageType::PatientMerge);
    assert_eq!(MessageType::from_str("A50").ok().unwrap(), MessageType::UpdateEncounterNumber);
    match parse_message_type("B01") {
        Err(MessageTypeError::UnknownMessageType(s)) => assert_eq!(s, "B01"),
        _ => panic!("expected an unknown type"),
    }
    let m = Hl7Message::parse("MSH|^~\\&|A|B\rPID|1|2").ok().unwrap();
    assert!(matches!(message_type(&m), Err(MessageTypeError::MissingMessageType(_))));
    let m = Hl7Message::parse("MSH|^~\\&|A|B\rEVN|A03").ok().unwrap();
    assert_eq!(message_type(&m).ok().unwrap(), MessageType::Discharge);
}

#[test]
fn fields_and_components_are_trimmed() {
    let m = Hl7Message::parse("MSH|^~\\&|A|B\nPID|1| 123 ||| Doe ^John&Jr^^^|").ok().unwrap();
    assert_eq!(m.field("PID", 2).ok().unwrap().as_deref(), Some("123"));
    assert_eq!(m.field("PID", 3).ok().unwrap(), None);
    assert_eq!(m.field("PID", 40).ok().unwrap(), None);
    assert!(m.field("PV1", 1).is_err());
    let name = m.field("PID", 5).ok().unwrap().unwrap();
    assert_eq!(component(&name, 1).ok().unwrap().as_deref(), Some("Doe"));
    assert_eq!(component(&name, 3).ok().unwrap(), None);
    assert_eq!(subcomponents(&name, 2).ok().unwrap(), vec!["John".to_string(), "Jr".to_string()]);
    assert!(subcomponents(&name, 9).ok().unwrap().is_empty());
}

#[test]
fn dates_are_written_in_fhir_form() {
    assert_eq!(parse_date("19480203").ok().unwrap(), "1948-02-03");
    assert_eq!(parse_date("194802031200").ok().unwrap(), "1948-02-03");
    assert!(matches!(parse_date(""), Err(FormattingError::ParseError(_))));
    assert!(matches!(parse_date("19481302"), Err(FormattingError::ParseError(_))));
}

#[test]
fn datetimes_carry_the_berlin_offset() {
    let winter = parse_datetime("202511022120").ok().unwrap();
    assert_eq!(winter.text, "2025-11-02T21:20:00+01:00");
    assert_eq!(winter.timestamp, 1762114800);
    // the hour that occurs twice is taken at its first occurrence
    let twice = parse_datetime("202410270230").ok().unwrap();
    assert_eq!(twice.text, "2024-10-27T02:30:00+02:00");
    assert_eq!(twice.timestamp, 1729989000);
    // the hour that the clock skips is read under the offset before the change
    let skipped = parse_datetime("202403310230").ok().unwrap();
    assert_eq!(skipped.text, "2024-03-31T03:30:00+02:00");
    assert_eq!(skipped.timestamp, 1711848600);
    assert!(matches!(parse_datetime("202402300230"), Err(FormattingError::ParseError(_))));
    assert!(matches!(parse_datetime(""), Err(FormattingError::ParseError(_))));
    assert!(matches!(parse_datetime("2024"), Err(FormattingError::ParseError(_))));
}

#[test]
fn decimals_are_read() {
    assert_eq!(parse_decimal("12"), Some(12));
    assert_eq!(parse_decimal("0"), Some(0));
    assert_eq!(parse_decimal("2147483647"), Some(2147483647));
    assert_eq!(parse_decimal("2147483648"), None);
    assert_eq!(parse_decimal(""), None);
    assert_eq!(parse_decimal("1a"), None);
}

#[test]
fn departments_are_looked_up() {
    let map = ResourceMap::new(
        vec![
            ("POL".to_string(), Department { fachabteilungs_schluessel: "0800".to_string(), abteilungs_bezeichnung: "Pneumologie".to_string() }),
            ("KAR".to_string(), Department { fachabteilungs_schluessel: "0300".to_string(), abteilungs_bezeichnung: "Kardiologie".to_string() }),
        ],
        vec![(
            "4711".to_string(),
            Location {
                desc: "Station 1".to_string(),
                fachabteilungs_kuerzel: "POL".to_string(),
                abteilungs_bezeichnung: "Pneumologie".to_string(),
                fachabteilungs_schluessel: "0800".to_string(),
                ist_intensiv_station: true,
            },
        )],
    );
    let c = map.map_fab_schluessel("POL").ok().unwrap();
    assert_eq!(c.coding[0].code, "0800");
    assert_eq!(c.coding[0].display.as_deref(), Some("Pneumologie"));
    assert_eq!(c.coding[0].system, "http://fhir.de/CodeSystem/dkgev/Fachabteilungsschluessel-erweitert");
    assert_eq!(map.map_fab_schluessel("KAR").ok().unwrap().coding[0].code, "0300");
    assert!(matches!(map.map_fab_schluessel("XXX"), Err(MappingError::UnknownDepartment(_))));
    assert!(map.location("4711").unwrap().ist_intensiv_station);
    assert!(map.location("4712").is_none());
}

#[test]
fn intensive_flag_is_read() {
    assert_eq!(parse_intensive_flag("1"), Some(true));
    assert_eq!(parse_intensive_flag("0"), Some(false));
    assert_eq!(parse_intensive_flag(""), Some(false));
    assert_eq!(parse_intensive_flag("yes"), None);
}

#[test]
fn repeats_are_read() {
    assert_eq!(hl7_fhir_mapper::hl7::repeat("a^b~ c ~", 1).ok().unwrap().as_deref(), Some("a^b"));
    assert_eq!(hl7_fhir_mapper::hl7::repeat("a^b~ c ~", 2).ok().unwrap().as_deref(), Some("c"));
    assert_eq!(hl7_fhir_mapper::hl7::repeat("a^b~ c ~", 3).ok().unwrap(), None);
    assert_eq!(hl7_fhir_mapper::hl7::repeat("a^b~ c ~", 4).ok().unwrap(), None);
}

#[test]
fn from_str_reads_trigger_codes() {
    assert_eq!(MessageType::from_str("A01").ok().unwrap(), MessageType::Admit);
    assert_eq!(MessageType::from_str("A03").ok().unwrap(), MessageType::Discharge);
    assert_eq!(MessageType::from_str("A14").ok().unwrap(), MessageType::PendingAdmit);
    assert_eq!(MessageType::from_str("A40").ok().unwrap(), MessageType::MergePatientRecords);
    assert_eq!(MessageType::from_str("A50").ok().unwrap(), MessageType::UpdateEncounterNumber);
    match MessageType::from_str("A99") {
        Err(MessageTypeError::UnknownMessageType(s)) => assert_eq!(s, "A99"),
        _ => panic!("expected an unknown type"),
    }
    assert!(MessageType::from_str("a01").is_err());
}
