//! The coded-value tables: HL7 v2 codes and the FHIR codings they stand for.
use vstd::prelude::*;
use crate::error::{agrees, MappingError, MappingErrorView};
use crate::model::{AdministrativeGender, CodeableConcept, Coding, CodingView};
use crate::text::str_eq;

verus! {

/// The administrative gender for `PID.8`.
pub open spec fn gender_of(code: Seq<char>) -> AdministrativeGender {
    if code == "F"@ {
        AdministrativeGender::Female
    } else if code == "M"@ {
        AdministrativeGender::Male
    } else if code == "U"@ {
        AdministrativeGender::Other
    } else {
        AdministrativeGender::Unknown
    }
}

/// Maps `PID.8`: `F` female, `M` male, `U` other, anything else unknown.
pub fn map_gender(code: &str) -> (r: AdministrativeGender)
    ensures
        r == gender_of(code@),
{
    if str_eq(code, "F") {
        AdministrativeGender::Female
    } else if str_eq(code, "M") {
        AdministrativeGender::Male
    } else if str_eq(code, "U") {
        AdministrativeGender::Other
    } else {
        AdministrativeGender::Unknown
    }
}

/// Whether `code` is one of the marital status codes of HL7 v2.
pub open spec fn is_marital_status_code(code: Seq<char>) -> bool {
    code == "A"@ || code == "E"@ || code == "D"@ || code == "M"@ || code == "S"@ || code == "W"@ || code == "C"@ || code == "G"@ || code == "P"@ || code == "R"@ || code == "N"@ || code == "I"@ || code == "B"@
}

/// The v3 marital status code for `PID.16.1`.
pub open spec fn marital_code_of(code: Seq<char>) -> Seq<char> {
    if code == "A"@ || code == "E"@ {
        "L"@
    } else if code == "D"@ {
        "D"@
    } else if code == "M"@ {
        "M"@
    } else if code == "S"@ {
        "S"@
    } else if code == "W"@ {
        "W"@
    } else if code == "C"@ {
        "C"@
    } else if code == "G"@ || code == "P"@ || code == "R"@ {
        "T"@
    } else if code == "N"@ {
        "A"@
    } else if code == "I"@ {
        "I"@
    } else if code == "B"@ {
        "U"@
    } else {
        "UNK"@
    }
}

/// The code system of marital status codes.
pub open spec fn marital_system() -> Seq<char> {
    "http://terminology.hl7.org/CodeSystem/v3-MaritalStatus"@
}

/// The v3 marital status code for an HL7 v2 code; `UNK` for any code outside
/// the table.
pub fn marital_status_code(code: &str) -> (r: &'static str)
    ensures
        r@ == marital_code_of(code@),
        !is_marital_status_code(code@) ==> r@ == "UNK"@,
{
    if str_eq(code, "A") || str_eq(code, "E") {
        "L"
    } else if str_eq(code, "D") {
        "D"
    } else if str_eq(code, "M") {
        "M"
    } else if str_eq(code, "S") {
        "S"
    } else if str_eq(code, "W") {
        "W"
    } else if str_eq(code, "C") {
        "C"
    } else if str_eq(code, "G") || str_eq(code, "P") || str_eq(code, "R") {
        "T"
    } else if str_eq(code, "N") {
        "A"
    } else if str_eq(code, "I") {
        "I"
    } else if str_eq(code, "B") {
        "U"
    } else {
        "UNK"
    }
}

/// Maps `PID.16.1` onto a marital status concept.
pub fn map_marital_status(code: &str) -> (r: CodeableConcept)
    ensures
        r@ == seq![CodingView { system: marital_system(), code: marital_code_of(code@), display: None }],
{
    let c = Coding {
        system: "http://terminology.hl7.org/CodeSystem/v3-MaritalStatus".to_string(),
        code: marital_status_code(code).to_string(),
        display: None,
    };
    let r = CodeableConcept { coding: vec![c] };
    assert(r@ =~= seq![c@]);
    r
}

/// The code and display of the encounter class for `PV1.2`.
pub open spec fn class_of(code: Seq<char>) -> Option<(Seq<char>, Seq<char>)> {
    if code == "I"@ {
        Some(("IMP"@, "inpatient encounter"@))
    } else if code == "O"@ {
        Some(("AMB"@, "ambulatory"@))
    } else if code == "P"@ {
        Some(("PRENC"@, "pre-admission"@))
    } else {
        None
    }
}

/// The class coding for `PV1.2`, or the fault for a code outside the table.
pub open spec fn class_coding_of(code: Seq<char>) -> Result<CodingView, MappingErrorView> {
    match class_of(code) {
        Some((c, d)) => Ok(CodingView { system: "http://terminology.hl7.org/CodeSystem/v3-ActCode"@, code: c, display: Some(d) }),
        None => Err(MappingErrorView::MessageContentUnexpected("PV1.2"@, "I, O or P"@)),
    }
}

fn class_entry(code: &str) -> (r: Option<(&'static str, &'static str)>)
    ensures
        match class_of(code@) {
            Some((c, d)) => r is Some && r->Some_0.0@ == c && r->Some_0.1@ == d,
            None => r is None,
        },
{
    if str_eq(code, "I") {
        Some(("IMP", "inpatient encounter"))
    } else if str_eq(code, "O") {
        Some(("AMB", "ambulatory"))
    } else if str_eq(code, "P") {
        Some(("PRENC", "pre-admission"))
    } else {
        None
    }
}

/// Maps `PV1.2` onto the encounter class: `I` inpatient, `O` ambulatory,
/// `P` pre-admission; any other code is a fault.
pub fn map_encounter_class(code: &str) -> (r: Result<Coding, MappingError>)
    ensures
        agrees(r, class_coding_of(code@)),
{
    match class_entry(code) {
        Some((c, d)) => Ok(Coding {
            system: "http://terminology.hl7.org/CodeSystem/v3-ActCode".to_string(),
            code: c.to_string(),
            display: Some(d.to_string()),
        }),
        None => Err(MappingError::MessageContentUnexpected("PV1.2".to_string(), "I, O or P".to_string())),
    }
}

/// The code and display of the contact kind for `PV1.2`.
pub open spec fn kontaktart_of(code: Seq<char>) -> Option<(Seq<char>, Seq<char>)> {
    if code == "H"@ {
        Some(("begleitperson"@, "Begleitperson"@))
    } else if code == "TS"@ {
        Some(("teilstationaer"@, "Teilstationäre Behandlung"@))
    } else if code == "NS"@ {
        Some(("nachstationaer"@, "Nachstationär"@))
    } else if code == "UB"@ {
        Some(("ub"@, "Untersuchung und Behandlung"@))
    } else {
        None
    }
}

/// The contact kind coding for `PV1.2`, where the table has one.
pub open spec fn kontaktart_coding_of(code: Seq<char>) -> Option<CodingView> {
    match kontaktart_of(code) {
        Some((c, d)) => Some(CodingView { system: "http://fhir.de/CodeSystem/kontaktart-de"@, code: c, display: Some(d) }),
        None => None,
    }
}

fn kontaktart_entry(code: &str) -> (r: Option<(&'static str, &'static str)>)
    ensures
        match kontaktart_of(code@) {
            Some((c, d)) => r is Some && r->Some_0.0@ == c && r->Some_0.1@ == d,
            None => r is None,
        },
{
    if str_eq(code, "H") {
        Some(("begleitperson", "Begleitperson"))
    } else if str_eq(code, "TS") {
        Some(("teilstationaer", "Teilstationäre Behandlung"))
    } else if str_eq(code, "NS") {
        Some(("nachstationaer", "Nachstationär"))
    } else if str_eq(code, "UB") {
        Some(("ub", "Untersuchung und Behandlung"))
    } else {
        None
    }
}

/// Maps `PV1.2` onto the contact kind; inpatient and outpatient codes have
/// none.
pub fn map_kontaktart(code: &str) -> (r: Option<Coding>)
    ensures
        match kontaktart_coding_of(code@) {
            Some(c) => r is Some && r->Some_0@ == c,
            None => r is None,
        },
{
    match kontaktart_entry(code) {
        Some((c, d)) => Some(Coding {
            system: "http://fhir.de/CodeSystem/kontaktart-de".to_string(),
            code: c.to_string(),
            display: Some(d.to_string()),
        }),
        None => None,
    }
}

/// The code and display of the admission reason for `PV1.4.1`.
pub open spec fn admit_source_of(code: Seq<char>) -> Option<(Seq<char>, Seq<char>)> {
    if code == "E"@ {
        Some(("E"@, "Einweisung durch einen Arzt"@))
    } else if code == "Z"@ {
        Some(("Z"@, "Einweisung durch einen Zahnarzt"@))
    } else if code == "N"@ {
        Some(("N"@, "Notfall"@))
    } else if code == "R"@ {
        Some(("R"@, "Aufnahme nach vorausgehender Behandlung in einer Rehabilitationseinrichtung"@))
    } else if code == "V"@ {
        Some(("V"@, "Verlegung mit Behandlungsdauer im verlegenden Krankenhaus länger als 24 Stunden"@))
    } else if code == "A"@ {
        Some(("A"@, "Verlegung mit Behandlungsdauer im verlegenden Krankenhaus bis zu 24 Stunden"@))
    } else if code == "G"@ {
        Some(("G"@, "Geburt"@))
    } else if code == "B"@ {
        Some(("B"@, "Begleitperson oder mitaufgenommene Pflegekraft"@))
    } else {
        None
    }
}

/// The admission reason concept for `PV1.4.1`, or the fault for a code
/// outside the table.
pub open spec fn admit_source_concept_of(code: Seq<char>) -> Result<Seq<CodingView>, MappingErrorView> {
    match admit_source_of(code) {
        Some((c, d)) => Ok(seq![CodingView { system: "http://fhir.de/CodeSystem/dgkev/Aufnahmeanlass"@, code: c, display: Some(d) }]),
        None => Err(MappingErrorView::MessageContentUnexpected("PV1.4"@, "E, Z, N, R, V, A, G or B"@)),
    }
}

fn admit_source_entry(code: &str) -> (r: Option<(&'static str, &'static str)>)
    ensures
        match admit_source_of(code@) {
            Some((c, d)) => r is Some && r->Some_0.0@ == c && r->Some_0.1@ == d,
            None => r is None,
        },
{
    if str_eq(code, "E") {
        Some(("E", "Einweisung durch einen Arzt"))
    } else if str_eq(code, "Z") {
        Some(("Z", "Einweisung durch einen Zahnarzt"))
    } else if str_eq(code, "N") {
        Some(("N", "Notfall"))
    } else if str_eq(code, "R") {
        Some(("R", "Aufnahme nach vorausgehender Behandlung in einer Rehabilitationseinrichtung"))
    } else if str_eq(code, "V") {
        Some(("V", "Verlegung mit Behandlungsdauer im verlegenden Krankenhaus länger als 24 Stunden"))
    } else if str_eq(code, "A") {
        Some(("A", "Verlegung mit Behandlungsdauer im verlegenden Krankenhaus bis zu 24 Stunden"))
    } else if str_eq(code, "G") {
        Some(("G", "Geburt"))
    } else if str_eq(code, "B") {
        Some(("B", "Begleitperson oder mitaufgenommene Pflegekraft"))
    } else {
        None
    }
}

/// Maps `PV1.4.1` onto the admission reason; any code outside the table is
/// a fault.
pub fn map_admit_source(code: &str) -> (r: Result<CodeableConcept, MappingError>)
    ensures
        agrees(r, admit_source_concept_of(code@)),
{
    match admit_source_entry(code) {
        Some((c, d)) => {
            let coding = Coding {
                system: "http://fhir.de/CodeSystem/dgkev/Aufnahmeanlass".to_string(),
                code: c.to_string(),
                display: Some(d.to_string()),
            };
            let r = CodeableConcept { coding: vec![coding] };
            assert(r@ =~= seq![coding@]);
            Ok(r)
        },
        None => Err(MappingError::MessageContentUnexpected("PV1.4".to_string(), "E, Z, N, R, V, A, G or B".to_string())),
    }
}

} // verus!
