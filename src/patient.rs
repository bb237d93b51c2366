//! The Patient mapper: a Patient resource from `PID`, or a Patient-merge
//! patch from `PID` and `MRG`, and the entries each event type asks for.
use vstd::prelude::*;
use crate::bundle::{
    conditional_url_of, entry_of, resource_entry, resource_entry_of, resource_ref, routed_entry,
    RequestKind,
};
use crate::codes::{gender_of, map_gender, map_marital_status, marital_code_of, marital_system};
use crate::config::Fhir;
use crate::datetime::{date_of, datetime_of, parse_date, parse_datetime, FormattingError};
use crate::error::{
    agrees, agrees_opt, agrees_vec, from_access, from_formatting, MappingError, MappingErrorView,
};
use crate::hl7::{
    comp_at, component_at, components, field_in, has_segment, hl7_components_of, subcomponents,
    subcomponents_in, AccessErrorView, Hl7Message, MessageAccessError, SegmentView,
};
use crate::message_type::MessageType;
use crate::model::{
    Address, AddressType, AddressView, BundleEntry, CodeableConcept, CodingView, DeceasedView,
    EntryView, Extension, HumanName, HumanNameView, Identifier, IdentifierUse, IdentifierView,
    NameUse, PatchParameters, PatchParametersView, Patient, PatientDeceased, PatientMultipleBirth,
    PatientView, Resource, ResourceType, ResourceView,
};
use crate::text::{decimal_of, opt_view, parse_decimal, str_eq};

verus! {

/// Field `i` of `PID`.
pub open spec fn pid(m: Seq<SegmentView>, i: int) -> Option<Seq<char>> {
    field_in(m, "PID"@, i)
}

/// The fault of text that the parser rejects.
pub open spec fn parse_fault() -> MappingErrorView {
    MappingErrorView::MessageAccessError(AccessErrorView::ParseError)
}

/// The name use for component 7 of a name: `L` official, `M` or `B` maiden.
pub open spec fn name_use_of(code: Option<Seq<char>>) -> Option<NameUse> {
    match code {
        Some(c) => if c == "L"@ {
            Some(NameUse::Official)
        } else if c == "M"@ || c == "B"@ {
            Some(NameUse::Maiden)
        } else {
            None
        },
        None => None,
    }
}

/// A list of the value, if there is one.
pub open spec fn opt_list(v: Option<Seq<char>>) -> Seq<Seq<char>> {
    match v {
        Some(x) => seq![x],
        None => Seq::empty(),
    }
}

pub open spec fn namenszusatz_url() -> Seq<char> {
    "http://fhir.de/StructureDefinition/humanname-namenszusatz"@
}

pub open spec fn own_prefix_url() -> Seq<char> {
    "http://hl7.org/fhir/StructureDefinition/humanname-own-prefix"@
}

pub open spec fn qualifier_url() -> Seq<char> {
    "http://hl7.org/fhir/StructureDefinition/iso21090-EN-qualifier"@
}

/// The name that the components of an XPN field give: family name 1, given
/// name 2, name affix 4, own prefix 5 (which wins over the affix), academic
/// prefix 6, name use 7; a maiden name always has use `maiden`.
pub open spec fn human_name_of(cs: Seq<Seq<char>>, maiden: bool) -> HumanNameView {
    HumanNameView {
        use_: if maiden { Some(NameUse::Maiden) } else { name_use_of(comp_at(cs, 7)) },
        family: comp_at(cs, 1),
        family_extension: match comp_at(cs, 5) {
            Some(p) => Some((own_prefix_url(), p)),
            None => match comp_at(cs, 4) {
                Some(z) => Some((namenszusatz_url(), z)),
                None => None,
            },
        },
        given: opt_list(comp_at(cs, 2)),
        prefix: opt_list(comp_at(cs, 6)),
        prefix_extension: match comp_at(cs, 6) {
            Some(_) => Some((qualifier_url(), "AC"@)),
            None => None,
        },
    }
}

/// The name in field `idx` of `PID`, if the field is present.
pub open spec fn names_in(m: Seq<SegmentView>, idx: int, maiden: bool) -> Result<Seq<HumanNameView>, MappingErrorView> {
    match pid(m, idx) {
        None => Ok(Seq::empty()),
        Some(f) => match hl7_components_of(f) {
            None => Err(parse_fault()),
            Some(cs) => Ok(seq![human_name_of(cs, maiden)]),
        },
    }
}

/// The names of the patient: from `PID.5`, then the maiden name of `PID.6`.
pub open spec fn names_of(m: Seq<SegmentView>) -> Result<Seq<HumanNameView>, MappingErrorView> {
    match names_in(m, 5, false) {
        Err(e) => Err(e),
        Ok(a) => match names_in(m, 6, true) {
            Err(e) => Err(e),
            Ok(b) => Ok(a + b),
        },
    }
}

/// The birth date from `PID.7`.
pub open spec fn birth_date_of(m: Seq<SegmentView>) -> Result<Option<Seq<char>>, MappingErrorView> {
    match pid(m, 7) {
        None => Ok(None),
        Some(f) => match date_of(f) {
            Ok(d) => Ok(Some(d)),
            Err(e) => Err(MappingErrorView::FormattingError(e)),
        },
    }
}

/// The address from `PID.11`: street lines from the subcomponents of
/// component 1, city 3, postal code 5, country 6.
pub open spec fn addresses_of(m: Seq<SegmentView>) -> Result<Seq<AddressView>, MappingErrorView> {
    match pid(m, 11) {
        None => Ok(Seq::empty()),
        Some(f) => match hl7_components_of(f) {
            None => Err(parse_fault()),
            Some(cs) => match subcomponents_in(f, 1) {
                None => Err(parse_fault()),
                Some(line) => Ok(seq![AddressView {
                    type_: AddressType::Both,
                    line,
                    city: comp_at(cs, 3),
                    postal_code: comp_at(cs, 5),
                    country: comp_at(cs, 6),
                }]),
            },
        },
    }
}

/// The marital status from `PID.16.1`.
pub open spec fn marital_status_of(m: Seq<SegmentView>) -> Result<Option<Seq<CodingView>>, MappingErrorView> {
    match pid(m, 16) {
        None => Ok(None),
        Some(f) => match hl7_components_of(f) {
            None => Err(parse_fault()),
            Some(cs) => match comp_at(cs, 1) {
                None => Ok(None),
                Some(c) => Ok(Some(seq![CodingView { system: marital_system(), code: marital_code_of(c), display: None }])),
            },
        },
    }
}

/// The multiple-birth value for the flag of `PID.24` and the birth order of
/// `PID.25`.
pub open spec fn multiple_birth_of(flag: Option<Seq<char>>, number: Option<Seq<char>>) -> Result<Option<PatientMultipleBirth>, MappingErrorView> {
    match flag {
        None => match number {
            None => Ok(None),
            Some(_) => Err(MappingErrorView::MessageContentUnexpected("PID.24"@, "Y or N"@)),
        },
        Some(f) => if f == "Y"@ {
            match number {
                None => Ok(Some(PatientMultipleBirth::Boolean(true))),
                Some(n) => match decimal_of(n) {
                    Some(v) => Ok(Some(PatientMultipleBirth::Integer(v as u32))),
                    None => Err(MappingErrorView::FormattingError(crate::datetime::FormattingErrorView::InvalidNumber(n))),
                },
            }
        } else if f == "N"@ {
            match number {
                None => Ok(Some(PatientMultipleBirth::Boolean(false))),
                Some(_) => Err(MappingErrorView::MessageContentUnexpected("PID.24"@, "Y"@)),
            }
        } else {
            Err(MappingErrorView::MessageContentUnexpected("PID.24"@, "Y or N"@))
        },
    }
}

/// The vital status: the time of death of `PID.29` where present, else
/// whether `PID.30` says `Y`.
pub open spec fn deceased_of(m: Seq<SegmentView>) -> Result<Option<DeceasedView>, MappingErrorView> {
    match pid(m, 29) {
        Some(t) => match datetime_of(t) {
            Ok(v) => Ok(Some(DeceasedView::DateTime(v))),
            Err(e) => Err(MappingErrorView::FormattingError(e)),
        },
        None => match pid(m, 30) {
            Some(c) => Ok(Some(DeceasedView::Boolean(c == "Y"@))),
            None => Ok(None),
        },
    }
}

/// The routing identifier of a patient.
pub open spec fn patient_identifier_of(system: Seq<char>, value: Seq<char>) -> IdentifierView {
    IdentifierView { use_: IdentifierUse::Usual, system, value, type_: None }
}

/// The fault of a Patient identifier without a system.
pub open spec fn missing_system() -> MappingErrorView {
    MappingErrorView::BuilderError("identifier.system missing"@)
}

/// The fault of a missing required field.
pub open spec fn missing_field(idx: Seq<char>, seg: Seq<char>) -> MappingErrorView {
    MappingErrorView::MessageAccessError(AccessErrorView::MissingMessageField(idx, seg))
}

/// The fault of a missing segment.
pub open spec fn missing_segment(seg: Seq<char>) -> MappingErrorView {
    MappingErrorView::MessageAccessError(AccessErrorView::MissingMessageSegment(seg))
}

/// The Patient that `PID` describes; without `PID`, `PID.2` or a person
/// identifier system there is none.
pub open spec fn patient_of(m: Seq<SegmentView>, config: Fhir) -> Result<PatientView, MappingErrorView> {
    if !has_segment(m, "PID"@) {
        Err(missing_segment("PID"@))
    } else {
        match pid(m, 2) {
            None => Err(missing_field("2"@, "PID"@)),
            Some(id) => if config.person.system@.len() == 0 {
                Err(missing_system())
            } else { match names_of(m) {
                Err(e) => Err(e),
                Ok(name) => match birth_date_of(m) {
                    Err(e) => Err(e),
                    Ok(birth_date) => match addresses_of(m) {
                        Err(e) => Err(e),
                        Ok(address) => match marital_status_of(m) {
                            Err(e) => Err(e),
                            Ok(marital_status) => match multiple_birth_of(pid(m, 24), pid(m, 25)) {
                                Err(e) => Err(e),
                                Ok(multiple_birth) => match deceased_of(m) {
                                    Err(e) => Err(e),
                                    Ok(deceased) => Ok(PatientView {
                                        profile: config.person.profile@,
                                        identifier: seq![patient_identifier_of(config.person.system@, id)],
                                        name,
                                        birth_date,
                                        gender: Some(gender_of(match pid(m, 8) { Some(g) => g, None => Seq::empty() })),
                                        address,
                                        marital_status,
                                        deceased,
                                        multiple_birth,
                                    }),
                                },
                            },
                        },
                    },
                },
            } },
        }
    }
}

fn opt_to_vec(o: Option<String>) -> (r: Vec<String>)
    ensures
        r@.map_values(|s: String| s@) == opt_list(opt_view(o)),
{
    match o {
        Some(s) => {
            let r = vec![s];
            assert(r@.map_values(|s: String| s@) =~= opt_list(opt_view(o)));
            r
        },
        None => {
            let r: Vec<String> = Vec::new();
            assert(r@.map_values(|s: String| s@) =~= opt_list(opt_view(o)));
            r
        },
    }
}

fn name_use(code: Option<String>) -> (r: Option<NameUse>)
    ensures
        r == name_use_of(opt_view(code)),
{
    match code {
        Some(c) => if str_eq(c.as_str(), "L") {
            Some(NameUse::Official)
        } else if str_eq(c.as_str(), "M") || str_eq(c.as_str(), "B") {
            Some(NameUse::Maiden)
        } else {
            None
        },
        None => None,
    }
}

/// Builds a name from the components of an XPN field.
pub fn build_human_name(cs: &Vec<String>, maiden: bool) -> (r: HumanName)
    ensures
        r@ == human_name_of(cs@.map_values(|s: String| s@), maiden),
{
    let family = component_at(cs, 1);
    let given = component_at(cs, 2);
    let affix = component_at(cs, 4);
    let own_prefix = component_at(cs, 5);
    let prefix = component_at(cs, 6);
    let use_ = if maiden {
        Some(NameUse::Maiden)
    } else {
        name_use(component_at(cs, 7))
    };
    let family_extension = match own_prefix {
        Some(p) => Some(Extension { url: "http://hl7.org/fhir/StructureDefinition/humanname-own-prefix".to_string(), value: p }),
        None => match affix {
            Some(z) => Some(Extension { url: "http://fhir.de/StructureDefinition/humanname-namenszusatz".to_string(), value: z }),
            None => None,
        },
    };
    let prefix_extension = match &prefix {
        Some(_) => Some(Extension { url: "http://hl7.org/fhir/StructureDefinition/iso21090-EN-qualifier".to_string(), value: "AC".to_string() }),
        None => None,
    };
    HumanName {
        use_,
        family,
        family_extension,
        given: opt_to_vec(given),
        prefix: opt_to_vec(prefix),
        prefix_extension,
    }
}

fn map_names_in(msg: &Hl7Message, idx: usize, maiden: bool) -> (r: Result<Vec<HumanName>, MappingError>)
    ensures
        agrees_vec(r, names_in(msg@, idx as int, maiden)),
{
    match msg.optional_field("PID", idx) {
        None => {
            let v: Vec<HumanName> = Vec::new();
            assert(v@.map_values(|n: HumanName| n@) =~= Seq::empty());
            Ok(v)
        },
        Some(f) => {
            let cs = from_access(components(f.as_str()))?;
            let n = build_human_name(&cs, maiden);
            let v = vec![n];
            assert(v@.map_values(|n: HumanName| n@) =~= seq![n@]);
            Ok(v)
        },
    }
}

fn map_names(msg: &Hl7Message) -> (r: Result<Vec<HumanName>, MappingError>)
    ensures
        agrees_vec(r, names_of(msg@)),
{
    let mut a = map_names_in(msg, 5, false)?;
    let mut b = map_names_in(msg, 6, true)?;
    let ghost av = a@;
    let ghost bv = b@;
    a.append(&mut b);
    assert(a@ =~= av + bv);
    assert(a@.map_values(|n: HumanName| n@) =~= av.map_values(|n: HumanName| n@) + bv.map_values(|n: HumanName| n@));
    Ok(a)
}

fn map_birth_date(msg: &Hl7Message) -> (r: Result<Option<String>, MappingError>)
    ensures
        agrees_opt(r, birth_date_of(msg@)),
{
    match msg.optional_field("PID", 7) {
        None => Ok(None),
        Some(f) => Ok(Some(from_formatting(parse_date(f.as_str()))?)),
    }
}

fn map_addresses(msg: &Hl7Message) -> (r: Result<Vec<Address>, MappingError>)
    ensures
        agrees_vec(r, addresses_of(msg@)),
{
    match msg.optional_field("PID", 11) {
        None => {
            let v: Vec<Address> = Vec::new();
            assert(v@.map_values(|a: Address| a@) =~= Seq::empty());
            Ok(v)
        },
        Some(f) => {
            let cs = from_access(components(f.as_str()))?;
            let line = from_access(subcomponents(f.as_str(), 1))?;
            let a = Address {
                type_: AddressType::Both,
                line,
                city: component_at(&cs, 3),
                postal_code: component_at(&cs, 5),
                country: component_at(&cs, 6),
            };
            let v = vec![a];
            assert(v@.map_values(|a: Address| a@) =~= seq![a@]);
            Ok(v)
        },
    }
}

fn map_marital(msg: &Hl7Message) -> (r: Result<Option<CodeableConcept>, MappingError>)
    ensures
        agrees_opt(r, marital_status_of(msg@)),
{
    match msg.optional_field("PID", 16) {
        None => Ok(None),
        Some(f) => {
            let cs = from_access(components(f.as_str()))?;
            match component_at(&cs, 1) {
                None => Ok(None),
                Some(c) => Ok(Some(map_marital_status(c.as_str()))),
            }
        },
    }
}

/// Maps the multiple-birth flag (`PID.24`) and birth order (`PID.25`):
/// no values give none; `Y` alone true; `N` alone false; `Y` with a number
/// that number; `N` with a number, or any other flag, is a fault.
pub fn map_multiple_birth(flag: Option<String>, number: Option<String>) -> (r: Result<Option<PatientMultipleBirth>, MappingError>)
    ensures
        match multiple_birth_of(opt_view(flag), opt_view(number)) {
            Ok(v) => r is Ok && r->Ok_0 == v,
            Err(e) => r is Err && r->Err_0@ == e,
        },
{
    match flag {
        None => match number {
            None => Ok(None),
            Some(_) => Err(MappingError::MessageContentUnexpected("PID.24".to_string(), "Y or N".to_string())),
        },
        Some(f) => if str_eq(f.as_str(), "Y") {
            match number {
                None => Ok(Some(PatientMultipleBirth::Boolean(true))),
                Some(n) => match parse_decimal(n.as_str()) {
                    Some(v) => Ok(Some(PatientMultipleBirth::Integer(v))),
                    None => Err(MappingError::FormattingError(FormattingError::InvalidNumber(n))),
                },
            }
        } else if str_eq(f.as_str(), "N") {
            match number {
                None => Ok(Some(PatientMultipleBirth::Boolean(false))),
                Some(_) => Err(MappingError::MessageContentUnexpected("PID.24".to_string(), "Y".to_string())),
            }
        } else {
            Err(MappingError::MessageContentUnexpected("PID.24".to_string(), "Y or N".to_string()))
        },
    }
}

fn map_deceased(msg: &Hl7Message) -> (r: Result<Option<PatientDeceased>, MappingError>)
    ensures
        agrees_opt(r, deceased_of(msg@)),
{
    match msg.optional_field("PID", 29) {
        Some(t) => Ok(Some(PatientDeceased::DateTime(from_formatting(parse_datetime(t.as_str()))?))),
        None => match msg.optional_field("PID", 30) {
            Some(c) => Ok(Some(PatientDeceased::Boolean(str_eq(c.as_str(), "Y")))),
            None => Ok(None),
        },
    }
}

/// Builds the Patient that `PID` describes.
pub fn map_patient_resource(msg: &Hl7Message, config: &Fhir) -> (r: Result<Patient, MappingError>)
    ensures
        agrees(r, patient_of(msg@, *config)),
{
    if !msg.has_segment("PID") {
        return Err(MappingError::MessageAccessError(MessageAccessError::MissingMessageSegment("PID".to_string())));
    }
    let id = match msg.optional_field("PID", 2) {
        None => {
            return Err(MappingError::MessageAccessError(MessageAccessError::MissingMessageField("2".to_string(), "PID".to_string())));
        },
        Some(id) => id,
    };
    if config.person.system.as_str().unicode_len() == 0 {
        return Err(MappingError::BuilderError("identifier.system missing".to_string()));
    }
    let name = map_names(msg)?;
    let birth_date = map_birth_date(msg)?;
    let address = map_addresses(msg)?;
    let marital_status = map_marital(msg)?;
    let multiple_birth = map_multiple_birth(msg.optional_field("PID", 24), msg.optional_field("PID", 25))?;
    let deceased = map_deceased(msg)?;
    let gender = match msg.optional_field("PID", 8) {
        Some(g) => map_gender(g.as_str()),
        None => map_gender(String::new().as_str()),
    };
    let identifier = Identifier {
        use_: IdentifierUse::Usual,
        system: config.person.system.clone(),
        value: id,
        type_: None,
    };
    let identifiers = vec![identifier];
    assert(identifiers@.map_values(|i: Identifier| i@) =~= seq![identifier@]);
    Ok(Patient {
        profile: config.person.profile.clone(),
        identifier: identifiers,
        name,
        birth_date,
        gender: Some(gender),
        address,
        marital_status,
        deceased,
        multiple_birth,
    })
}

/// The patch that links the record named in `MRG.1` to the patient
/// `system|value` of `PID.2`, as `replaced-by`.
pub open spec fn merge_parameters_of(system: Seq<char>, value: Seq<char>) -> PatchParametersView {
    PatchParametersView {
        operation_type: "add"@,
        path: "Patient"@,
        name: "link"@,
        other: conditional_url_of(ResourceType::Patient, system, value),
        link_type: "replaced-by"@,
    }
}

/// The Patch entry of a Patient merge: it targets the record of `MRG.1`
/// under the person system, and refers to the record of `PID.2`.
pub open spec fn merge_entry_of(m: Seq<SegmentView>, config: Fhir) -> Result<EntryView, MappingErrorView> {
    if !has_segment(m, "PID"@) {
        Err(missing_segment("PID"@))
    } else {
        match pid(m, 2) {
            None => Err(missing_field("2"@, "PID"@)),
            Some(id) => if !has_segment(m, "MRG"@) {
                Err(missing_segment("MRG"@))
            } else {
                match field_in(m, "MRG"@, 1) {
                    None => Err(missing_field("1"@, "MRG"@)),
                    Some(prior) => if config.person.system@.len() == 0 {
                        Err(missing_system())
                    } else {
                        Ok(entry_of(
                            RequestKind::Patch,
                            ResourceType::Patient,
                            ResourceView::Parameters(merge_parameters_of(config.person.system@, id)),
                            config.person.system@,
                            prior,
                        ))
                    },
                }
            },
        }
    }
}

/// Builds the Patch entry of a Patient merge from `PID.2` and `MRG.1`.
pub fn map_patient_merge(msg: &Hl7Message, config: &Fhir) -> (r: Result<BundleEntry, MappingError>)
    ensures
        agrees(r, merge_entry_of(msg@, *config)),
{
    if !msg.has_segment("PID") {
        return Err(MappingError::MessageAccessError(MessageAccessError::MissingMessageSegment("PID".to_string())));
    }
    let id = match msg.optional_field("PID", 2) {
        None => {
            return Err(MappingError::MessageAccessError(MessageAccessError::MissingMessageField("2".to_string(), "PID".to_string())));
        },
        Some(id) => id,
    };
    if !msg.has_segment("MRG") {
        return Err(MappingError::MessageAccessError(MessageAccessError::MissingMessageSegment("MRG".to_string())));
    }
    let prior = match msg.optional_field("MRG", 1) {
        None => {
            return Err(MappingError::MessageAccessError(MessageAccessError::MissingMessageField("1".to_string(), "MRG".to_string())));
        },
        Some(prior) => prior,
    };
    if config.person.system.as_str().unicode_len() == 0 {
        return Err(MappingError::BuilderError("identifier.system missing".to_string()));
    }
    let params = PatchParameters {
        operation_type: "add".to_string(),
        path: "Patient".to_string(),
        name: "link".to_string(),
        other: resource_ref(ResourceType::Patient, config.person.system.as_str(), id.as_str()),
        link_type: "replaced-by".to_string(),
    };
    let target = Identifier {
        use_: IdentifierUse::Usual,
        system: config.person.system.clone(),
        value: prior,
        type_: None,
    };
    Ok(routed_entry(RequestKind::Patch, ResourceType::Patient, Resource::Parameters(params), &target))
}

/// What the Patient mapper does for an event type.
#[derive(PartialEq, Eq, Structural, Clone, Copy, Debug)]
pub enum PatientPlan {
    /// Build the Patient and store it with a request of this kind.
    Store(RequestKind),
    /// Build the merge patch.
    Merge,
    /// Produce no entry.
    Skip,
    /// The event type has no Patient mapping.
    Reject,
}

/// The Patient mapper's plan: admit, registration, pre-admit, the
/// in/outpatient changes and updates write the Patient with an update that
/// creates; transfer, discharge and person changes create it unless present;
/// merges patch it; cancellations and pending admits produce nothing.
pub open spec fn patient_plan_of(t: MessageType) -> PatientPlan {
    match t {
        MessageType::Admit | MessageType::Registration | MessageType::PreAdmit
        | MessageType::ChangeOutpatientToInpatient | MessageType::ChangeInpatientToOutpatient
        | MessageType::PatientUpdate => PatientPlan::Store(RequestKind::UpdateAsCreate),
        MessageType::Transfer | MessageType::Discharge | MessageType::ChangePersonData => PatientPlan::Store(
            RequestKind::ConditionalCreate,
        ),
        MessageType::PatientMerge | MessageType::MergePatientRecords => PatientPlan::Merge,
        MessageType::CancelAdmitVisit | MessageType::CancelTransfer | MessageType::CancelDischarge
        | MessageType::PendingAdmit | MessageType::CancelPendingAdmit => PatientPlan::Skip,
        _ => PatientPlan::Reject,
    }
}

/// The Patient mapper's plan for an event type.
pub fn patient_plan(t: MessageType) -> (r: PatientPlan)
    ensures
        r == patient_plan_of(t),
{
    match t {
        MessageType::Admit | MessageType::Registration | MessageType::PreAdmit
        | MessageType::ChangeOutpatientToInpatient | MessageType::ChangeInpatientToOutpatient
        | MessageType::PatientUpdate => PatientPlan::Store(RequestKind::UpdateAsCreate),
        MessageType::Transfer | MessageType::Discharge | MessageType::ChangePersonData => PatientPlan::Store(
            RequestKind::ConditionalCreate,
        ),
        MessageType::PatientMerge | MessageType::MergePatientRecords => PatientPlan::Merge,
        MessageType::CancelAdmitVisit | MessageType::CancelTransfer | MessageType::CancelDischarge
        | MessageType::PendingAdmit | MessageType::CancelPendingAdmit => PatientPlan::Skip,
        _ => PatientPlan::Reject,
    }
}

/// The entries that the Patient mapper produces for a message of type `t`.
pub open spec fn patient_entries_of(m: Seq<SegmentView>, t: MessageType, config: Fhir) -> Result<Seq<EntryView>, MappingErrorView> {
    match patient_plan_of(t) {
        PatientPlan::Store(kind) => match patient_of(m, config) {
            Err(e) => Err(e),
            Ok(p) => match resource_entry_of(kind, ResourceType::Patient, ResourceView::Patient(p)) {
                Err(e) => Err(e),
                Ok(entry) => Ok(seq![entry]),
            },
        },
        PatientPlan::Merge => match merge_entry_of(m, config) {
            Err(e) => Err(e),
            Ok(entry) => Ok(seq![entry]),
        },
        PatientPlan::Skip => Ok(Seq::empty()),
        PatientPlan::Reject => Err(MappingErrorView::InvalidMessageType(t)),
    }
}

/// The Patient entries for a message of type `t`.
pub fn map_patient(msg: &Hl7Message, t: MessageType, config: &Fhir) -> (r: Result<Vec<BundleEntry>, MappingError>)
    ensures
        agrees_vec(r, patient_entries_of(msg@, t, *config)),
{
    let entry = match patient_plan(t) {
        PatientPlan::Store(kind) => {
            let p = map_patient_resource(msg, config)?;
            resource_entry(kind, ResourceType::Patient, Resource::Patient(p))?
        },
        PatientPlan::Merge => map_patient_merge(msg, config)?,
        PatientPlan::Skip => {
            let v: Vec<BundleEntry> = Vec::new();
            assert(v@.map_values(|e: BundleEntry| e@) =~= Seq::empty());
            return Ok(v);
        },
        PatientPlan::Reject => {
            return Err(MappingError::InvalidMessageType(t));
        },
    };
    let v = vec![entry];
    assert(v@.map_values(|e: BundleEntry| e@) =~= seq![entry@]);
    Ok(v)
}

} // verus!
