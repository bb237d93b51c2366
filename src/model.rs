//! The FHIR R4B resources that the engine produces, reduced to the elements
//! it fills, each with its mathematical view.
use vstd::prelude::*;
use crate::datetime::FhirDateTime;
use crate::text::opt_view;

verus! {

#[derive(PartialEq, Eq, Structural, Clone, Copy, Debug)]
pub enum IdentifierUse {
    Usual,
    Official,
    Secondary,
}

#[derive(PartialEq, Eq, Structural, Clone, Copy, Debug)]
pub enum AdministrativeGender {
    Male,
    Female,
    Other,
    Unknown,
}

#[derive(PartialEq, Eq, Structural, Clone, Copy, Debug)]
pub enum NameUse {
    Official,
    Maiden,
}

#[derive(PartialEq, Eq, Structural, Clone, Copy, Debug)]
pub enum AddressType {
    Both,
}

#[derive(PartialEq, Eq, Structural, Clone, Copy, Debug)]
pub enum EncounterStatus {
    Planned,
    InProgress,
    Finished,
    Unknown,
}

#[derive(PartialEq, Eq, Structural, Clone, Copy, Debug)]
pub enum HttpVerb {
    Put,
    Post,
    Patch,
}

#[derive(PartialEq, Eq, Structural, Clone, Copy, Debug)]
pub enum BundleType {
    Transaction,
}

/// The resource types that requests and references name.
#[derive(PartialEq, Eq, Structural, Clone, Copy, Debug)]
pub enum ResourceType {
    Patient,
    Encounter,
    Organization,
}

/// The name of a resource type as it stands in a URL.
pub open spec fn resource_type_name(t: ResourceType) -> Seq<char> {
    match t {
        ResourceType::Patient => "Patient"@,
        ResourceType::Encounter => "Encounter"@,
        ResourceType::Organization => "Organization"@,
    }
}

impl ResourceType {
    /// The name of the type as it stands in a URL, such as `Patient`.
    pub fn name(&self) -> (r: &'static str)
        ensures
            r@ == resource_type_name(*self),
    {
        match self {
            ResourceType::Patient => "Patient",
            ResourceType::Encounter => "Encounter",
            ResourceType::Organization => "Organization",
        }
    }
}

#[derive(Clone)]
pub struct Coding {
    pub system: String,
    pub code: String,
    pub display: Option<String>,
}

pub struct CodingView {
    pub system: Seq<char>,
    pub code: Seq<char>,
    pub display: Option<Seq<char>>,
}

impl View for Coding {
    type V = CodingView;

    open spec fn view(&self) -> CodingView {
        CodingView { system: self.system@, code: self.code@, display: opt_view(self.display) }
    }
}

#[derive(Clone)]
pub struct CodeableConcept {
    pub coding: Vec<Coding>,
}

impl View for CodeableConcept {
    type V = Seq<CodingView>;

    open spec fn view(&self) -> Seq<CodingView> {
        self.coding@.map_values(|c: Coding| c@)
    }
}

pub open spec fn opt_concept_view(c: Option<CodeableConcept>) -> Option<Seq<CodingView>> {
    match c {
        Some(c) => Some(c@),
        None => None,
    }
}

#[derive(Clone)]
pub struct Identifier {
    pub use_: IdentifierUse,
    pub system: String,
    pub value: String,
    pub type_: Option<CodeableConcept>,
}

pub struct IdentifierView {
    pub use_: IdentifierUse,
    pub system: Seq<char>,
    pub value: Seq<char>,
    pub type_: Option<Seq<CodingView>>,
}

impl View for Identifier {
    type V = IdentifierView;

    open spec fn view(&self) -> IdentifierView {
        IdentifierView { use_: self.use_, system: self.system@, value: self.value@, type_: opt_concept_view(self.type_) }
    }
}

/// A reference to a resource by the text of its `reference` element.
#[derive(Clone)]
pub struct Reference {
    pub reference: String,
}

impl View for Reference {
    type V = Seq<char>;

    open spec fn view(&self) -> Seq<char> {
        self.reference@
    }
}

pub open spec fn opt_reference_view(r: Option<Reference>) -> Option<Seq<char>> {
    match r {
        Some(r) => Some(r@),
        None => None,
    }
}

#[derive(Clone)]
pub struct Extension {
    pub url: String,
    pub value: String,
}

impl View for Extension {
    type V = (Seq<char>, Seq<char>);

    open spec fn view(&self) -> (Seq<char>, Seq<char>) {
        (self.url@, self.value@)
    }
}

pub open spec fn opt_extension_view(e: Option<Extension>) -> Option<(Seq<char>, Seq<char>)> {
    match e {
        Some(e) => Some(e@),
        None => None,
    }
}

pub open spec fn strings_view(v: Vec<String>) -> Seq<Seq<char>> {
    v@.map_values(|s: String| s@)
}

#[derive(Clone)]
pub struct HumanName {
    pub use_: Option<NameUse>,
    pub family: Option<String>,
    pub family_extension: Option<Extension>,
    pub given: Vec<String>,
    pub prefix: Vec<String>,
    pub prefix_extension: Option<Extension>,
}

pub struct HumanNameView {
    pub use_: Option<NameUse>,
    pub family: Option<Seq<char>>,
    pub family_extension: Option<(Seq<char>, Seq<char>)>,
    pub given: Seq<Seq<char>>,
    pub prefix: Seq<Seq<char>>,
    pub prefix_extension: Option<(Seq<char>, Seq<char>)>,
}

impl View for HumanName {
    type V = HumanNameView;

    open spec fn view(&self) -> HumanNameView {
        HumanNameView {
            use_: self.use_,
            family: opt_view(self.family),
            family_extension: opt_extension_view(self.family_extension),
            given: strings_view(self.given),
            prefix: strings_view(self.prefix),
            prefix_extension: opt_extension_view(self.prefix_extension),
        }
    }
}

#[derive(Clone)]
pub struct Address {
    pub type_: AddressType,
    pub line: Vec<String>,
    pub city: Option<String>,
    pub postal_code: Option<String>,
    pub country: Option<String>,
}

pub struct AddressView {
    pub type_: AddressType,
    pub line: Seq<Seq<char>>,
    pub city: Option<Seq<char>>,
    pub postal_code: Option<Seq<char>>,
    pub country: Option<Seq<char>>,
}

impl View for Address {
    type V = AddressView;

    open spec fn view(&self) -> AddressView {
        AddressView {
            type_: self.type_,
            line: strings_view(self.line),
            city: opt_view(self.city),
            postal_code: opt_view(self.postal_code),
            country: opt_view(self.country),
        }
    }
}

#[derive(Clone)]
pub enum PatientDeceased {
    Boolean(bool),
    DateTime(FhirDateTime),
}

pub enum DeceasedView {
    Boolean(bool),
    DateTime((Seq<char>, int)),
}

impl View for PatientDeceased {
    type V = DeceasedView;

    open spec fn view(&self) -> DeceasedView {
        match self {
            PatientDeceased::Boolean(b) => DeceasedView::Boolean(*b),
            PatientDeceased::DateTime(t) => DeceasedView::DateTime(t@),
        }
    }
}

#[derive(Clone, Copy, PartialEq, Eq, Structural, Debug)]
pub enum PatientMultipleBirth {
    Boolean(bool),
    Integer(u32),
}

#[derive(Clone)]
pub struct Patient {
    pub profile: String,
    pub identifier: Vec<Identifier>,
    pub name: Vec<HumanName>,
    pub birth_date: Option<String>,
    pub gender: Option<AdministrativeGender>,
    pub address: Vec<Address>,
    pub marital_status: Option<CodeableConcept>,
    pub deceased: Option<PatientDeceased>,
    pub multiple_birth: Option<PatientMultipleBirth>,
}

pub struct PatientView {
    pub profile: Seq<char>,
    pub identifier: Seq<IdentifierView>,
    pub name: Seq<HumanNameView>,
    pub birth_date: Option<Seq<char>>,
    pub gender: Option<AdministrativeGender>,
    pub address: Seq<AddressView>,
    pub marital_status: Option<Seq<CodingView>>,
    pub deceased: Option<DeceasedView>,
    pub multiple_birth: Option<PatientMultipleBirth>,
}

pub open spec fn opt_deceased_view(d: Option<PatientDeceased>) -> Option<DeceasedView> {
    match d {
        Some(d) => Some(d@),
        None => None,
    }
}

impl View for Patient {
    type V = PatientView;

    open spec fn view(&self) -> PatientView {
        PatientView {
            profile: self.profile@,
            identifier: self.identifier@.map_values(|i: Identifier| i@),
            name: self.name@.map_values(|n: HumanName| n@),
            birth_date: opt_view(self.birth_date),
            gender: self.gender,
            address: self.address@.map_values(|a: Address| a@),
            marital_status: opt_concept_view(self.marital_status),
            deceased: opt_deceased_view(self.deceased),
            multiple_birth: self.multiple_birth,
        }
    }
}

#[derive(Clone)]
pub struct Period {
    pub start: FhirDateTime,
    pub end: Option<FhirDateTime>,
}

pub open spec fn opt_datetime_view(t: Option<FhirDateTime>) -> Option<(Seq<char>, int)> {
    match t {
        Some(t) => Some(t@),
        None => None,
    }
}

impl View for Period {
    type V = ((Seq<char>, int), Option<(Seq<char>, int)>);

    open spec fn view(&self) -> ((Seq<char>, int), Option<(Seq<char>, int)>) {
        (self.start@, opt_datetime_view(self.end))
    }
}

#[derive(Clone)]
pub struct Encounter {
    pub profile: String,
    /// The source of the data, in `meta.source`.
    pub source: String,
    pub identifier: Vec<Identifier>,
    pub status: EncounterStatus,
    pub class: Coding,
    pub type_: CodeableConcept,
    pub subject: Reference,
    pub service_type: Option<CodeableConcept>,
    pub service_provider: Option<Reference>,
    pub admit_source: Option<CodeableConcept>,
    pub period: Period,
}

pub struct EncounterView {
    pub profile: Seq<char>,
    pub source: Seq<char>,
    pub identifier: Seq<IdentifierView>,
    pub status: EncounterStatus,
    pub class: CodingView,
    pub type_: Seq<CodingView>,
    pub subject: Seq<char>,
    pub service_type: Option<Seq<CodingView>>,
    pub service_provider: Option<Seq<char>>,
    pub admit_source: Option<Seq<CodingView>>,
    pub period: ((Seq<char>, int), Option<(Seq<char>, int)>),
}

impl View for Encounter {
    type V = EncounterView;

    open spec fn view(&self) -> EncounterView {
        EncounterView {
            profile: self.profile@,
            source: self.source@,
            identifier: self.identifier@.map_values(|i: Identifier| i@),
            status: self.status,
            class: self.class@,
            type_: self.type_@,
            subject: self.subject@,
            service_type: opt_concept_view(self.service_type),
            service_provider: opt_reference_view(self.service_provider),
            admit_source: opt_concept_view(self.admit_source),
            period: self.period@,
        }
    }
}

/// A FHIR Patch `Parameters` resource with one `operation`: add to `path`
/// the element `name` with a `value` of an `other` reference and a link
/// `type`.
#[derive(Clone)]
pub struct PatchParameters {
    pub operation_type: String,
    pub path: String,
    pub name: String,
    pub other: Reference,
    pub link_type: String,
}

pub struct PatchParametersView {
    pub operation_type: Seq<char>,
    pub path: Seq<char>,
    pub name: Seq<char>,
    pub other: Seq<char>,
    pub link_type: Seq<char>,
}

impl View for PatchParameters {
    type V = PatchParametersView;

    open spec fn view(&self) -> PatchParametersView {
        PatchParametersView {
            operation_type: self.operation_type@,
            path: self.path@,
            name: self.name@,
            other: self.other@,
            link_type: self.link_type@,
        }
    }
}

#[derive(Clone)]
pub enum Resource {
    Patient(Patient),
    Encounter(Encounter),
    Parameters(PatchParameters),
}

pub enum ResourceView {
    Patient(PatientView),
    Encounter(EncounterView),
    Parameters(PatchParametersView),
}

impl View for Resource {
    type V = ResourceView;

    open spec fn view(&self) -> ResourceView {
        match self {
            Resource::Patient(p) => ResourceView::Patient(p@),
            Resource::Encounter(e) => ResourceView::Encounter(e@),
            Resource::Parameters(p) => ResourceView::Parameters(p@),
        }
    }
}

#[derive(Clone)]
pub struct BundleEntryRequest {
    pub method: HttpVerb,
    pub url: String,
    pub if_none_exist: Option<String>,
}

pub struct RequestView {
    pub method: HttpVerb,
    pub url: Seq<char>,
    pub if_none_exist: Option<Seq<char>>,
}

impl View for BundleEntryRequest {
    type V = RequestView;

    open spec fn view(&self) -> RequestView {
        RequestView { method: self.method, url: self.url@, if_none_exist: opt_view(self.if_none_exist) }
    }
}

#[derive(Clone)]
pub struct BundleEntry {
    pub resource: Resource,
    pub request: BundleEntryRequest,
}

pub struct EntryView {
    pub resource: ResourceView,
    pub request: RequestView,
}

impl View for BundleEntry {
    type V = EntryView;

    open spec fn view(&self) -> EntryView {
        EntryView { resource: self.resource@, request: self.request@ }
    }
}

pub open spec fn entries_view(v: Vec<BundleEntry>) -> Seq<EntryView> {
    v@.map_values(|e: BundleEntry| e@)
}

#[derive(Clone)]
pub struct Bundle {
    pub bundle_type: BundleType,
    pub entry: Vec<BundleEntry>,
}

impl View for Bundle {
    type V = (BundleType, Seq<EntryView>);

    open spec fn view(&self) -> (BundleType, Seq<EntryView>) {
        (self.bundle_type, entries_view(self.entry))
    }
}

} // verus!
