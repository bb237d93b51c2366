//! Identifiers, conditional references and the entries of a transaction
//! bundle.
use vstd::prelude::*;
use crate::error::{agrees, MappingError, MappingErrorView};
use crate::model::{
    Bundle, BundleEntry, BundleEntryRequest, BundleType, EntryView, HttpVerb, Identifier,
    IdentifierUse, IdentifierView, Reference, RequestView, Resource, ResourceType, ResourceView,
    entries_view, resource_type_name,
};

verus! {

/// `{type}?identifier={system}|{value}`: the search that finds a resource
/// by one of its identifiers.
pub open spec fn conditional_url_of(t: ResourceType, system: Seq<char>, value: Seq<char>) -> Seq<char> {
    resource_type_name(t) + "?identifier="@ + system + "|"@ + value
}

/// `identifier={system}|{value}`: the condition of a conditional create.
pub open spec fn if_none_exist_of(system: Seq<char>, value: Seq<char>) -> Seq<char> {
    "identifier="@ + system + "|"@ + value
}

/// The search URL of the resource of type `t` with the identifier
/// `system|value`.
pub fn conditional_url(t: ResourceType, system: &str, value: &str) -> (r: String)
    ensures
        r@ == conditional_url_of(t, system@, value@),
{
    let mut s = String::from_str(t.name());
    s.append("?identifier=");
    s.append(system);
    s.append("|");
    s.append(value);
    s
}

/// A reference to the resource of type `t` with the identifier
/// `system|value`, in the form of a conditional search.
pub fn resource_ref(t: ResourceType, system: &str, value: &str) -> (r: Reference)
    ensures
        r@ == conditional_url_of(t, system@, value@),
{
    Reference { reference: conditional_url(t, system, value) }
}

/// The first identifier with `use = usual`, from index `i` on.
pub open spec fn usual_from(ids: Seq<IdentifierView>, i: int) -> Option<IdentifierView>
    decreases ids.len() - i,
{
    if i < 0 || i >= ids.len() {
        None
    } else if ids[i].use_ == IdentifierUse::Usual {
        Some(ids[i])
    } else {
        usual_from(ids, i + 1)
    }
}

/// The first identifier with `use = usual`.
pub open spec fn usual_identifier_of(ids: Seq<IdentifierView>) -> Option<IdentifierView> {
    usual_from(ids, 0)
}

/// The number of identifiers with `use = usual`.
pub open spec fn usual_count(ids: Seq<IdentifierView>) -> nat
    decreases ids.len(),
{
    if ids.len() == 0 {
        0
    } else {
        usual_count(ids.drop_last()) + if ids.last().use_ == IdentifierUse::Usual { 1nat } else { 0nat }
    }
}

/// The first identifier with `use = usual`: the one that requests and
/// references route by.
pub fn usual_identifier(ids: &Vec<Identifier>) -> (r: Option<&Identifier>)
    ensures
        match usual_identifier_of(ids@.map_values(|i: Identifier| i@)) {
            Some(v) => r is Some && r->Some_0@ == v,
            None => r is None,
        },
{
    let ghost view = ids@.map_values(|i: Identifier| i@);
    let mut i: usize = 0;
    while i < ids.len()
        invariant
            i <= ids@.len(),
            view == ids@.map_values(|i: Identifier| i@),
            usual_identifier_of(view) == usual_from(view, i as int),
        decreases ids.len() - i,
    {
        if ids[i].use_ == IdentifierUse::Usual {
            return Some(&ids[i]);
        }
        i += 1;
    }
    None
}

/// The identifier that stands for a resource: its only one, or else the
/// first with `use = usual`.
pub open spec fn default_identifier_of(ids: Seq<IdentifierView>) -> Option<IdentifierView> {
    if ids.len() == 1 {
        Some(ids[0])
    } else {
        usual_identifier_of(ids)
    }
}

/// The identifier that stands for a resource: its only one, or else the
/// first with `use = usual`.
pub fn default_identifier(ids: &Vec<Identifier>) -> (r: Option<&Identifier>)
    ensures
        match default_identifier_of(ids@.map_values(|i: Identifier| i@)) {
            Some(v) => r is Some && r->Some_0@ == v,
            None => r is None,
        },
{
    if ids.len() == 1 {
        Some(&ids[0])
    } else {
        usual_identifier(ids)
    }
}

/// How a bundle entry asks the server to store its resource.
#[derive(PartialEq, Eq, Structural, Clone, Copy, Debug)]
pub enum RequestKind {
    /// `PUT` to the conditional search URL: update, or create if absent.
    UpdateAsCreate,
    /// `POST` to the type, with `ifNoneExist`: create unless present.
    ConditionalCreate,
    /// `PATCH` to the conditional search URL.
    Patch,
}

/// The request of an entry of kind `kind` for the resource of type `t` with
/// the identifier `system|value`.
pub open spec fn request_of(kind: RequestKind, t: ResourceType, system: Seq<char>, value: Seq<char>) -> RequestView {
    match kind {
        RequestKind::UpdateAsCreate => RequestView {
            method: HttpVerb::Put,
            url: conditional_url_of(t, system, value),
            if_none_exist: None,
        },
        RequestKind::ConditionalCreate => RequestView {
            method: HttpVerb::Post,
            url: resource_type_name(t),
            if_none_exist: Some(if_none_exist_of(system, value)),
        },
        RequestKind::Patch => RequestView {
            method: HttpVerb::Patch,
            url: conditional_url_of(t, system, value),
            if_none_exist: None,
        },
    }
}

/// Builds the request of an entry.
pub fn entry_request(kind: RequestKind, t: ResourceType, system: &str, value: &str) -> (r: BundleEntryRequest)
    ensures
        r@ == request_of(kind, t, system@, value@),
{
    match kind {
        RequestKind::UpdateAsCreate => BundleEntryRequest {
            method: HttpVerb::Put,
            url: conditional_url(t, system, value),
            if_none_exist: None,
        },
        RequestKind::ConditionalCreate => {
            let mut cond = String::from_str("identifier=");
            cond.append(system);
            cond.append("|");
            cond.append(value);
            BundleEntryRequest {
                method: HttpVerb::Post,
                url: t.name().to_string(),
                if_none_exist: Some(cond),
            }
        },
        RequestKind::Patch => BundleEntryRequest {
            method: HttpVerb::Patch,
            url: conditional_url(t, system, value),
            if_none_exist: None,
        },
    }
}

/// The entry for `resource` of type `t`, routed by the identifier
/// `system|value`.
pub open spec fn entry_of(kind: RequestKind, t: ResourceType, resource: ResourceView, system: Seq<char>, value: Seq<char>) -> EntryView {
    EntryView { resource, request: request_of(kind, t, system, value) }
}

/// The identifiers of a resource; a patch has none of its own.
pub open spec fn identifiers_of(r: ResourceView) -> Seq<IdentifierView> {
    match r {
        ResourceView::Patient(p) => p.identifier,
        ResourceView::Encounter(e) => e.identifier,
        ResourceView::Parameters(_) => Seq::empty(),
    }
}

/// The entry for a resource of type `t`, routed by its usual identifier; a
/// resource without one is a builder fault.
pub open spec fn resource_entry_of(kind: RequestKind, t: ResourceType, resource: ResourceView) -> Result<EntryView, MappingErrorView> {
    match usual_identifier_of(identifiers_of(resource)) {
        None => Err(MappingErrorView::BuilderError("missing identifier with use: 'usual'"@)),
        Some(id) => Ok(entry_of(kind, t, resource, id.system, id.value)),
    }
}

/// Wraps a resource of type `t` into an entry of kind `kind`, routed by its
/// usual identifier.
pub fn resource_entry(kind: RequestKind, t: ResourceType, resource: Resource) -> (r: Result<BundleEntry, MappingError>)
    ensures
        agrees(r, resource_entry_of(kind, t, resource@)),
{
    let request = {
        let empty: Vec<Identifier> = Vec::new();
        let ids = match &resource {
            Resource::Patient(p) => &p.identifier,
            Resource::Encounter(e) => &e.identifier,
            Resource::Parameters(_) => &empty,
        };
        assert(ids@.map_values(|i: Identifier| i@) =~= identifiers_of(resource@));
        match usual_identifier(ids) {
            None => {
                return Err(MappingError::BuilderError("missing identifier with use: 'usual'".to_string()));
            },
            Some(id) => entry_request(kind, t, id.system.as_str(), id.value.as_str()),
        }
    };
    Ok(BundleEntry { resource, request })
}

/// Wraps a resource into an entry of kind `kind` that targets the resource
/// of type `t` with the identifier `id`.
pub fn routed_entry(kind: RequestKind, t: ResourceType, resource: Resource, id: &Identifier) -> (r: BundleEntry)
    ensures
        r@ == entry_of(kind, t, resource@, id.system@, id.value@),
{
    BundleEntry { resource, request: entry_request(kind, t, id.system.as_str(), id.value.as_str()) }
}

/// A transaction bundle of `entries`, or nothing where there are none.
pub open spec fn bundle_of(entries: Seq<EntryView>) -> Option<(BundleType, Seq<EntryView>)> {
    if entries.len() == 0 {
        None
    } else {
        Some((BundleType::Transaction, entries))
    }
}

/// Wraps entries into a transaction bundle; no entries give no bundle.
pub fn assemble_bundle(entries: Vec<BundleEntry>) -> (r: Option<Bundle>)
    ensures
        match bundle_of(entries_view(entries)) {
            Some(b) => r is Some && r->Some_0@ == b,
            None => r is None,
        },
{
    if entries.len() == 0 {
        None
    } else {
        Some(Bundle { bundle_type: BundleType::Transaction, entry: entries })
    }
}

} // verus!
