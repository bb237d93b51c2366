//! The decisions of a stream worker on one record of the input topic.
//!
//! The worker reads a record, asks `handle_record` what to do, and does it:
//! it skips, stores the offset, publishes a bundle and then stores the
//! offset, or stops with the fault.
use vstd::prelude::*;
use crate::error::MappingError;
use crate::mapper::{mapping_of, FhirMapper};
use crate::model::Bundle;

verus! {

/// What a worker does with one record.
pub enum Action {
    /// A record without payload (a tombstone): nothing to map; the offset
    /// stays where it is.
    Skip,
    /// The event yields no entry: store the offset.
    Commit,
    /// Publish the bundle, then store the offset.
    Publish(Bundle),
    /// Stop the worker with the fault.
    Fail(MappingError),
}

/// Decides what to do with a record whose payload is `payload`, at the
/// instant `now` (seconds since the Unix epoch).
pub fn handle_record(mapper: &FhirMapper, payload: Option<String>, now: i64) -> (r: Action)
    ensures
        match payload {
            None => r is Skip,
            Some(p) => match mapping_of(p@, mapper.config, mapper.resources, now as int) {
                Ok(None) => r is Commit,
                Ok(Some(b)) => r is Publish && r->Publish_0@ == b,
                Err(e) => r is Fail && r->Fail_0@ == e,
            },
        },
{
    match payload {
        None => Action::Skip,
        Some(p) => match mapper.map(p.as_str(), now) {
            Ok(None) => Action::Commit,
            Ok(Some(b)) => Action::Publish(b),
            Err(e) => Action::Fail(e),
        },
    }
}

} // verus!
