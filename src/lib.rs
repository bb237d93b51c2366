//! Mapping of HL7 v2 ADT messages onto FHIR R4B transaction bundles.
//!
//! The engine takes the text of one HL7 message and returns either a
//! transaction bundle of Patient, Encounter and patch resources, or nothing
//! when the event carries no data for the clinical repository.
pub mod text;
pub mod hl7;
pub mod message_type;
pub mod datetime;
pub mod model;
pub mod config;
pub mod error;
pub mod codes;
pub mod bundle;
pub mod resources;
pub mod patient;
pub mod encounter;
pub mod mapper;
pub mod fhir;
pub mod pipeline;
pub mod laws;
