//! The ADT event types and how `EVN.1` names them.
use vstd::prelude::*;
use crate::hl7::{field_in, has_segment, Hl7Message};
use crate::text::str_eq;

verus! {

/// The ADT trigger events that the engine knows.
#[derive(PartialEq, Eq, Structural, Clone, Copy, Debug)]
pub enum MessageType {
    /// ADT A01
    Admit,
    /// ADT A02
    Transfer,
    /// ADT A03
    Discharge,
    /// ADT A04
    Registration,
    /// ADT A05
    PreAdmit,
    /// ADT A06
    ChangeOutpatientToInpatient,
    /// ADT A07
    ChangeInpatientToOutpatient,
    /// ADT A08
    PatientUpdate,
    /// ADT A11
    CancelAdmitVisit,
    /// ADT A12
    CancelTransfer,
    /// ADT A13
    CancelDischarge,
    /// ADT A14
    PendingAdmit,
    /// ADT A27
    CancelPendingAdmit,
    /// ADT A28
    AddPersonInformation,
    /// ADT A29
    DeletePersonInformation,
    /// ADT A31
    ChangePersonData,
    /// ADT A34
    PatientMerge,
    /// ADT A40
    MergePatientRecords,
    /// ADT A45
    PatientReassignmentToSingleCase,
    /// ADT A47
    PatientReassignmentToAllCases,
    /// ADT A50
    UpdateEncounterNumber,
}

/// Why no event type could be read.
pub enum MessageTypeError {
    UnknownMessageType(String),
    MissingMessageType(String),
}

pub enum MessageTypeErrorView {
    UnknownMessageType(Seq<char>),
    MissingMessageType(Seq<char>),
}

impl View for MessageTypeError {
    type V = MessageTypeErrorView;

    open spec fn view(&self) -> MessageTypeErrorView {
        match self {
            MessageTypeError::UnknownMessageType(s) => MessageTypeErrorView::UnknownMessageType(s@),
            MessageTypeError::MissingMessageType(s) => MessageTypeErrorView::MissingMessageType(s@),
        }
    }
}

/// The event type that a trigger code such as `A01` names.
pub open spec fn message_type_of(s: Seq<char>) -> Option<MessageType> {
    if s == "A01"@ {
        Some(MessageType::Admit)
    } else if s == "A02"@ {
        Some(MessageType::Transfer)
    } else if s == "A03"@ {
        Some(MessageType::Discharge)
    } else if s == "A04"@ {
        Some(MessageType::Registration)
    } else if s == "A05"@ {
        Some(MessageType::PreAdmit)
    } else if s == "A06"@ {
        Some(MessageType::ChangeOutpatientToInpatient)
    } else if s == "A07"@ {
        Some(MessageType::ChangeInpatientToOutpatient)
    } else if s == "A08"@ {
        Some(MessageType::PatientUpdate)
    } else if s == "A11"@ {
        Some(MessageType::CancelAdmitVisit)
    } else if s == "A12"@ {
        Some(MessageType::CancelTransfer)
    } else if s == "A13"@ {
        Some(MessageType::CancelDischarge)
    } else if s == "A14"@ {
        Some(MessageType::PendingAdmit)
    } else if s == "A27"@ {
        Some(MessageType::CancelPendingAdmit)
    } else if s == "A28"@ {
        Some(MessageType::AddPersonInformation)
    } else if s == "A29"@ {
        Some(MessageType::DeletePersonInformation)
    } else if s == "A31"@ {
        Some(MessageType::ChangePersonData)
    } else if s == "A34"@ {
        Some(MessageType::PatientMerge)
    } else if s == "A40"@ {
        Some(MessageType::MergePatientRecords)
    } else if s == "A45"@ {
        Some(MessageType::PatientReassignmentToSingleCase)
    } else if s == "A47"@ {
        Some(MessageType::PatientReassignmentToAllCases)
    } else if s == "A50"@ {
        Some(MessageType::UpdateEncounterNumber)
    } else {
        None
    }
}

/// Reads a trigger code such as `A01`.
pub fn parse_message_type(s: &str) -> (r: Result<MessageType, MessageTypeError>)
    ensures
        match message_type_of(s@) {
            Some(t) => r == Ok::<MessageType, MessageTypeError>(t),
            None => r is Err && r->Err_0@ == MessageTypeErrorView::UnknownMessageType(s@),
        },
{
    if str_eq(s, "A01") {
        Ok(MessageType::Admit)
    } else if str_eq(s, "A02") {
        Ok(MessageType::Transfer)
    } else if str_eq(s, "A03") {
        Ok(MessageType::Discharge)
    } else if str_eq(s, "A04") {
        Ok(MessageType::Registration)
    } else if str_eq(s, "A05") {
        Ok(MessageType::PreAdmit)
    } else if str_eq(s, "A06") {
        Ok(MessageType::ChangeOutpatientToInpatient)
    } else if str_eq(s, "A07") {
        Ok(MessageType::ChangeInpatientToOutpatient)
    } else if str_eq(s, "A08") {
        Ok(MessageType::PatientUpdate)
    } else if str_eq(s, "A11") {
        Ok(MessageType::CancelAdmitVisit)
    } else if str_eq(s, "A12") {
        Ok(MessageType::CancelTransfer)
    } else if str_eq(s, "A13") {
        Ok(MessageType::CancelDischarge)
    } else if str_eq(s, "A14") {
        Ok(MessageType::PendingAdmit)
    } else if str_eq(s, "A27") {
        Ok(MessageType::CancelPendingAdmit)
    } else if str_eq(s, "A28") {
        Ok(MessageType::AddPersonInformation)
    } else if str_eq(s, "A29") {
        Ok(MessageType::DeletePersonInformation)
    } else if str_eq(s, "A31") {
        Ok(MessageType::ChangePersonData)
    } else if str_eq(s, "A34") {
        Ok(MessageType::PatientMerge)
    } else if str_eq(s, "A40") {
        Ok(MessageType::MergePatientRecords)
    } else if str_eq(s, "A45") {
        Ok(MessageType::PatientReassignmentToSingleCase)
    } else if str_eq(s, "A47") {
        Ok(MessageType::PatientReassignmentToAllCases)
    } else if str_eq(s, "A50") {
        Ok(MessageType::UpdateEncounterNumber)
    } else {
        Err(MessageTypeError::UnknownMessageType(s.to_string()))
    }
}

impl std::str::FromStr for MessageType {
    type Err = MessageTypeError;

    fn from_str(s: &str) -> (r: Result<MessageType, MessageTypeError>)
        ensures
            match message_type_of(s@) {
                Some(t) => r == Ok::<MessageType, MessageTypeError>(t),
                None => r is Err && r->Err_0@ == MessageTypeErrorView::UnknownMessageType(s@),
            },
    {
        parse_message_type(s)
    }
}

/// The event type of a message, from `EVN.1`.
pub open spec fn event_of(m: Seq<crate::hl7::SegmentView>) -> Result<MessageType, MessageTypeErrorView> {
    if !has_segment(m, "EVN"@) {
        Err(MessageTypeErrorView::MissingMessageType("missing EVN segment"@))
    } else {
        match field_in(m, "EVN"@, 1) {
            None => Err(MessageTypeErrorView::MissingMessageType("missing message type field"@)),
            Some(code) => match message_type_of(code) {
                Some(t) => Ok(t),
                None => Err(MessageTypeErrorView::UnknownMessageType(code)),
            },
        }
    }
}

/// Reads the event type of a message from `EVN.1`.
pub fn message_type(msg: &Hl7Message) -> (r: Result<MessageType, MessageTypeError>)
    ensures
        match event_of(msg@) {
            Ok(t) => r == Ok::<MessageType, MessageTypeError>(t),
            Err(e) => r is Err && r->Err_0@ == e,
        },
{
    match msg.field("EVN", 1) {
        Err(_) => Err(MessageTypeError::MissingMessageType("missing EVN segment".to_string())),
        Ok(None) => Err(MessageTypeError::MissingMessageType("missing message type field".to_string())),
        Ok(Some(code)) => parse_message_type(code.as_str()),
    }
}

} // verus!
