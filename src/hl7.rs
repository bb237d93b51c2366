//! Access to the parts of an HL7 v2 message: segments by name, fields by
//! number, components and subcomponents.
//!
//! The text is parsed by the `hl7-parser` crate; the library keeps the raw
//! text of each field and reads components through the same crate.
//! Every value handed out is trimmed, and an empty value counts as absent.
use vstd::prelude::*;
use crate::text::{opt_view, str_eq};

verus! {

#[verifier::external_type_specification]
#[verifier::external_body]
pub struct ExParseError(hl7_parser::parser::ParseError);

/// One segment of a message: its three-letter name and the raw text of each
/// field, field 1 first.
pub struct Hl7Segment {
    pub name: String,
    pub fields: Vec<String>,
}

/// A parsed HL7 message: its segments in order.
pub struct Hl7Message {
    pub segments: Vec<Hl7Segment>,
}

/// A segment as a name and the raw text of its fields.
pub type SegmentView = (Seq<char>, Seq<Seq<char>>);

impl View for Hl7Segment {
    type V = SegmentView;

    open spec fn view(&self) -> SegmentView {
        (self.name@, self.fields@.map_values(|f: String| f@))
    }
}

impl View for Hl7Message {
    type V = Seq<SegmentView>;

    open spec fn view(&self) -> Seq<SegmentView> {
        self.segments@.map_values(|s: Hl7Segment| s@)
    }
}

/// The segments that `hl7-parser` reads from a message text, segments
/// separated by `\r`, `\n` or `\r\n`; `None` where it rejects the text.
pub uninterp spec fn hl7_segments_of(text: Seq<char>) -> Option<Seq<SegmentView>>;

/// The raw text of the components of the first repeat of a field, as
/// `hl7-parser` reads them; `None` where it rejects the text.
pub uninterp spec fn hl7_components_of(field: Seq<char>) -> Option<Seq<Seq<char>>>;

/// The raw text of the repeats of a field, as `hl7-parser` reads them;
/// `None` where it rejects the text.
pub uninterp spec fn hl7_repeats_of(field: Seq<char>) -> Option<Seq<Seq<char>>>;

/// The raw text of the subcomponents of a component, as `hl7-parser` reads
/// them; `None` where it rejects the text.
pub uninterp spec fn hl7_subcomponents_of(component: Seq<char>) -> Option<Seq<Seq<char>>>;

/// Whether `c` has the Unicode property White_Space.
pub open spec fn is_white_space(c: char) -> bool {
    ('\u{9}' <= c && c <= '\u{d}') || c == ' ' || c == '\u{85}' || c == '\u{a0}' || c == '\u{1680}'
        || ('\u{2000}' <= c && c <= '\u{200a}') || c == '\u{2028}' || c == '\u{2029}' || c == '\u{202f}'
        || c == '\u{205f}' || c == '\u{3000}'
}

/// `s` without leading white space.
pub open spec fn trim_start_of(s: Seq<char>) -> Seq<char>
    decreases s.len(),
{
    if s.len() > 0 && is_white_space(s[0]) {
        trim_start_of(s.drop_first())
    } else {
        s
    }
}

/// `s` without trailing white space.
pub open spec fn trim_end_of(s: Seq<char>) -> Seq<char>
    decreases s.len(),
{
    if s.len() > 0 && is_white_space(s.last()) {
        trim_end_of(s.drop_last())
    } else {
        s
    }
}

/// `s` without leading and trailing white space.
pub open spec fn trimmed(s: Seq<char>) -> Seq<char> {
    trim_end_of(trim_start_of(s))
}

/// Relies on `hl7_parser::Message::parse_with_lenient_newlines` (lenient
/// newlines on): the segments and the raw text of their fields.
#[verifier::external_body]
fn parse_segments(text: &str) -> (r: Result<Hl7Message, hl7_parser::parser::ParseError>)
    ensures
        match r {
            Ok(m) => hl7_segments_of(text@) == Some(m@),
            Err(_) => hl7_segments_of(text@) is None,
        },
{
    hl7_parser::Message::parse_with_lenient_newlines(text, true).map(|m| Hl7Message {
        segments: m.segments.iter().map(|s| Hl7Segment {
            name: s.name.to_string(),
            fields: s.fields.iter().map(|f| f.raw_value().to_string()).collect(),
        }).collect(),
    })
}

/// Relies on `hl7_parser::parser::parse_repeat`: the raw text of each
/// component of the repeat.
#[verifier::external_body]
fn parse_components(field: &str) -> (r: Result<Vec<String>, hl7_parser::parser::ParseError>)
    ensures
        match r {
            Ok(v) => hl7_components_of(field@) == Some(v@.map_values(|c: String| c@)),
            Err(_) => hl7_components_of(field@) is None,
        },
{
    hl7_parser::parser::parse_repeat(field).map(|r| r.components.iter().map(|c| c.raw_value().to_string()).collect())
}

/// Relies on `hl7_parser::parser::parse_field`: the raw text of each repeat
/// of the field.
#[verifier::external_body]
fn parse_repeats(field: &str) -> (r: Result<Vec<String>, hl7_parser::parser::ParseError>)
    ensures
        match r {
            Ok(v) => hl7_repeats_of(field@) == Some(v@.map_values(|c: String| c@)),
            Err(_) => hl7_repeats_of(field@) is None,
        },
{
    hl7_parser::parser::parse_field(field).map(|f| f.repeats.iter().map(|r| r.raw_value().to_string()).collect())
}

/// Relies on `hl7_parser::parser::parse_component`: the raw text of each
/// subcomponent of the component.
#[verifier::external_body]
fn parse_subcomponents(component: &str) -> (r: Result<Vec<String>, hl7_parser::parser::ParseError>)
    ensures
        match r {
            Ok(v) => hl7_subcomponents_of(component@) == Some(v@.map_values(|c: String| c@)),
            Err(_) => hl7_subcomponents_of(component@) is None,
        },
{
    hl7_parser::parser::parse_component(component).map(|c| c.subcomponents.iter().map(|s| s.raw_value().to_string()).collect())
}

/// Relies on `str::trim`: the text without leading and trailing characters
/// of the Unicode property White_Space.
#[verifier::external_body]
fn trim(s: &str) -> (r: String)
    ensures
        r@ == trimmed(s@),
{
    s.trim().to_string()
}

/// An access to a message that found nothing where something is required.
pub enum MessageAccessError {
    MissingMessageSegment(String),
    MissingMessageField(String, String),
    MessageTypeError(crate::message_type::MessageTypeError),
    ParseError(hl7_parser::parser::ParseError),
}

/// The inputs of a failed access: `MissingMessageSegment(segment)`,
/// `MissingMessageField(field number, segment)`, an unknown or absent event
/// type, or text that the parser rejected.
pub enum AccessErrorView {
    MissingMessageSegment(Seq<char>),
    MissingMessageField(Seq<char>, Seq<char>),
    MessageTypeError(crate::message_type::MessageTypeErrorView),
    ParseError,
}

impl View for MessageAccessError {
    type V = AccessErrorView;

    open spec fn view(&self) -> AccessErrorView {
        match self {
            MessageAccessError::MissingMessageSegment(s) => AccessErrorView::MissingMessageSegment(s@),
            MessageAccessError::MissingMessageField(f, s) => AccessErrorView::MissingMessageField(f@, s@),
            MessageAccessError::MessageTypeError(e) => AccessErrorView::MessageTypeError(e@),
            MessageAccessError::ParseError(_) => AccessErrorView::ParseError,
        }
    }
}

/// A value as the access layer hands it out: trimmed, and absent when empty.
pub open spec fn present(s: Seq<char>) -> Option<Seq<char>> {
    if trimmed(s).len() == 0 {
        None
    } else {
        Some(trimmed(s))
    }
}

/// The fields of the first segment named `name`, from segment `i` on.
pub open spec fn find_segment_from(segs: Seq<SegmentView>, name: Seq<char>, i: int) -> Option<Seq<Seq<char>>>
    decreases segs.len() - i,
{
    if i < 0 || i >= segs.len() {
        None
    } else if segs[i].0 == name {
        Some(segs[i].1)
    } else {
        find_segment_from(segs, name, i + 1)
    }
}

/// The fields of the first segment named `name`.
pub open spec fn find_segment(segs: Seq<SegmentView>, name: Seq<char>) -> Option<Seq<Seq<char>>> {
    find_segment_from(segs, name, 0)
}

/// Whether the message has a segment named `name`.
pub open spec fn has_segment(segs: Seq<SegmentView>, name: Seq<char>) -> bool {
    find_segment(segs, name) is Some
}

/// Field `idx` (counted from 1) of the first segment named `seg`: absent
/// where the segment has fewer fields or the field is empty.
pub open spec fn field_in(segs: Seq<SegmentView>, seg: Seq<char>, idx: int) -> Option<Seq<char>> {
    match find_segment(segs, seg) {
        Some(fields) => if 1 <= idx <= fields.len() {
            present(fields[idx - 1])
        } else {
            None
        },
        None => None,
    }
}

/// Component `c` (counted from 1) of a list of raw components, trimmed;
/// absent where it is missing or empty.
pub open spec fn comp_at(cs: Seq<Seq<char>>, c: int) -> Option<Seq<char>> {
    if 1 <= c <= cs.len() {
        present(cs[c - 1])
    } else {
        None
    }
}

/// Component `c` (counted from 1) of a field's text: `None` for text that the
/// parser rejects, else the trimmed component, absent where it is missing or
/// empty.
pub open spec fn component_in(field: Seq<char>, c: int) -> Option<Option<Seq<char>>> {
    match hl7_components_of(field) {
        Some(cs) => Some(comp_at(cs, c)),
        None => None,
    }
}

/// Repeat `i` (counted from 1) of a field's text: `None` for text that the
/// parser rejects, else the trimmed repeat, absent where it is missing or
/// empty.
pub open spec fn repeat_in(field: Seq<char>, i: int) -> Option<Option<Seq<char>>> {
    match hl7_repeats_of(field) {
        Some(rs) => Some(comp_at(rs, i)),
        None => None,
    }
}

/// The trimmed subcomponents of component `c` of a field's text: `None` for
/// text that the parser rejects; empty where the component is absent.
pub open spec fn subcomponents_in(field: Seq<char>, c: int) -> Option<Seq<Seq<char>>> {
    match component_in(field, c) {
        Some(Some(t)) => match hl7_subcomponents_of(t) {
            Some(subs) => Some(subs.map_values(|s: Seq<char>| trimmed(s))),
            None => None,
        },
        Some(None) => Some(Seq::empty()),
        None => None,
    }
}

fn present_value(s: &str) -> (r: Option<String>)
    ensures
        match r {
            Some(t) => present(s@) == Some(t@),
            None => present(s@) is None,
        },
{
    let t = trim(s);
    if t.as_str().unicode_len() == 0 {
        None
    } else {
        Some(t)
    }
}

impl Hl7Message {
    /// Parses the text of a message; `\r`, `\n` and `\r\n` all end a segment.
    pub fn parse(text: &str) -> (r: Result<Hl7Message, MessageAccessError>)
        ensures
            match r {
                Ok(m) => hl7_segments_of(text@) == Some(m@),
                Err(e) => hl7_segments_of(text@) is None && e@ == AccessErrorView::ParseError,
            },
    {
        match parse_segments(text) {
            Ok(m) => Ok(m),
            Err(e) => Err(MessageAccessError::ParseError(e)),
        }
    }

    /// The index of the first segment named `name`.
    fn segment_index(&self, name: &str) -> (r: Option<usize>)
        ensures
            match r {
                Some(i) => i < self@.len() && find_segment(self@, name@) == Some(self@[i as int].1),
                None => find_segment(self@, name@) is None,
            },
    {
        let n = self.segments.len();
        let mut i: usize = 0;
        while i < n
            invariant
                n == self@.len(),
                i <= n,
                find_segment(self@, name@) == find_segment_from(self@, name@, i as int),
            decreases n - i,
        {
            if str_eq(self.segments[i].name.as_str(), name) {
                return Some(i);
            }
            i += 1;
        }
        None
    }

    /// Whether the message has a segment named `name`.
    pub fn has_segment(&self, name: &str) -> (r: bool)
        ensures
            r == has_segment(self@, name@),
    {
        self.segment_index(name).is_some()
    }

    /// Field `idx` of segment `seg`, trimmed; `None` where the message has
    /// no such segment, the segment has no such field, or the field is empty.
    pub fn optional_field(&self, seg: &str, idx: usize) -> (r: Option<String>)
        ensures
            opt_view(r) == field_in(self@, seg@, idx as int),
    {
        match self.field(seg, idx) {
            Ok(v) => v,
            Err(_) => None,
        }
    }

    /// Field `idx` of segment `seg`, trimmed; `None` where the segment has no
    /// such field or the field is empty. A missing segment is an error.
    pub fn field(&self, seg: &str, idx: usize) -> (r: Result<Option<String>, MessageAccessError>)
        ensures
            match r {
                Ok(v) => has_segment(self@, seg@) && opt_view(v) == field_in(self@, seg@, idx as int),
                Err(e) => !has_segment(self@, seg@) && e@ == AccessErrorView::MissingMessageSegment(seg@),
            },
    {
        match self.segment_index(seg) {
            None => Err(MessageAccessError::MissingMessageSegment(seg.to_string())),
            Some(i) => {
                let fields = &self.segments[i].fields;
                if 1 <= idx && idx <= fields.len() {
                    Ok(present_value(fields[idx - 1].as_str()))
                } else {
                    Ok(None)
                }
            },
        }
    }
}

/// The raw components of the first repeat of a field's text.
pub fn components(field: &str) -> (r: Result<Vec<String>, MessageAccessError>)
    ensures
        match hl7_components_of(field@) {
            Some(cs) => r is Ok && r->Ok_0@.map_values(|s: String| s@) == cs,
            None => r is Err && r->Err_0@ == AccessErrorView::ParseError,
        },
{
    match parse_components(field) {
        Err(e) => Err(MessageAccessError::ParseError(e)),
        Ok(cs) => Ok(cs),
    }
}

/// Entry `c` (counted from 1) of a list of raw components or repeats,
/// trimmed; `None` where it is missing or empty.
pub fn component_at(cs: &Vec<String>, c: usize) -> (r: Option<String>)
    ensures
        opt_view(r) == comp_at(cs@.map_values(|s: String| s@), c as int),
{
    if 1 <= c && c <= cs.len() {
        present_value(cs[c - 1].as_str())
    } else {
        None
    }
}

/// Component `c` of the text of a field, trimmed; `None` where it is missing
/// or empty.
pub fn component(field: &str, c: usize) -> (r: Result<Option<String>, MessageAccessError>)
    ensures
        match r {
            Ok(v) => component_in(field@, c as int) == Some(opt_view(v)),
            Err(e) => component_in(field@, c as int) is None && e@ == AccessErrorView::ParseError,
        },
{
    match parse_components(field) {
        Err(e) => Err(MessageAccessError::ParseError(e)),
        Ok(cs) => {
            if 1 <= c && c <= cs.len() {
                Ok(present_value(cs[c - 1].as_str()))
            } else {
                Ok(None)
            }
        },
    }
}

/// Repeat `i` of the text of a field, trimmed; `None` where it is missing or
/// empty.
pub fn repeat(field: &str, i: usize) -> (r: Result<Option<String>, MessageAccessError>)
    ensures
        match r {
            Ok(v) => repeat_in(field@, i as int) == Some(opt_view(v)),
            Err(e) => repeat_in(field@, i as int) is None && e@ == AccessErrorView::ParseError,
        },
{
    match parse_repeats(field) {
        Err(e) => Err(MessageAccessError::ParseError(e)),
        Ok(rs) => Ok(component_at(&rs, i)),
    }
}

/// The trimmed subcomponents of component `c` of the text of a field; empty
/// where the component is missing.
pub fn subcomponents(field: &str, c: usize) -> (r: Result<Vec<String>, MessageAccessError>)
    ensures
        match r {
            Ok(v) => subcomponents_in(field@, c as int) == Some(v@.map_values(|s: String| s@)),
            Err(e) => subcomponents_in(field@, c as int) is None && e@ == AccessErrorView::ParseError,
        },
{
    match component(field, c)? {
        None => {
            let v: Vec<String> = Vec::new();
            assert(v@.map_values(|s: String| s@) =~= Seq::empty());
            Ok(v)
        },
        Some(t) => {
            let subs = match parse_subcomponents(t.as_str()) {
                Ok(subs) => subs,
                Err(e) => {
                    return Err(MessageAccessError::ParseError(e));
                },
            };
            let mut out: Vec<String> = Vec::new();
            let mut i: usize = 0;
            while i < subs.len()
                invariant
                    i <= subs@.len(),
                    out@.map_values(|s: String| s@) =~= subs@.subrange(0, i as int).map_values(|s: String| trimmed(s@)),
                decreases subs.len() - i,
            {
                let t = trim(subs[i].as_str());
                proof {
                    let a = subs@.subrange(0, i as int);
                    assert(subs@.subrange(0, i + 1) =~= a.push(subs@[i as int]));
                    assert(a.push(subs@[i as int]).map_values(|s: String| trimmed(s@))
                        =~= a.map_values(|s: String| trimmed(s@)).push(t@));
                    assert(out@.push(t).map_values(|s: String| s@) =~= out@.map_values(|s: String| s@).push(t@));
                }
                out.push(t);
                i += 1;
            }
            proof {
                let sv = subs@.map_values(|s: String| s@);
                assert(subs@.subrange(0, subs@.len() as int) =~= subs@);
                assert(sv.map_values(|s: Seq<char>| trimmed(s)) =~= subs@.map_values(|s: String| trimmed(s@)));
            }
            Ok(out)
        },
    }
}

} // verus!
