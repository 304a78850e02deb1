//! The wire protocol's text side: a text frame carries a JSON object
//! whose recognized keys are `role`, `type`, `format` and `content`,
//! merged additively into the message under assembly, plus the
//! keepalive directive and the end-of-message marker (the boolean key
//! `end`).  Parsing the JSON itself is the work of `serde_json`, behind
//! one trusted item; everything built on the extracted fields is
//! verified.

use vstd::prelude::*;

use crate::accumulator::{ControlFrame, ControlFrameView};
use crate::message::{str_opt_view, Kind, Role};

verus! {

/// Seconds between keepalive control frames.
pub const HEARTBEAT_SECS: u64 = 11;

/// Seconds without any traffic after which the connection is considered
/// dead and torn down proactively (30 minutes).
pub const IDLE_TIMEOUT_SECS: u64 = 1800;

/// One field of the JSON object a text frame holds, as the library
/// reads it: absent, a string, a boolean, some other JSON value, or —
/// when the text is not a JSON object at all — `NoObject`.
#[derive(Debug)]
pub enum JsonField {
    NoObject,
    Absent,
    Str(String),
    Flag(bool),
    Other,
}

/// Mathematical value of a `JsonField`.
pub enum JsonFieldView {
    NoObject,
    Absent,
    Str(Seq<char>),
    Flag(bool),
    Other,
}

impl View for JsonField {
    type V = JsonFieldView;

    open spec fn view(&self) -> JsonFieldView {
        match self {
            JsonField::NoObject => JsonFieldView::NoObject,
            JsonField::Absent => JsonFieldView::Absent,
            JsonField::Str(s) => JsonFieldView::Str(s@),
            JsonField::Flag(b) => JsonFieldView::Flag(*b),
            JsonField::Other => JsonFieldView::Other,
        }
    }
}

/// The named field of the JSON object the text parses to.
pub uninterp spec fn json_field_of(text: Seq<char>, key: Seq<char>) -> JsonFieldView;

/// Relies on `serde_json::from_str` and `serde_json::Value::get`: parses
/// the text as JSON and hands out the named field of the object as a
/// plain value.  Text that is not a JSON object yields `NoObject`,
/// whatever the key.
#[verifier::external_body]
fn json_field(text: &str, key: &str) -> (r: JsonField)
    ensures
        r@ == json_field_of(text@, key@),
{
    let v: serde_json::Value = match serde_json::from_str(text) {
        Ok(v) => v,
        Err(_) => return JsonField::NoObject,
    };
    if !v.is_object() {
        return JsonField::NoObject;
    }
    match v.get(key) {
        None => JsonField::Absent,
        Some(serde_json::Value::String(s)) => JsonField::Str(s.clone()),
        Some(serde_json::Value::Bool(b)) => JsonField::Flag(*b),
        Some(_) => JsonField::Other,
    }
}

/// The role a field names, if it names one; unrecognized values are
/// ignored, never guessed at.
pub open spec fn role_of_field(f: JsonFieldView) -> Option<Role> {
    match f {
        JsonFieldView::Str(s) => {
            if s == "user"@ {
                Some(Role::User)
            } else if s == "assistant"@ {
                Some(Role::Assistant)
            } else if s == "system"@ {
                Some(Role::System)
            } else {
                None
            }
        },
        _ => None,
    }
}

/// The message kind a field names, if it names one; unrecognized values
/// are ignored, never guessed at.
pub open spec fn kind_of_field(f: JsonFieldView) -> Option<Kind> {
    match f {
        JsonFieldView::Str(s) => {
            if s == "text"@ {
                Some(Kind::Text)
            } else if s == "audio"@ {
                Some(Kind::Audio)
            } else if s == "image"@ {
                Some(Kind::Image)
            } else if s == "control"@ {
                Some(Kind::Control)
            } else {
                None
            }
        },
        _ => None,
    }
}

/// The string a field holds, if it holds one.
pub open spec fn str_of_field(f: JsonFieldView) -> Option<Seq<char>> {
    match f {
        JsonFieldView::Str(s) => Some(s),
        _ => None,
    }
}

/// The control mapping a text frame's fields amount to.
pub open spec fn control_of_text(t: Seq<char>) -> ControlFrameView {
    ControlFrameView {
        role: role_of_field(json_field_of(t, "role"@)),
        kind: kind_of_field(json_field_of(t, "type"@)),
        format: str_of_field(json_field_of(t, "format"@)),
        content: str_of_field(json_field_of(t, "content"@)),
        end: json_field_of(t, "end"@) == JsonFieldView::Flag(true),
    }
}

/// What a wire text frame means.
#[derive(Debug)]
pub enum ParsedText {
    /// The text held no JSON object; the frame is dropped as malformed.
    NotJson,
    /// The keepalive directive; it never touches the accumulator.
    KeepAlive,
    /// A control mapping for the accumulator.
    Control(ControlFrame),
}

/// Mathematical value of a `ParsedText`.
pub enum ParsedTextView {
    NotJson,
    KeepAlive,
    Control(ControlFrameView),
}

impl View for ParsedText {
    type V = ParsedTextView;

    open spec fn view(&self) -> ParsedTextView {
        match self {
            ParsedText::NotJson => ParsedTextView::NotJson,
            ParsedText::KeepAlive => ParsedTextView::KeepAlive,
            ParsedText::Control(c) => ParsedTextView::Control(c@),
        }
    }
}

/// The meaning of a wire text frame: not JSON, the keepalive directive
/// (the `type` key holding `KeepAlive`), or a control mapping of the
/// recognized keys.
pub open spec fn parsed_of(t: Seq<char>) -> ParsedTextView {
    let ty = json_field_of(t, "type"@);
    if ty is NoObject {
        ParsedTextView::NotJson
    } else if ty == JsonFieldView::Str("KeepAlive"@) {
        ParsedTextView::KeepAlive
    } else {
        ParsedTextView::Control(control_of_text(t))
    }
}

/// Whether an owned string equals a literal.
fn str_is(s: &String, lit: &str) -> (r: bool)
    ensures
        r == (s@ == lit@),
{
    let owned: String = lit.to_owned();
    s.eq(&owned)
}

/// Parse one wire text frame into its meaning.
pub fn parse_text(text: &str) -> (r: ParsedText)
    ensures
        r@ == parsed_of(text@),
{
    let ty = json_field(text, "type");
    if let JsonField::NoObject = &ty {
        return ParsedText::NotJson;
    }
    if let JsonField::Str(s) = &ty {
        if str_is(s, "KeepAlive") {
            return ParsedText::KeepAlive;
        }
    }
    let kind: Option<Kind> = match &ty {
        JsonField::Str(s) => {
            if str_is(s, "text") {
                Some(Kind::Text)
            } else if str_is(s, "audio") {
                Some(Kind::Audio)
            } else if str_is(s, "image") {
                Some(Kind::Image)
            } else if str_is(s, "control") {
                Some(Kind::Control)
            } else {
                None
            }
        },
        _ => None,
    };
    let role: Option<Role> = match json_field(text, "role") {
        JsonField::Str(s) => {
            if str_is(&s, "user") {
                Some(Role::User)
            } else if str_is(&s, "assistant") {
                Some(Role::Assistant)
            } else if str_is(&s, "system") {
                Some(Role::System)
            } else {
                None
            }
        },
        _ => None,
    };
    let format: Option<String> = match json_field(text, "format") {
        JsonField::Str(s) => Some(s),
        _ => None,
    };
    let content: Option<String> = match json_field(text, "content") {
        JsonField::Str(s) => Some(s),
        _ => None,
    };
    let end: bool = match json_field(text, "end") {
        JsonField::Flag(b) => b,
        _ => false,
    };
    ParsedText::Control(ControlFrame { role, kind, format, content, end })
}

/// The keepalive control frame sent on the heartbeat interval; the
/// server expects no application-level reply to it.
pub open spec fn keepalive_text() -> Seq<char> {
    "{\"type\":\"KeepAlive\"}"@
}

/// The serialized keepalive payload.
pub fn keepalive_payload() -> (r: String)
    ensures
        r@ == keepalive_text(),
{
    "{\"type\":\"KeepAlive\"}".to_owned()
}

} // verus!
