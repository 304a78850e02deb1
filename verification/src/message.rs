//! Completed messages exchanged with the server, and the views that the
//! contracts of the rest of the library speak of.

use vstd::prelude::*;

verus! {

/// Who authored a message.
#[derive(Clone, Copy, PartialEq, Eq, Structural, Debug)]
pub enum Role {
    User,
    Assistant,
    System,
}

/// Payload discriminator of a message.
#[derive(Clone, Copy, PartialEq, Eq, Structural, Debug)]
pub enum Kind {
    Text,
    Audio,
    Image,
    Control,
}

/// Payload of a completed message: exactly one variant, matching the kind.
#[derive(Debug)]
pub enum Content {
    Text(String),
    Binary(Vec<u8>),
}

/// Mathematical value of a `Content`.
pub enum ContentView {
    Text(Seq<char>),
    Binary(Seq<u8>),
}

impl View for Content {
    type V = ContentView;

    open spec fn view(&self) -> ContentView {
        match self {
            Content::Text(s) => ContentView::Text(s@),
            Content::Binary(b) => ContentView::Binary(b@),
        }
    }
}

/// View of an optional owned string.
pub open spec fn str_opt_view(o: Option<String>) -> Option<Seq<char>> {
    match o {
        Some(s) => Some(s@),
        None => None,
    }
}

/// A completed, addressable unit exchanged with the server.  Immutable once
/// emitted by the accumulator.
#[derive(Debug)]
pub struct Message {
    pub role: Role,
    pub kind: Kind,
    pub format: Option<String>,
    pub content: Content,
}

/// Mathematical value of a `Message`.
pub struct MessageView {
    pub role: Role,
    pub kind: Kind,
    pub format: Option<Seq<char>>,
    pub content: ContentView,
}

impl View for Message {
    type V = MessageView;

    open spec fn view(&self) -> MessageView {
        MessageView {
            role: self.role,
            kind: self.kind,
            format: str_opt_view(self.format),
            content: self.content@,
        }
    }
}

/// Length of the payload, in characters or bytes.
pub open spec fn content_len(c: ContentView) -> nat {
    match c {
        ContentView::Text(s) => s.len(),
        ContentView::Binary(b) => b.len(),
    }
}

/// The content representation a kind requires: text and control messages
/// carry text, audio and image messages carry bytes.
pub open spec fn content_matches(kind: Kind, c: ContentView) -> bool {
    match kind {
        Kind::Text | Kind::Control => c is Text,
        Kind::Audio | Kind::Image => c is Binary,
    }
}

/// A message is well formed when its content matches its kind and is
/// non-empty, and a format hint is present for the binary kinds.
pub open spec fn message_wf(m: MessageView) -> bool {
    &&& content_matches(m.kind, m.content)
    &&& content_len(m.content) > 0
    &&& (m.kind is Audio || m.kind is Image) ==> m.format is Some
}

} // verus!
