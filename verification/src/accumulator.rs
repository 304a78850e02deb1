//! Chunk accumulator: turns the inbound stream of wire chunks into
//! completed messages.
//!
//! A chunk is either a run of raw bytes or a parsed control mapping.
//! Control chunks merge metadata (and text deltas) into the partial
//! message under assembly; a control chunk carrying the end-of-message
//! marker finalizes it.  Byte chunks extend a binary payload.  Switching
//! between a text and a binary payload without a reset follows one
//! deterministic policy: the payload restarts from the new data alone,
//! so bytes of one kind are never interleaved into content of another.

use vstd::prelude::*;

use crate::message::{
    content_len, content_matches, message_wf, str_opt_view, Content, ContentView, Kind, Message,
    MessageView, Role,
};

verus! {

/// A parsed control mapping received from the wire: any subset of the
/// recognized metadata keys, a text delta, and the end-of-message marker.
#[derive(Debug)]
pub struct ControlFrame {
    pub role: Option<Role>,
    pub kind: Option<Kind>,
    pub format: Option<String>,
    pub content: Option<String>,
    pub end: bool,
}

/// Mathematical value of a `ControlFrame`.
pub struct ControlFrameView {
    pub role: Option<Role>,
    pub kind: Option<Kind>,
    pub format: Option<Seq<char>>,
    pub content: Option<Seq<char>>,
    pub end: bool,
}

impl View for ControlFrame {
    type V = ControlFrameView;

    open spec fn view(&self) -> ControlFrameView {
        ControlFrameView {
            role: self.role,
            kind: self.kind,
            format: str_opt_view(self.format),
            content: str_opt_view(self.content),
            end: self.end,
        }
    }
}

/// One unit received from the wire.
#[derive(Debug)]
pub enum Chunk {
    /// Raw bytes to append to the in-progress binary content.
    Bytes(Vec<u8>),
    /// A structured mapping carrying metadata or a directive.
    Control(ControlFrame),
}

/// Mathematical value of a `Chunk`.
pub enum ChunkView {
    Bytes(Seq<u8>),
    Control(ControlFrameView),
}

impl View for Chunk {
    type V = ChunkView;

    open spec fn view(&self) -> ChunkView {
        match self {
            Chunk::Bytes(b) => ChunkView::Bytes(b@),
            Chunk::Control(c) => ChunkView::Control(c@),
        }
    }
}

/// Payload of the message under assembly; starts empty and grows
/// append-only while it keeps one representation.
#[derive(Debug)]
pub enum PartialContent {
    Empty,
    Text(String),
    Binary(Vec<u8>),
}

/// Mathematical value of a `PartialContent`.
pub enum PartialContentView {
    Empty,
    Text(Seq<char>),
    Binary(Seq<u8>),
}

impl View for PartialContent {
    type V = PartialContentView;

    open spec fn view(&self) -> PartialContentView {
        match self {
            PartialContent::Empty => PartialContentView::Empty,
            PartialContent::Text(s) => PartialContentView::Text(s@),
            PartialContent::Binary(b) => PartialContentView::Binary(b@),
        }
    }
}

/// The message currently being assembled from the wire.
#[derive(Debug)]
pub struct PartialMessage {
    pub role: Option<Role>,
    pub kind: Option<Kind>,
    pub format: Option<String>,
    pub content: PartialContent,
}

/// Mathematical value of a `PartialMessage`.
pub struct PartialMessageView {
    pub role: Option<Role>,
    pub kind: Option<Kind>,
    pub format: Option<Seq<char>>,
    pub content: PartialContentView,
}

impl View for PartialMessage {
    type V = PartialMessageView;

    open spec fn view(&self) -> PartialMessageView {
        PartialMessageView {
            role: self.role,
            kind: self.kind,
            format: str_opt_view(self.format),
            content: self.content@,
        }
    }
}

/// The partial message every assembly starts from, and the one left
/// behind after a finalize or a reset.
pub open spec fn empty_partial() -> PartialMessageView {
    PartialMessageView { role: None, kind: None, format: None, content: PartialContentView::Empty }
}

impl PartialMessage {
    /// A fresh, empty partial message.
    pub fn new_empty() -> (r: PartialMessage)
        ensures
            r@ == empty_partial(),
    {
        PartialMessage { role: None, kind: None, format: None, content: PartialContent::Empty }
    }
}

/// Finalizing failed: the partial message missed a kind, a payload, a
/// required format hint, or held content of the wrong representation.
#[derive(Clone, Copy, PartialEq, Eq, Structural, Debug)]
pub enum AccumulateError {
    MalformedMessage,
}

/// A non-end control chunk merged into the partial message: present
/// metadata fields overwrite, a text delta extends a text payload and
/// restarts any other payload from the delta alone.
pub open spec fn merge_control(p: PartialMessageView, c: ControlFrameView) -> PartialMessageView {
    PartialMessageView {
        role: if c.role is Some { c.role } else { p.role },
        kind: if c.kind is Some { c.kind } else { p.kind },
        format: if c.format is Some { c.format } else { p.format },
        content: match c.content {
            None => p.content,
            Some(delta) => match p.content {
                PartialContentView::Text(t) => PartialContentView::Text(t + delta),
                _ => PartialContentView::Text(delta),
            },
        },
    }
}

/// A byte chunk appended: a binary payload grows, any other payload
/// restarts from the new bytes alone.
pub open spec fn append_bytes(p: PartialMessageView, b: Seq<u8>) -> PartialMessageView {
    PartialMessageView {
        content: match p.content {
            PartialContentView::Binary(old_bytes) => PartialContentView::Binary(old_bytes + b),
            _ => PartialContentView::Binary(b),
        },
        ..p
    }
}

/// The message a partial finalizes to, when it can: the kind must be
/// set, the payload non-empty and of the matching representation, and
/// the format hint present for the binary kinds.  A missing role
/// defaults to the server's side of the conversation.
pub open spec fn finalize(p: PartialMessageView) -> Option<MessageView> {
    match (p.kind, p.content) {
        (Some(kind), PartialContentView::Text(t)) => {
            let m = MessageView {
                role: if p.role is Some { p.role->0 } else { Role::Assistant },
                kind,
                format: p.format,
                content: ContentView::Text(t),
            };
            if message_wf(m) {
                Some(m)
            } else {
                None
            }
        },
        (Some(kind), PartialContentView::Binary(b)) => {
            let m = MessageView {
                role: if p.role is Some { p.role->0 } else { Role::Assistant },
                kind,
                format: p.format,
                content: ContentView::Binary(b),
            };
            if message_wf(m) {
                Some(m)
            } else {
                None
            }
        },
        _ => None,
    }
}

/// One accumulation step: the partial message after the chunk, and what
/// the step emits.  An end-of-message control first merges its other
/// fields, then finalizes; whether that succeeds or not, the next
/// assembly starts from an empty partial.
pub open spec fn step(p: PartialMessageView, chunk: ChunkView) -> (
    PartialMessageView,
    Result<Option<MessageView>, AccumulateError>,
) {
    match chunk {
        ChunkView::Bytes(b) => (append_bytes(p, b), Ok(None)),
        ChunkView::Control(c) => {
            let merged = merge_control(p, c);
            if !c.end {
                (merged, Ok(None))
            } else {
                match finalize(merged) {
                    Some(m) => (empty_partial(), Ok(Some(m))),
                    None => (empty_partial(), Err(AccumulateError::MalformedMessage)),
                }
            }
        },
    }
}

/// View of what `accumulate` returns.
pub open spec fn emitted_view(r: Result<Option<Message>, AccumulateError>) -> Result<
    Option<MessageView>,
    AccumulateError,
> {
    match r {
        Ok(None) => Ok(None),
        Ok(Some(m)) => Ok(Some(m@)),
        Err(e) => Err(e),
    }
}

/// Stateful reassembler: consumes inbound chunks, emits completed
/// messages.  Chunks of one connection are fed strictly in arrival
/// order.
#[derive(Debug)]
pub struct Accumulator {
    pub partial: PartialMessage,
}

impl View for Accumulator {
    type V = PartialMessageView;

    open spec fn view(&self) -> PartialMessageView {
        self.partial@
    }
}

impl Accumulator {
    /// A fresh accumulator with nothing under assembly.
    pub fn new() -> (r: Accumulator)
        ensures
            r@ == empty_partial(),
    {
        Accumulator { partial: PartialMessage::new_empty() }
    }

    /// Drop whatever is under assembly; called on connection loss, so a
    /// partially accumulated message from before a disconnect is never
    /// delivered.
    pub fn reset(&mut self)
        ensures
            final(self)@ == empty_partial(),
    {
        self.partial = PartialMessage::new_empty();
    }

    /// Feed one chunk.  Returns the completed message when the chunk
    /// finalized one, nothing when assembly goes on, and the malformed
    /// error when finalizing failed, in which case the partial is
    /// dropped, not emitted.
    pub fn accumulate(&mut self, chunk: Chunk) -> (r: Result<Option<Message>, AccumulateError>)
        ensures
            (final(self)@, emitted_view(r)) == step(old(self)@, chunk@),
    {
        match chunk {
            Chunk::Bytes(b) => {
                self.append_chunk_bytes(b);
                Ok(None)
            },
            Chunk::Control(c) => {
                let is_end = c.end;
                self.merge_chunk_control(c);
                if !is_end {
                    Ok(None)
                } else {
                    let mut taken = PartialMessage::new_empty();
                    core::mem::swap(&mut taken, &mut self.partial);
                    match Self::finalize_partial(taken) {
                        Some(m) => Ok(Some(m)),
                        None => Err(AccumulateError::MalformedMessage),
                    }
                }
            },
        }
    }

    /// Append a byte chunk to the payload.
    fn append_chunk_bytes(&mut self, b: Vec<u8>)
        ensures
            final(self)@ == append_bytes(old(self)@, b@),
    {
        match &mut self.partial.content {
            PartialContent::Binary(old_bytes) => {
                let mut b = b;
                old_bytes.append(&mut b);
            },
            _ => {
                self.partial.content = PartialContent::Binary(b);
            },
        }
    }

    /// Merge a control chunk's fields into the partial message.
    fn merge_chunk_control(&mut self, c: ControlFrame)
        ensures
            final(self)@ == merge_control(old(self)@, c@),
    {
        if let Some(role) = c.role {
            self.partial.role = Some(role);
        }
        if let Some(kind) = c.kind {
            self.partial.kind = Some(kind);
        }
        if let Some(format) = c.format {
            self.partial.format = Some(format);
        }
        if let Some(delta) = c.content {
            match &mut self.partial.content {
                PartialContent::Text(t) => {
                    t.append(delta.as_str());
                },
                _ => {
                    self.partial.content = PartialContent::Text(delta);
                },
            }
        }
    }

    /// Validate and convert a merged partial into a message.
    fn finalize_partial(p: PartialMessage) -> (r: Option<Message>)
        ensures
            match (r, finalize(p@)) {
                (Some(m), Some(mv)) => m@ == mv,
                (None, None) => true,
                _ => false,
            },
    {
        let kind = match p.kind {
            Some(kind) => kind,
            None => {
                return None;
            },
        };
        let role = match p.role {
            Some(role) => role,
            None => Role::Assistant,
        };
        let format_present = p.format.is_some();
        let content = match p.content {
            PartialContent::Empty => {
                return None;
            },
            PartialContent::Text(t) => {
                if t.as_str().is_empty() {
                    return None;
                }
                Content::Text(t)
            },
            PartialContent::Binary(b) => {
                if b.is_empty() {
                    return None;
                }
                Content::Binary(b)
            },
        };
        let matches_kind = match (kind, &content) {
            (Kind::Text, Content::Text(_)) => true,
            (Kind::Control, Content::Text(_)) => true,
            (Kind::Audio, Content::Binary(_)) => true,
            (Kind::Image, Content::Binary(_)) => true,
            _ => false,
        };
        if !matches_kind {
            return None;
        }
        let needs_format = match kind {
            Kind::Audio | Kind::Image => true,
            _ => false,
        };
        if needs_format && !format_present {
            return None;
        }
        Some(Message { role, kind, format: p.format, content })
    }
}

/// Content bytes are never interleaved across kinds: a text delta
/// arriving over a binary payload restarts the payload from the delta
/// alone, so none of the accumulated bytes leak into the text.
pub proof fn lemma_kind_switch_drops_binary(p: PartialMessageView, c: ControlFrameView)
    requires
        p.content is Binary,
        c.content is Some,
        !c.end,
    ensures
        step(p, ChunkView::Control(c)).0.content == PartialContentView::Text(c.content->0),
        step(p, ChunkView::Control(c)).1 == Result::<Option<MessageView>, AccumulateError>::Ok(
            Option::<MessageView>::None,
        ),
{
}

/// Content bytes are never interleaved across kinds, the other way
/// round: a byte chunk arriving over a text payload restarts the
/// payload from the new bytes alone, so none of the accumulated text
/// leaks into the binary content.
pub proof fn lemma_kind_switch_drops_text(p: PartialMessageView, b: Seq<u8>)
    requires
        p.content is Text,
    ensures
        step(p, ChunkView::Bytes(b)).0.content == PartialContentView::Binary(b),
        step(p, ChunkView::Bytes(b)).1 == Result::<Option<MessageView>, AccumulateError>::Ok(
            Option::<MessageView>::None,
        ),
{
}

/// Every message the accumulator emits is well formed: its content
/// matches its kind, is non-empty, and binary kinds carry a format.
pub proof fn lemma_emitted_messages_well_formed(p: PartialMessageView, chunk: ChunkView)
    ensures
        match step(p, chunk).1 {
            Ok(Some(m)) => message_wf(m),
            _ => true,
        },
{
}

} // verus!
