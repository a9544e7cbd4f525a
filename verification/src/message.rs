use vstd::prelude::*;

use crate::status::BoundaryError;
use crate::text::{clone_bytes, text_ok, Text};

verus! {

/// The independently addressable domains of the bus.
#[derive(Clone, Copy, PartialEq, Eq, Structural, Debug)]
pub enum Domain {
    Hotword,
    SoundFeedback,
    Asr,
    Tts,
    Nlu,
    AudioServer,
    Dialogue,
    Injection,
}

/// A facade address: a domain together with the side served. The consumer
/// side is used by a domain's clients, the backend side by its implementer.
#[derive(Clone, Copy, PartialEq, Eq, Structural, Debug)]
pub struct FacadeKind {
    pub domain: Domain,
    pub backend: bool,
}

/// The payload types that cross the boundary: one row per message shape of
/// the flat operation table, consumed by the generic engines in place of one
/// hand-written operation per (domain, shape) pair.
#[derive(Clone, Copy, PartialEq, Eq, Structural, Debug)]
pub enum MessageKind {
    Site,
    HotwordDetected,
    AsrStartListening,
    TextCaptured,
    Say,
    SayFinished,
    NluQuery,
    NluSlotQuery,
    NluSlot,
    NluIntent,
    NluIntentNotRecognized,
    PlayBytes,
    PlayFinished,
    AudioFrame,
    StartSession,
    ContinueSession,
    EndSession,
    SessionQueued,
    SessionStarted,
    SessionEnded,
    Intent,
    IntentNotRecognized,
    InjectionRequest,
    InjectionStatus,
}

/// The domain a payload type belongs to.
pub open spec fn domain_of(k: MessageKind) -> Domain {
    match k {
        MessageKind::Site => Domain::SoundFeedback,
        MessageKind::HotwordDetected => Domain::Hotword,
        MessageKind::AsrStartListening => Domain::Asr,
        MessageKind::TextCaptured => Domain::Asr,
        MessageKind::Say => Domain::Tts,
        MessageKind::SayFinished => Domain::Tts,
        MessageKind::NluQuery => Domain::Nlu,
        MessageKind::NluSlotQuery => Domain::Nlu,
        MessageKind::NluSlot => Domain::Nlu,
        MessageKind::NluIntent => Domain::Nlu,
        MessageKind::NluIntentNotRecognized => Domain::Nlu,
        MessageKind::PlayBytes => Domain::AudioServer,
        MessageKind::PlayFinished => Domain::AudioServer,
        MessageKind::AudioFrame => Domain::AudioServer,
        MessageKind::StartSession => Domain::Dialogue,
        MessageKind::ContinueSession => Domain::Dialogue,
        MessageKind::EndSession => Domain::Dialogue,
        MessageKind::SessionQueued => Domain::Dialogue,
        MessageKind::SessionStarted => Domain::Dialogue,
        MessageKind::SessionEnded => Domain::Dialogue,
        MessageKind::Intent => Domain::Dialogue,
        MessageKind::IntentNotRecognized => Domain::Dialogue,
        MessageKind::InjectionRequest => Domain::Injection,
        MessageKind::InjectionStatus => Domain::Injection,
    }
}

/// Executable form of `domain_of`, for callers outside verified code that
/// must check a precondition before calling an engine.
pub fn domain_of_kind(k: MessageKind) -> (d: Domain)
    ensures
        d == domain_of(k),
{
    match k {
        MessageKind::Site => Domain::SoundFeedback,
        MessageKind::HotwordDetected => Domain::Hotword,
        MessageKind::AsrStartListening => Domain::Asr,
        MessageKind::TextCaptured => Domain::Asr,
        MessageKind::Say => Domain::Tts,
        MessageKind::SayFinished => Domain::Tts,
        MessageKind::NluQuery => Domain::Nlu,
        MessageKind::NluSlotQuery => Domain::Nlu,
        MessageKind::NluSlot => Domain::Nlu,
        MessageKind::NluIntent => Domain::Nlu,
        MessageKind::NluIntentNotRecognized => Domain::Nlu,
        MessageKind::PlayBytes => Domain::AudioServer,
        MessageKind::PlayFinished => Domain::AudioServer,
        MessageKind::AudioFrame => Domain::AudioServer,
        MessageKind::StartSession => Domain::Dialogue,
        MessageKind::ContinueSession => Domain::Dialogue,
        MessageKind::EndSession => Domain::Dialogue,
        MessageKind::SessionQueued => Domain::Dialogue,
        MessageKind::SessionStarted => Domain::Dialogue,
        MessageKind::SessionEnded => Domain::Dialogue,
        MessageKind::Intent => Domain::Dialogue,
        MessageKind::IntentNotRecognized => Domain::Dialogue,
        MessageKind::InjectionRequest => Domain::Injection,
        MessageKind::InjectionStatus => Domain::Injection,
    }
}

/// Mathematical content of one payload record, shared by the foreign and the
/// internal representation: the two differ only in whether the fields have
/// been validated.
pub struct MessageView {
    pub kind: MessageKind,
    pub session_id: Seq<u8>,
    pub site_id: Seq<u8>,
    pub content: Seq<u8>,
}

/// Foreign (boundary) representation of one payload: a tag and raw byte
/// fields, exactly as they arrive from or leave for the foreign side.
pub struct CMessage {
    pub kind: MessageKind,
    pub session_id: Vec<u8>,
    pub site_id: Vec<u8>,
    pub content: Vec<u8>,
}

impl View for CMessage {
    type V = MessageView;

    open spec fn view(&self) -> MessageView {
        MessageView {
            kind: self.kind,
            session_id: self.session_id@,
            site_id: self.site_id@,
            content: self.content@,
        }
    }
}

/// Internal representation of one payload: the same fields, each carried as
/// validated text.
pub struct Message {
    pub kind: MessageKind,
    pub session_id: Text,
    pub site_id: Text,
    pub content: Text,
}

impl View for Message {
    type V = MessageView;

    open spec fn view(&self) -> MessageView {
        MessageView {
            kind: self.kind,
            session_id: self.session_id@,
            site_id: self.site_id@,
            content: self.content@,
        }
    }
}

impl Message {
    /// The invariant of every internal payload: all fields are valid text.
    pub open spec fn wf(&self) -> bool {
        self.session_id.wf() && self.site_id.wf() && self.content.wf()
    }
}

/// All fields of a foreign record are well-formed text, so the record can be
/// translated to internal form.
pub open spec fn c_message_ok(m: MessageView) -> bool {
    text_ok(m.session_id) && text_ok(m.site_id) && text_ok(m.content)
}

/// Outbound conversion engine: translate a borrowed foreign record to a
/// fresh internal record. The record is read for the call's duration only
/// and never retained. Exactly the malformed records are rejected, with a
/// conversion failure and nothing else.
pub fn convert_message(raw: &CMessage) -> (r: Result<Message, BoundaryError>)
    ensures
        r is Ok <==> c_message_ok(raw@),
        r is Ok ==> r->Ok_0@ == raw@ && r->Ok_0.wf(),
        r is Err ==> r->Err_0 == BoundaryError::Conversion,
{
    let session_id = match Text::from_bytes(clone_bytes(&raw.session_id)) {
        Ok(t) => t,
        Err(e) => {
            return Err(e);
        },
    };
    let site_id = match Text::from_bytes(clone_bytes(&raw.site_id)) {
        Ok(t) => t,
        Err(e) => {
            return Err(e);
        },
    };
    let content = match Text::from_bytes(clone_bytes(&raw.content)) {
        Ok(t) => t,
        Err(e) => {
            return Err(e);
        },
    };
    Ok(Message { kind: raw.kind, session_id, site_id, content })
}

/// Inbound conversion engine: translate an internal payload to a freshly
/// allocated foreign record. Total: internal text is already transportable.
pub fn message_to_c(m: &Message) -> (r: CMessage)
    ensures
        r@ == m@,
{
    CMessage {
        kind: m.kind,
        session_id: m.session_id.to_bytes(),
        site_id: m.site_id.to_bytes(),
        content: m.content.to_bytes(),
    }
}

/// The field a subscription filter is matched against: intent-style payloads
/// are filtered by the name they carry in `content`, the rest by site.
pub open spec fn filter_key(m: MessageView) -> Seq<u8> {
    match m.kind {
        MessageKind::Intent => m.content,
        MessageKind::IntentNotRecognized => m.content,
        MessageKind::NluIntent => m.content,
        MessageKind::HotwordDetected => m.content,
        _ => m.site_id,
    }
}

/// Executable form of `filter_key`.
pub fn filter_key_of(m: &Message) -> (r: &Text)
    ensures
        r@ == filter_key(m@),
{
    match m.kind {
        MessageKind::Intent => &m.content,
        MessageKind::IntentNotRecognized => &m.content,
        MessageKind::NluIntent => &m.content,
        MessageKind::HotwordDetected => &m.content,
        _ => &m.site_id,
    }
}

} // verus!
