use hermes_ffi::facade::{
    deliver, drop_facade, drop_message, drop_protocol_handler, get_facade, publish, subscribe,
    CFacade, ForeignCallback,
};
use hermes_ffi::handler::{enable_debug_logs, CProtocolHandler, Handler};
use hermes_ffi::message::{
    convert_message, domain_of_kind, message_to_c, CMessage, Domain, FacadeKind, Message,
    MessageKind,
};
use hermes_ffi::status::{wrap_status, BoundaryError, Status};
use hermes_ffi::text::Text;

fn root_handle(context: u64) -> CProtocolHandler {
    CProtocolHandler::new(Box::new(Handler::new()), context)
}

fn facade_for(handle: &CProtocolHandler, domain: Domain) -> CFacade {
    let mut out: Option<CFacade> = None;
    let status = get_facade(handle, FacadeKind { domain, backend: false }, &mut out);
    assert_eq!(status, Status::Success);
    out.unwrap()
}

fn dialogue_message(kind: MessageKind, session_id: &[u8], content: &[u8]) -> CMessage {
    CMessage {
        kind,
        session_id: session_id.to_vec(),
        site_id: b"default".to_vec(),
        content: content.to_vec(),
    }
}

fn internal_message(kind: MessageKind, session_id: &[u8], content: &[u8]) -> Message {
    Message {
        kind,
        session_id: Text::from_bytes(session_id.to_vec()).unwrap(),
        site_id: Text::from_bytes(b"default".to_vec()).unwrap(),
        content: Text::from_bytes(content.to_vec()).unwrap(),
    }
}

#[test]
fn wrap_status_translates_every_failure() {
    assert_eq!(wrap_status(Ok(())), Status::Success);
    assert_eq!(wrap_status(Err(BoundaryError::Conversion)), Status::GenericError);
    assert_eq!(wrap_status(Err(BoundaryError::MissingCallback)), Status::GenericError);
    assert_eq!(wrap_status(Err(BoundaryError::Internal)), Status::GenericError);
}

#[test]
fn root_handle_create_then_destroy() {
    // construct then immediately destroy, with no accessor call in between
    let handle = root_handle(0xBEEF);
    assert_eq!(handle.user_data().0, 0xBEEF);
    assert!(!handle.extract().verbose);
    handle.destroy();
}

#[test]
fn drop_protocol_handler_reports_success() {
    let handle = root_handle(7);
    assert_eq!(drop_protocol_handler(handle), Status::Success);
}

#[test]
fn enable_debug_logs_toggles_verbose() {
    let mut handle = root_handle(1);
    assert_eq!(enable_debug_logs(&mut handle), Status::Success);
    assert!(handle.extract().verbose);
    assert_eq!(handle.user_data().0, 1);
}

#[test]
fn accessor_yields_independent_handles() {
    let handle = root_handle(0xCAFE);
    let first = facade_for(&handle, Domain::Dialogue);
    let mut second = facade_for(&handle, Domain::Dialogue);

    // destroying one leaves the other and the root handle valid
    assert_eq!(drop_facade(first), Status::Success);
    let message = dialogue_message(MessageKind::StartSession, b"abc", b"");
    assert_eq!(publish(&mut second, &Vec::new(), &message), Status::Success);
    assert_eq!(second.facade.outbox.len(), 1);

    let third = facade_for(&handle, Domain::SoundFeedback);
    assert_eq!(third.facade.kind.domain, Domain::SoundFeedback);
    assert_eq!(third.user_data().0, 0xCAFE);
}

#[test]
fn publish_malformed_message_changes_nothing() {
    let handle = root_handle(2);
    let mut facade = facade_for(&handle, Domain::Dialogue);
    let malformed = dialogue_message(MessageKind::StartSession, b"abc", b"");
    let malformed = CMessage { session_id: vec![0xFF], ..malformed };

    assert_eq!(publish(&mut facade, &Vec::new(), &malformed), Status::GenericError);
    assert_eq!(facade.facade.outbox.len(), 0);
    assert_eq!(facade.facade.registrations.len(), 0);
}

#[test]
fn publish_malformed_filter_changes_nothing() {
    let handle = root_handle(2);
    let mut facade = facade_for(&handle, Domain::Dialogue);
    let message = dialogue_message(MessageKind::StartSession, b"abc", b"");

    let filters = vec![b"site".to_vec(), vec![0xC0, 0xAF]];
    assert_eq!(publish(&mut facade, &filters, &message), Status::GenericError);
    assert_eq!(facade.facade.outbox.len(), 0);
}

#[test]
fn publish_queues_converted_message() {
    let handle = root_handle(3);
    let mut facade = facade_for(&handle, Domain::Dialogue);
    let message = dialogue_message(MessageKind::StartSession, b"abc", b"hello");

    assert_eq!(publish(&mut facade, &vec![b"kitchen".to_vec()], &message), Status::Success);
    assert_eq!(facade.facade.outbox.len(), 1);
    let queued = &facade.facade.outbox[0];
    assert_eq!(queued.filters.len(), 1);
    assert_eq!(queued.filters[0].to_bytes(), b"kitchen".to_vec());
    assert_eq!(queued.message.session_id.to_bytes(), b"abc".to_vec());
    assert_eq!(queued.message.content.to_bytes(), b"hello".to_vec());
}

#[test]
fn subscribe_null_callback_registers_nothing() {
    let handle = root_handle(4);
    let mut facade = facade_for(&handle, Domain::Dialogue);

    assert_eq!(subscribe(&mut facade, MessageKind::SessionStarted, &None, None), Status::GenericError);
    assert_eq!(facade.facade.registrations.len(), 0);

    // triggering the matching event fires zero callbacks
    let event = internal_message(MessageKind::SessionStarted, b"abc", b"");
    assert_eq!(deliver(&facade, &event).len(), 0);
}

#[test]
fn subscribe_malformed_filter_registers_nothing() {
    let handle = root_handle(4);
    let mut facade = facade_for(&handle, Domain::Dialogue);

    let filter = Some(vec![0xED, 0xA0, 0x80]);
    let callback = Some(ForeignCallback(0x1234));
    assert_eq!(subscribe(&mut facade, MessageKind::Intent, &filter, callback), Status::GenericError);
    assert_eq!(facade.facade.registrations.len(), 0);
}

#[test]
fn n_events_produce_n_invocations() {
    let handle = root_handle(0xCAFE);
    let mut facade = facade_for(&handle, Domain::Dialogue);
    let callback = Some(ForeignCallback(0x1234));
    assert_eq!(subscribe(&mut facade, MessageKind::SessionStarted, &None, callback), Status::Success);

    let sessions: [&[u8]; 3] = [b"s1", b"s2", b"s3"];
    let mut seen: usize = 0;
    for session in sessions {
        let event = internal_message(MessageKind::SessionStarted, session, b"");
        let invocations = deliver(&facade, &event);
        assert_eq!(invocations.len(), 1);
        let invocation = &invocations[0];
        assert_eq!(invocation.callback, ForeignCallback(0x1234));
        assert_eq!(invocation.user_data.0, 0xCAFE);
        assert_eq!(invocation.payload.session_id, session.to_vec());
        seen += 1;
    }
    assert_eq!(seen, 3);
}

#[test]
fn unmatched_event_fires_nothing() {
    let handle = root_handle(5);
    let mut facade = facade_for(&handle, Domain::Dialogue);
    let callback = Some(ForeignCallback(0x1234));
    assert_eq!(subscribe(&mut facade, MessageKind::SessionStarted, &None, callback), Status::Success);

    let event = internal_message(MessageKind::SessionEnded, b"abc", b"");
    assert_eq!(deliver(&facade, &event).len(), 0);
}

#[test]
fn filtered_subscription_matches_by_key() {
    let handle = root_handle(6);
    let mut facade = facade_for(&handle, Domain::Dialogue);
    let filter = Some(b"lights_on".to_vec());
    let callback = Some(ForeignCallback(0x42));
    assert_eq!(subscribe(&mut facade, MessageKind::Intent, &filter, callback), Status::Success);

    // intent payloads are filtered by the name they carry
    let matching = internal_message(MessageKind::Intent, b"abc", b"lights_on");
    assert_eq!(deliver(&facade, &matching).len(), 1);
    let other = internal_message(MessageKind::Intent, b"abc", b"lights_off");
    assert_eq!(deliver(&facade, &other).len(), 0);
}

#[test]
fn destroying_one_payload_leaves_others_alone() {
    let handle = root_handle(7);
    let mut facade = facade_for(&handle, Domain::Dialogue);
    let callback = Some(ForeignCallback(0x77));
    assert_eq!(subscribe(&mut facade, MessageKind::SessionQueued, &None, callback), Status::Success);

    let first_event = internal_message(MessageKind::SessionQueued, b"one", b"");
    let second_event = internal_message(MessageKind::SessionQueued, b"two", b"");
    let mut first = deliver(&facade, &first_event);
    let mut second = deliver(&facade, &second_event);
    let first_payload = first.remove(0).payload;
    let second_payload = second.remove(0).payload;

    assert_eq!(drop_message(first_payload), Status::Success);
    assert_eq!(second_payload.session_id, b"two".to_vec());
}

#[test]
fn convert_message_round_trip() {
    let raw = dialogue_message(MessageKind::ContinueSession, b"abc", b"text");
    let converted = convert_message(&raw).unwrap();
    let back = message_to_c(&converted);
    assert_eq!(back.kind, MessageKind::ContinueSession);
    assert_eq!(back.session_id, raw.session_id);
    assert_eq!(back.site_id, raw.site_id);
    assert_eq!(back.content, raw.content);
}

#[test]
fn convert_message_rejects_malformed_field() {
    let raw = CMessage {
        kind: MessageKind::EndSession,
        session_id: b"abc".to_vec(),
        site_id: vec![0x80],
        content: Vec::new(),
    };
    match convert_message(&raw) {
        Err(BoundaryError::Conversion) => {}
        _ => panic!("a malformed field must give a conversion failure"),
    }
}

#[test]
fn domain_of_kind_table() {
    assert_eq!(domain_of_kind(MessageKind::StartSession), Domain::Dialogue);
    assert_eq!(domain_of_kind(MessageKind::Site), Domain::SoundFeedback);
    assert_eq!(domain_of_kind(MessageKind::InjectionRequest), Domain::Injection);
    assert_eq!(domain_of_kind(MessageKind::PlayBytes), Domain::AudioServer);
    assert_eq!(domain_of_kind(MessageKind::HotwordDetected), Domain::Hotword);
}

#[test]
fn end_to_end_dialogue_session() {
    // root handle with context value 0xCAFE
    let handle = root_handle(0xCAFE);

    // obtain the dialogue facade
    let mut facade = facade_for(&handle, Domain::Dialogue);

    // publish a start-session message with session id "abc"
    let start = dialogue_message(MessageKind::StartSession, b"abc", b"");
    assert_eq!(publish(&mut facade, &Vec::new(), &start), Status::Success);

    // subscribe to session-started events
    let callback = Some(ForeignCallback(0x5E55));
    assert_eq!(subscribe(&mut facade, MessageKind::SessionStarted, &None, callback), Status::Success);

    // trigger an internal session-started event for "abc"
    let event = internal_message(MessageKind::SessionStarted, b"abc", b"");
    let mut invocations = deliver(&facade, &event);
    assert_eq!(invocations.len(), 1);
    let invocation = invocations.remove(0);
    assert_eq!(invocation.payload.session_id, b"abc".to_vec());
    assert_eq!(invocation.user_data.0, 0xCAFE);

    // destroy the payload, the facade handle, then the root handle; the
    // registrations die with the facade handle, so nothing can fire further
    assert_eq!(drop_message(invocation.payload), Status::Success);
    assert_eq!(drop_facade(facade), Status::Success);
    handle.destroy();
}
