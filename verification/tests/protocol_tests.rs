use rosthem::Coap;
use rosthem::CoapAddress;
use rosthem::CoapError;
use rosthem::CoapContext;
use rosthem::CoapLogLevel;
use rosthem::CoapMethod;
use rosthem::CoapOptList;
use rosthem::CoapPdu;
use rosthem::CoapPduBuilder;
use rosthem::CoapRuntime;
use rosthem::CoapSession;
use rosthem::CoapSessionExt;
use rosthem::CoapToken;
use rosthem::CoapUri;
use rosthem::LightColorPreset;
use rosthem::LightInfo;
use rosthem::RunStep;

fn fresh_session(warmup: bool) -> CoapSession {
    let mut runtime = CoapRuntime::new();
    let coap = Coap::new(&mut runtime, None).unwrap();
    let context = coap.new_context().unwrap();
    let uri = CoapUri::new("coaps://192.168.1.50/15001/65539".to_string()).unwrap();
    context.new_session([192, 168, 1, 50], uri, "user", "psk-key", warmup).unwrap()
}

#[test]
fn second_engine_start_while_alive_is_refused() {
    let mut runtime = CoapRuntime::new();
    let first = Coap::new(&mut runtime, Some(CoapLogLevel::Debug)).unwrap();
    assert!(matches!(
        Coap::new(&mut runtime, None),
        Err(CoapError::AlreadyInitialized)
    ));
    first.shutdown(&mut runtime);
    let second = Coap::new(&mut runtime, None);
    assert!(second.is_ok());
}

#[test]
fn engine_applies_requested_log_level() {
    let mut runtime = CoapRuntime::new();
    let coap = Coap::new(&mut runtime, Some(CoapLogLevel::Debug)).unwrap();
    assert_eq!(coap.log_level().code(), 7);
    coap.shutdown(&mut runtime);
    let coap = Coap::new(&mut runtime, None).unwrap();
    assert_eq!(coap.log_level().code(), 0);
}

#[test]
fn blocking_run_never_completes_on_time() {
    assert_eq!(CoapContext::run_step(None, 0), RunStep::Poll);
    assert_eq!(CoapContext::run_step(None, 100000), RunStep::Poll);
    assert_eq!(CoapContext::run_step(None, -1), RunStep::Fail);
}

#[test]
fn bounded_run_completes_within_tolerance() {
    assert_eq!(CoapContext::run_step(Some(100), 100), RunStep::Complete);
    assert_eq!(CoapContext::run_step(Some(100), 104), RunStep::Complete);
    assert_eq!(CoapContext::run_step(Some(100), 96), RunStep::Complete);
    assert_eq!(CoapContext::run_step(Some(100), 105), RunStep::Poll);
    assert_eq!(CoapContext::run_step(Some(100), 95), RunStep::Poll);
    assert_eq!(CoapContext::run_step(Some(100), -1), RunStep::Fail);
    assert_eq!(CoapContext::run_step(Some(0), 0), RunStep::Complete);
}

#[test]
fn responses_are_dispatched_only_inside_a_listen_window() {
    let mut runtime = CoapRuntime::new();
    let coap = Coap::new(&mut runtime, None).unwrap();
    let mut context = coap.new_context().unwrap();
    let token = CoapToken::from_bytes(&[1, 2, 3]);
    assert_eq!(context.dispatch_response(token, Some(vec![0x7b, 0x7d])), None);
    context.begin_run();
    assert_eq!(context.dispatch_response(token, None), None);
    assert_eq!(
        context.dispatch_response(token, Some(vec![0x7b, 0x7d])),
        Some((token, vec![0x7b, 0x7d]))
    );
    context.end_run();
    assert_eq!(context.dispatch_response(token, Some(vec![0x7b, 0x7d])), None);
}

#[test]
fn address_layout_is_fixed() {
    let addr = CoapAddress::new([192, 168, 1, 50]);
    let raw = addr.raw();
    assert_eq!(raw.len(), 32);
    let expected: Vec<u8> = vec![
        0x10, 0, 0, 0, 0x02, 0, 0x16, 0x34, 192, 168, 1, 50, 0, 0, 0, 0, 0, 0, 0, 0, 0xE0, 0, 0,
        0, 0xE0, 0, 0, 0, 0x06, 0, 0, 0,
    ];
    assert_eq!(raw, &expected);
}

#[test]
fn initial_token_is_eight_zero_bytes() {
    let t = CoapToken::new();
    assert_eq!(t.len(), 8);
    assert_eq!(t.value(), 0);
}

#[test]
fn token_from_bytes_is_little_endian() {
    let t = CoapToken::from_bytes(&[0x12, 0x34]);
    assert_eq!(t.len(), 2);
    assert_eq!(t.value(), 0x3412);
    let empty = CoapToken::from_bytes(&[]);
    assert_eq!(empty.len(), 0);
    assert_eq!(empty.value(), 0);
}

#[test]
fn rolled_token_differs() {
    let t = CoapToken::new();
    let r = t.rolled();
    assert_ne!(t, r);
    assert_eq!(r.len(), 8);
    assert_eq!(r.value(), 1);
    let top = CoapToken::from_bytes(&[0xFF; 8]);
    let wrapped = top.rolled();
    assert_ne!(top, wrapped);
    assert_eq!(wrapped.value(), 0);
}

#[test]
fn optlist_keeps_insertion_order() {
    let mut optlist = CoapOptList::new();
    optlist.add_path_segment("15001").unwrap();
    optlist.add_path_segment("65539").unwrap();
    let options = optlist.options();
    assert_eq!(options.len(), 2);
    assert_eq!(options[0].number, 11);
    assert_eq!(options[0].value, "15001");
    assert_eq!(options[1].number, 11);
    assert_eq!(options[1].value, "65539");
}

#[test]
fn path_segments_are_split_in_path_order() {
    let uri = CoapUri::new("coaps://gw/15001/65539".to_string()).unwrap();
    let mut optlist = CoapOptList::new();
    optlist.add_uri_path_segments(&uri).unwrap();
    let options = optlist.options();
    assert_eq!(options.len(), 2);
    assert_eq!(options[0].value, "15001");
    assert_eq!(options[1].value, "65539");
}

#[test]
fn empty_path_segments_vanish() {
    let uri = CoapUri::new("coaps://gw/a//b/".to_string()).unwrap();
    let mut optlist = CoapOptList::new();
    optlist.add_uri_path_segments(&uri).unwrap();
    let options = optlist.options();
    assert_eq!(options.len(), 2);
    assert_eq!(options[0].value, "a");
    assert_eq!(options[1].value, "b");
}

#[test]
fn empty_path_yields_no_options() {
    let uri = CoapUri::new("coaps://gw".to_string()).unwrap();
    let mut optlist = CoapOptList::new();
    optlist.add_uri_path_segments(&uri).unwrap();
    assert_eq!(optlist.len(), 0);
}

#[test]
fn overlong_path_is_refused_whole() {
    let long_path = "a".repeat(300);
    let uri = CoapUri::new(format!("coaps://gw/{}", long_path)).unwrap();
    let mut optlist = CoapOptList::new();
    optlist.add_path_segment("kept").unwrap();
    let r = optlist.add_uri_path_segments(&uri);
    assert!(matches!(r, Err(CoapError::UriTooLong)));
    assert_eq!(optlist.len(), 1);
    assert_eq!(optlist.options()[0].value, "kept");
}

#[test]
fn non_ascii_identity_is_rejected_first() {
    let mut runtime = CoapRuntime::new();
    let coap = Coap::new(&mut runtime, None).unwrap();
    let context = coap.new_context().unwrap();
    let uri = CoapUri::new("coaps://gw/x".to_string()).unwrap();
    let r = context.new_session([1, 2, 3, 4], uri, "usér", "klé", false);
    assert!(matches!(r, Err(CoapError::IdentityNotAscii)));
}

#[test]
fn non_ascii_key_is_rejected() {
    let mut runtime = CoapRuntime::new();
    let coap = Coap::new(&mut runtime, None).unwrap();
    let context = coap.new_context().unwrap();
    let uri = CoapUri::new("coaps://gw/x".to_string()).unwrap();
    let r = context.new_session([1, 2, 3, 4], uri, "user", "klé", false);
    assert!(matches!(r, Err(CoapError::KeyNotAscii)));
}

#[test]
fn new_session_initializes_token_slot() {
    let session = fresh_session(true);
    assert_eq!(session.last_token().len(), 8);
    assert_eq!(session.last_token().value(), 0);
    assert_eq!(session.outbox().len(), 0);
    assert_eq!(session.uri().host().as_str(), "192.168.1.50");
}

#[test]
fn status_request_carries_current_token_and_path() {
    let mut session = fresh_session(false);
    let token_before = session.last_token();
    session.request_status("65539").unwrap();
    let outbox = session.outbox();
    assert_eq!(outbox.len(), 1);
    let pdu = &outbox[0];
    assert_eq!(pdu.method(), CoapMethod::Get);
    assert_eq!(pdu.token(), Some(token_before));
    let options = pdu.options().options();
    assert_eq!(options.len(), 2);
    assert_eq!(options[0].number, 11);
    assert_eq!(options[0].value, "15001");
    assert_eq!(options[1].number, 11);
    assert_eq!(options[1].value, "65539");
    assert!(pdu.payload().is_none());
    assert_ne!(session.last_token(), token_before);
}

#[test]
fn send_returns_the_sent_token_and_rerolls() {
    let mut session = fresh_session(false);
    let before = session.last_token();
    let builder = CoapPduBuilder::new(CoapMethod::Get);
    let sent = session.send_pdu(builder).unwrap();
    assert_eq!(sent, before);
    assert_ne!(session.last_token(), sent);
    let second = session.send_pdu(CoapPduBuilder::new(CoapMethod::Get)).unwrap();
    assert_ne!(second, sent);
}

#[test]
fn update_light_serializes_command_payload() {
    let mut session = fresh_session(false);
    let command = LightInfo::new().on(true).brightness(254).color_preset(LightColorPreset::Yellow);
    session.update_light("65539", command).unwrap();
    let outbox = session.outbox();
    assert_eq!(outbox.len(), 1);
    let pdu = &outbox[0];
    assert_eq!(pdu.method(), CoapMethod::Put);
    let payload = pdu.payload().as_ref().unwrap();
    assert_eq!(payload.as_str(), "{\"3311\":[{\"5850\":1,\"5851\":254,\"5706\":\"d6e44b\"}]}");
}

#[test]
fn take_outbox_drains_pending_messages() {
    let mut session = fresh_session(false);
    session.request_status("65539").unwrap();
    session.request_status("65540").unwrap();
    let taken = session.take_outbox();
    assert_eq!(taken.len(), 2);
    assert_eq!(session.outbox().len(), 0);
}

#[test]
fn second_payload_attach_is_refused_and_first_kept() {
    let mut pdu = CoapPdu::new(CoapMethod::Put);
    let first = LightInfo::new().on(true);
    let second = LightInfo::new().brightness(10);
    pdu.add_payload(&first).unwrap();
    let r = pdu.add_payload(&second);
    assert!(matches!(r, Err(CoapError::AlreadyHasPayload)));
    assert_eq!(pdu.payload().as_ref().unwrap().as_str(), "{\"3311\":[{\"5850\":1}]}");
}

#[test]
fn builder_realizes_method_token_options_payload() {
    let mut optlist = CoapOptList::new();
    optlist.add_path_segment("15001").unwrap();
    let pdu = CoapPduBuilder::new(CoapMethod::Post)
        .with_optlist(optlist)
        .build_with_payload(LightInfo::new().on(false))
        .unwrap();
    assert_eq!(pdu.method(), CoapMethod::Post);
    assert_eq!(pdu.token(), None);
    assert_eq!(pdu.options().options()[0].value, "15001");
    assert_eq!(pdu.payload().as_ref().unwrap().as_str(), "{\"3311\":[{\"5850\":0}]}");
}

#[test]
fn extension_trait_requests_through_the_session() {
    let mut session = fresh_session(false);
    CoapSessionExt::request_status(&mut session, "65539").unwrap();
    CoapSessionExt::update_light(&mut session, "65539", LightInfo::new().on(true)).unwrap();
    assert_eq!(session.outbox().len(), 2);
    assert_eq!(session.outbox()[0].method(), CoapMethod::Get);
    assert_eq!(session.outbox()[1].method(), CoapMethod::Put);
}

#[test]
fn event_and_nack_hooks_take_no_action() {
    let mut runtime = CoapRuntime::new();
    let coap = Coap::new(&mut runtime, None).unwrap();
    let context = coap.new_context().unwrap();
    assert_eq!(context.dispatch_event(4), 0);
    context.dispatch_nack(2);
}
