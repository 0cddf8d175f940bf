use hc_notifications::{email_provider, email_service, fcm_provider, notifications, settings};
use hc_notifications::calls::{after_ping, call_result, single_response, PingStep};
use hc_notifications::requests::{agent_link, deletions_of, grant_request, text_link};
use hc_notifications::registry::link_write;
use hc_notifications::email_provider::send_email_signal;
use hc_notifications::email_types::{Email, EmailCredentials};
use hc_notifications::runner::{install_needed, runner_plan, RunnerPlan};
use hc_notifications::errors::{CallPurpose, GuestError, ZomeError};
use hc_notifications::fcm_provider::notify_agent_signal;
use hc_notifications::fcm_recipient::provider_from_answer;
use hc_notifications::hashes::{
    ActionHashValue, AgentKey, DhtHash, EntryHashValue, ExternalHashValue, HashCore, LinkTarget, Linkable,
};
use hc_notifications::notifications::{ping, provider_functions};
use hc_notifications::registry::{agent_targets, current_entry_bytes, current_target, resolve_scoped_type};
use hc_notifications::settings::{settings_action_of, validate, ValidationVerdict};
use hc_notifications::tags::{first_tag_text, tag_of_text, text_of_tag};
use hc_notifications::types::{CallOutcome, CallTarget, ChainOrdering, LinkRecord, RecordEntryView, ScopedType, TypeKey, ZomeTypes};

use hdk::prelude::{AppEntryBytes, ExternIO, SerializedBytes, UnsafeBytes, ZomeCallResponse};

fn hcore(b: u8) -> HashCore {
    HashCore::from_bytes(vec![b; 36]).unwrap()
}

fn agent(b: u8) -> AgentKey {
    AgentKey { core: hcore(b) }
}

fn link(target: LinkTarget, tag: Vec<u8>) -> LinkRecord {
    LinkRecord { target, create_link_hash: ActionHashValue { core: hcore(200) }, tag }
}

fn entry_bytes(v: Vec<u8>) -> AppEntryBytes {
    AppEntryBytes(SerializedBytes::from(UnsafeBytes::from(v)))
}

fn bytes_of(e: &AppEntryBytes) -> Vec<u8> {
    e.0.bytes().clone()
}

#[test]
fn hash_core_needs_exactly_36_bytes() {
    assert!(HashCore::from_bytes(vec![0; 35]).is_none());
    assert!(HashCore::from_bytes(vec![0; 37]).is_none());
    assert!(HashCore::from_bytes(Vec::new()).is_none());
    let bytes: Vec<u8> = (0..36).collect();
    let h = HashCore::from_bytes(bytes.clone()).unwrap();
    assert_eq!(h.to_bytes(), bytes);
    assert_eq!(h.duplicate().to_bytes(), bytes);
}

#[test]
fn hash_core_comparison() {
    let a = hcore(1);
    let mut other: Vec<u8> = vec![1; 36];
    assert!(a.same_as(&HashCore::from_bytes(other.clone()).unwrap()));
    other[35] = 2;
    assert!(!a.same_as(&HashCore::from_bytes(other.clone()).unwrap()));
    other[35] = 1;
    other[0] = 0;
    assert!(!a.same_as(&HashCore::from_bytes(other).unwrap()));
}

#[test]
fn link_target_conversions() {
    let entry = LinkTarget::Entry(EntryHashValue { core: hcore(7) });
    let action = LinkTarget::Action(ActionHashValue { core: hcore(8) });
    let external = LinkTarget::External(ExternalHashValue { core: hcore(9) });

    assert_eq!(entry.agent_key().unwrap().core.to_bytes(), vec![7; 36]);
    assert!(action.agent_key().is_none());
    assert!(external.agent_key().is_none());

    assert!(matches!(entry.dht_hash(), Some(DhtHash::Entry(h)) if h.core.to_bytes() == vec![7; 36]));
    assert!(matches!(action.dht_hash(), Some(DhtHash::Action(h)) if h.core.to_bytes() == vec![8; 36]));
    assert!(external.dht_hash().is_none());

    assert_eq!(action.action_hash().unwrap().core.to_bytes(), vec![8; 36]);
    assert!(entry.action_hash().is_none());
    assert!(external.action_hash().is_none());
}

#[test]
fn registered_text_reads_back() {
    for text in ["someone@example.org", "", "fcm:token/ä€😀", "ünïcödé@exämple.de"] {
        let text = text.to_string();
        let tag = tag_of_text(&text);
        assert_eq!(tag, text.as_bytes().to_vec());
        assert_eq!(text_of_tag(tag.clone()).unwrap(), text);
        let links = vec![link(LinkTarget::Entry(EntryHashValue { core: hcore(1) }), tag)];
        assert_eq!(first_tag_text(&links).unwrap(), Some(text));
    }
}

#[test]
fn tag_of_text_is_utf8() {
    assert_eq!(tag_of_text(&"é".to_string()), vec![0xc3, 0xa9]);
    assert_eq!(tag_of_text(&"ab".to_string()), vec![0x61, 0x62]);
}

#[test]
fn malformed_tag_is_refused() {
    let err = text_of_tag(vec![0x61, 0xff, 0x62]).unwrap_err();
    match err {
        ZomeError::Guest(GuestError::MalformedTag(account)) => assert!(account.contains("Utf8Error")),
        other => panic!("unexpected {other:?}"),
    }
    let links = vec![link(LinkTarget::Entry(EntryHashValue { core: hcore(1) }), vec![0xc3])];
    assert!(matches!(first_tag_text(&links), Err(ZomeError::Guest(GuestError::MalformedTag(_)))));
}

#[test]
fn first_tag_text_of_no_links_is_none() {
    assert_eq!(first_tag_text(&Vec::new()).unwrap(), None);
}

#[test]
fn first_tag_text_reads_only_the_first_link() {
    let links = vec![
        link(LinkTarget::Entry(EntryHashValue { core: hcore(1) }), b"first".to_vec()),
        link(LinkTarget::Entry(EntryHashValue { core: hcore(1) }), vec![0xff]),
    ];
    assert_eq!(first_tag_text(&links).unwrap(), Some("first".to_string()));
}

#[test]
fn agents_are_read_from_entry_targets_in_order() {
    let links = vec![
        link(LinkTarget::Entry(EntryHashValue { core: hcore(3) }), Vec::new()),
        link(LinkTarget::Action(ActionHashValue { core: hcore(4) }), Vec::new()),
        link(LinkTarget::Entry(EntryHashValue { core: hcore(5) }), Vec::new()),
        link(LinkTarget::External(ExternalHashValue { core: hcore(6) }), Vec::new()),
        link(LinkTarget::Entry(EntryHashValue { core: hcore(3) }), Vec::new()),
    ];
    let agents: Vec<Vec<u8>> = agent_targets(&links).iter().map(|a| a.core.to_bytes()).collect();
    assert_eq!(agents, vec![vec![3; 36], vec![5; 36], vec![3; 36]]);
    assert!(agent_targets(&Vec::new()).is_empty());
}

#[test]
fn scoped_type_lookup() {
    let types = vec![
        ZomeTypes { zome_index: 4, types: vec![10, 11] },
        ZomeTypes { zome_index: 7, types: vec![20] },
    ];
    assert_eq!(resolve_scoped_type(&types, TypeKey { dependency: 0, type_index: 1 }), Some(ScopedType { zome_index: 4, type_index: 11 }));
    assert_eq!(resolve_scoped_type(&types, TypeKey { dependency: 1, type_index: 0 }), Some(ScopedType { zome_index: 7, type_index: 20 }));
    assert_eq!(resolve_scoped_type(&types, TypeKey { dependency: 1, type_index: 1 }), None);
    assert_eq!(resolve_scoped_type(&types, TypeKey { dependency: 2, type_index: 0 }), None);
    assert_eq!(resolve_scoped_type(&Vec::new(), TypeKey { dependency: 0, type_index: 0 }), None);
}

#[test]
fn current_target_cases() {
    assert!(matches!(current_target(&Vec::new()), Ok(None)));
    let to_action = vec![link(LinkTarget::Action(ActionHashValue { core: hcore(9) }), Vec::new())];
    assert!(matches!(current_target(&to_action), Ok(Some(DhtHash::Action(h))) if h.core.to_bytes() == vec![9; 36]));
    let to_entry = vec![link(LinkTarget::Entry(EntryHashValue { core: hcore(8) }), Vec::new())];
    assert!(matches!(current_target(&to_entry), Ok(Some(DhtHash::Entry(h))) if h.core.to_bytes() == vec![8; 36]));
    let to_external = vec![link(LinkTarget::External(ExternalHashValue { core: hcore(7) }), Vec::new())];
    assert!(matches!(current_target(&to_external), Err(ZomeError::Guest(GuestError::MalformedLink))));
}

#[test]
fn current_entry_bytes_cases() {
    assert!(matches!(current_entry_bytes(None), Ok(None)));
    assert!(matches!(current_entry_bytes(Some(RecordEntryView::Absent)), Err(ZomeError::Guest(GuestError::MalformedKey))));
    assert!(matches!(current_entry_bytes(Some(RecordEntryView::NotApp)), Err(ZomeError::Guest(GuestError::NotAppEntry))));
    let found = current_entry_bytes(Some(RecordEntryView::App(entry_bytes(vec![1, 2, 3])))).unwrap().unwrap();
    assert_eq!(bytes_of(&found), vec![1, 2, 3]);
}

#[test]
fn settings_action_cases() {
    assert!(matches!(settings_action_of(&Vec::new()), Ok(None)));
    let good = vec![link(LinkTarget::Action(ActionHashValue { core: hcore(5) }), Vec::new())];
    assert_eq!(settings_action_of(&good).unwrap().unwrap().core.to_bytes(), vec![5; 36]);
    let bad = vec![link(LinkTarget::Entry(EntryHashValue { core: hcore(5) }), Vec::new())];
    assert!(matches!(settings_action_of(&bad), Err(ZomeError::Guest(GuestError::MalformedSettingsLink))));
}

#[test]
fn call_answers_decide_the_result() {
    let ok = ZomeCallResponse::Ok(ExternIO(vec![0xc0]));
    assert_eq!(call_result(CallPurpose::NotifyAgent, CallOutcome::Answered(vec![0xc0]), ok).unwrap(), vec![0xc0]);
    for outcome in [CallOutcome::Unauthorized, CallOutcome::NetworkError, CallOutcome::CountersigningSession] {
        let response = ZomeCallResponse::NetworkError("unreachable".to_string());
        match call_result(CallPurpose::RegisterFcmToken, outcome, response) {
            Err(ZomeError::Guest(GuestError::CallFailed(CallPurpose::RegisterFcmToken, ZomeCallResponse::NetworkError(m)))) => {
                assert_eq!(m, "unreachable")
            }
            other => panic!("unexpected {other:?}"),
        }
    }
}

#[test]
fn single_response_takes_the_first() {
    assert!(matches!(single_response(Vec::new()), Err(ZomeError::Guest(GuestError::NoCallResponse))));
    let first = single_response(vec![
        ZomeCallResponse::NetworkError("a".to_string()),
        ZomeCallResponse::NetworkError("b".to_string()),
    ]);
    assert!(matches!(first, Ok(ZomeCallResponse::NetworkError(m)) if m == "a"));
}

#[test]
fn providers_are_required() {
    assert!(matches!(provider_from_answer(None), Err(ZomeError::Guest(GuestError::NoProviderAvailable))));
    assert_eq!(provider_from_answer(Some(agent(4))).unwrap().core.to_bytes(), vec![4; 36]);
}

#[test]
fn notify_agent_signal_cases() {
    let notification = || SerializedBytes::from(UnsafeBytes::from(vec![9, 9]));
    assert!(matches!(notify_agent_signal(notification(), None, None), Err(ZomeError::Guest(GuestError::NoFcmToken))));
    assert!(matches!(
        notify_agent_signal(notification(), None, Some(entry_bytes(vec![1]))),
        Err(ZomeError::Guest(GuestError::NoFcmToken))
    ));
    assert!(matches!(
        notify_agent_signal(notification(), Some("tok".to_string()), None),
        Err(ZomeError::Guest(GuestError::NoServiceAccountKey))
    ));
    let signal = notify_agent_signal(notification(), Some("tok".to_string()), Some(entry_bytes(vec![1, 2]))).unwrap();
    assert_eq!(signal.notification, notification());
    assert_eq!(signal.token, "tok");
    assert_eq!(bytes_of(&signal.service_account_key), vec![1, 2]);
}

#[test]
fn send_email_signal_cases() {
    let email = || Email { subject: "Hi".to_string(), body: "There".to_string() };
    assert!(matches!(send_email_signal(email(), None, None), Err(ZomeError::Guest(GuestError::NoEmailCredentials))));
    assert!(matches!(
        send_email_signal(email(), None, Some("a@b.c".to_string())),
        Err(ZomeError::Guest(GuestError::NoEmailCredentials))
    ));
    assert!(matches!(
        send_email_signal(email(), Some(entry_bytes(vec![1])), None),
        Err(ZomeError::Guest(GuestError::NoEmailAddress))
    ));
    let signal = send_email_signal(email(), Some(entry_bytes(vec![5])), Some("a@b.c".to_string())).unwrap();
    assert_eq!(signal.email, email());
    assert_eq!(signal.email_address, "a@b.c");
    assert_eq!(bytes_of(&signal.credentials), vec![5]);
}

#[test]
fn ping_and_validate_always_succeed() {
    assert!(ping().is_ok());
    assert!(hc_notifications::email_service::ping().is_ok());
    assert_eq!(validate(), ValidationVerdict::Valid);
}

#[test]
fn provider_grant_lists_ping_and_notify_agent() {
    assert_eq!(provider_functions(), vec!["ping", "notify_agent"]);
    assert_eq!(hc_notifications::email_service::provider_functions(), vec!["ping", "send_email"]);
    assert_eq!(hc_notifications::email_bridge::bridge_functions(), vec!["register_email_address", "send_email"]);
    assert_eq!(hc_notifications::fcm_service_bridge::bridge_functions(), vec!["register_fcm_token", "notify_agent"]);
}

#[test]
fn link_and_entry_types_are_keyed_by_declaration_order() {
    let key = |d: u8, t: u8| TypeKey { dependency: d, type_index: t };
    assert_eq!(notifications::LinkTypes::NotificationsProvider.key(), key(0, 0));
    assert_eq!(email_service::LinkTypes::NotificationsProvider.key(), key(0, 0));
    assert_eq!(fcm_provider::LinkTypes::ServiceAccountKeys.key(), key(0, 0));
    assert_eq!(fcm_provider::LinkTypes::FCMToken.key(), key(0, 1));
    assert_eq!(email_provider::LinkTypes::EmailCredentials.key(), key(0, 0));
    assert_eq!(email_provider::LinkTypes::EmailAddresses.key(), key(0, 1));
    assert_eq!(settings::LinkTypes::AgentToNotificationsSettings.key(), key(0, 0));
    assert_eq!(fcm_provider::EntryTypes::ServiceAccountKey(entry_bytes(vec![1])).key(), key(0, 0));
    assert_eq!(email_provider::EntryTypes::EmailCredentials(entry_bytes(vec![1])).key(), key(0, 0));
    assert_eq!(settings::EntryTypes::NotificationsSettings(entry_bytes(vec![1])).key(), key(0, 0));
}

#[test]
fn pings_go_in_list_order_and_stop_at_the_first_answer() {
    assert_eq!(after_ping(0, 3, true), PingStep::Found(0));
    assert_eq!(after_ping(0, 3, false), PingStep::Next(1));
    assert_eq!(after_ping(1, 3, false), PingStep::Next(2));
    assert_eq!(after_ping(2, 3, false), PingStep::Exhausted);
    assert_eq!(after_ping(2, 3, true), PingStep::Found(2));
}


#[test]
fn agent_keys_are_read_from_their_full_form() {
    let mut full = vec![0x84, 0x20, 0x24];
    full.extend(vec![5; 36]);
    assert_eq!(AgentKey::from_full_bytes(&full).unwrap().core.to_bytes(), vec![5; 36]);
    let mut action = vec![0x84, 0x29, 0x24];
    action.extend(vec![5; 36]);
    assert!(AgentKey::from_full_bytes(&action).is_none());
    assert!(AgentKey::from_full_bytes(&vec![0x84, 0x20]).is_none());
    assert!(AgentKey::from_full_bytes(&full[..38].to_vec()).is_none());
}

#[test]
fn requests_name_what_they_send() {
    let payload = vec![0xc0];
    let r = hc_notifications::fcm_bridge::notify_request(payload.clone());
    assert!(matches!(r.target, CallTarget::OtherRole("notification_provider")));
    assert_eq!((r.zome.as_str(), r.function.as_str()), ("fcm_notification_provider", "notify_agent"));
    assert_eq!(r.payload, payload);
    let r = hc_notifications::fcm_recipient::token_request(agent(3), payload.clone());
    assert!(matches!(&r.target, CallTarget::Agent(k) if k.core.to_bytes() == vec![3; 36]));
    assert_eq!((r.zome.as_str(), r.function.as_str()), ("notifications_provider_fcm_bridge", "register_fcm_token"));
    assert_eq!(r.purpose, CallPurpose::RegisterFcmToken);
    let r = hc_notifications::email_service::registration_request(agent(4), payload.clone());
    assert_eq!((r.zome.as_str(), r.function.as_str()), ("email_notifications_bridge", "register_email_address"));
    let g = grant_request("notifications_provider", "notifications", notifications::provider_functions());
    assert_eq!((g.tag.as_str(), g.zome.as_str(), g.functions), ("notifications_provider", "notifications", vec!["ping", "notify_agent"]));
    let links = vec![link(LinkTarget::Entry(EntryHashValue { core: hcore(1) }), vec![])];
    let d = deletions_of(&links, ChainOrdering::Relaxed);
    assert_eq!(d.len(), 1);
    assert_eq!(d[0].address.core.to_bytes(), vec![200; 36]);
    assert_eq!(d[0].ordering, ChainOrdering::Relaxed);
    let scoped = ScopedType { zome_index: 1, type_index: 2 };
    let w = link_write(
        Linkable::Entry(EntryHashValue { core: hcore(6) }),
        Linkable::Action(ActionHashValue { core: hcore(7) }),
        scoped,
        Vec::new(),
        ChainOrdering::Strict,
    );
    assert!(matches!(&w.base, Linkable::Entry(h) if h.core.to_bytes() == vec![6; 36]));
    assert!(matches!(&w.target, Linkable::Action(h) if h.core.to_bytes() == vec![7; 36]));
    assert!(w.tag.is_empty());
    let w = agent_link(EntryHashValue { core: hcore(6) }, agent(8), scoped, ChainOrdering::Relaxed);
    assert!(matches!(&w.target, Linkable::Agent(k) if k.core.to_bytes() == vec![8; 36]));
    let w = text_link(&agent(9), tag_of_text(&"a@b".to_string()), scoped);
    assert!(matches!(&w.base, Linkable::Agent(k) if k.core.to_bytes() == vec![9; 36]));
    assert_eq!(w.tag, b"a@b".to_vec());
    assert_eq!(w.ordering, ChainOrdering::Relaxed);
}

#[test]
fn the_runner_installs_once_and_publishes_only_when_asked() {
    assert!(install_needed(0));
    assert!(!install_needed(1));
    let c = EmailCredentials { username: "a".to_string(), password: "p".to_string(), smtp_relay_url: "r".to_string() };
    assert!(matches!(runner_plan(Some(c.clone())), RunnerPlan::PublishCredentials(d) if d == c));
    assert!(matches!(runner_plan(None), RunnerPlan::ListenForSignals));
}
