use std::collections::hash_map::DefaultHasher;
use std::hash::{Hash, Hasher};
use std::sync::{Arc, Mutex};

use hc_notifications::email_provider::{
    get_current_email_credentials, get_email_address_for_agent, publish_new_email_credentials,
    register_email_address_for_agent, send_email, EntryTypes as EmailEntryTypes,
};
use hc_notifications::email_types::{Email, RegisterEmailAddressInput, SendEmailInput};
use hc_notifications::host::HostLog;
use hc_notifications::errors::{CallPurpose, GuestError, ZomeError};
use hc_notifications::fcm_provider::{
    get_current_service_account_key, get_fcm_token_for_agent, notify_agent, publish_new_service_account_key,
    register_fcm_token_for_agent, EntryTypes as FcmEntryTypes, RegisterFcmTokenInput,
};
use hc_notifications::hashes::{AgentKey, HashCore};
use hc_notifications::notifications::{
    announce_as_provider, get_all_notifications_provider, get_available_notification_provider, providers_path,
    request_notify_agent, NotifyAgentInput,
};
use hc_notifications::fcm_recipient::provider_in_answer;
use hc_notifications::settings::{set_notifications_settings, settings_action_for, EntryTypes as SettingsEntryTypes};

use hdk::prelude::{
    ActionHash, AgentInfo, AgentPubKey, AnyLinkableHash, AppEntryBytes, CallInfo, CallTarget, CallTargetCell, CapGrant,
    ChainTopOrdering, Dna, DnaHash, Entry, EntryDefIndex, EntryDefLocation, EntryDefs, EntryHash, ExternIO,
    FunctionName, GrantedFunctions, HashInput, HashOutput, HoloHashed, Link, LinkTag, LinkType, MockHdkT, Record,
    RecordEntry, ScopedZomeTypes, ScopedZomeTypesSet, SerializedBytes, Signature, SignedHashed, Timestamp,
    UnsafeBytes, ZomeCallResponse, ZomeIndex, ZomeInfo,
};

const ME: u8 = 11;
const CALLER: u8 = 22;

fn agent_key(b: u8) -> AgentKey {
    AgentKey { core: HashCore::from_bytes(vec![b; 36]).unwrap() }
}

fn pub_key(b: u8) -> AgentPubKey {
    AgentPubKey::from_raw_36(vec![b; 36])
}

fn entry_bytes(v: Vec<u8>) -> AppEntryBytes {
    AppEntryBytes(SerializedBytes::from(UnsafeBytes::from(v)))
}

/// What the fake host has seen and holds.
#[derive(Default)]
struct State {
    links: Vec<Link>,
    records: Vec<(ActionHash, Entry)>,
    deleted: Vec<(ActionHash, ChainTopOrdering)>,
    created_links: Vec<(LinkTag, ChainTopOrdering)>,
    grants: Vec<(String, Vec<(String, String)>)>,
    calls: Vec<(CallTarget, String, String, Vec<u8>)>,
    next: u8,
}

type Responder = Box<dyn FnMut(&hdk::prelude::Call) -> ZomeCallResponse + Send>;

fn full_scope() -> ScopedZomeTypesSet {
    ScopedZomeTypesSet {
        entries: ScopedZomeTypes(vec![(ZomeIndex(2), vec![EntryDefIndex(0)])]),
        links: ScopedZomeTypes(vec![(ZomeIndex(2), vec![LinkType(0), LinkType(1)])]),
    }
}

fn install(responder: Responder) -> Arc<Mutex<State>> {
    install_with_scope(responder, full_scope())
}

fn install_with_scope(responder: Responder, scope: ScopedZomeTypesSet) -> Arc<Mutex<State>> {
    let state = Arc::new(Mutex::new(State { next: 100, ..Default::default() }));
    let responder = Arc::new(Mutex::new(responder));
    let mut mock = MockHdkT::new();
    mock.expect_zome_info().returning(move |_| {
        Ok(ZomeInfo::new(
            "notifications".into(),
            ZomeIndex(3),
            SerializedBytes::from(UnsafeBytes::from(Vec::new())),
            EntryDefs(Vec::new()),
            Vec::new(),
            scope.clone(),
        ))
    });
    mock.expect_agent_info().returning(|_| {
        Ok(AgentInfo::new(pub_key(ME), pub_key(ME), (ActionHash::from_raw_36(vec![0; 36]), 0, Timestamp(0))))
    });
    mock.expect_call_info().returning(|_| {
        Ok(CallInfo {
            provenance: pub_key(CALLER),
            function_name: FunctionName::from("f"),
            as_at: (ActionHash::from_raw_36(vec![0; 36]), 0, Timestamp(0)),
            cap_grant: CapGrant::ChainAuthor(pub_key(ME)),
        })
    });
    mock.expect_hash().returning(|input| match input {
        HashInput::Entry(entry) => {
            let mut hasher = DefaultHasher::new();
            format!("{entry:?}").hash(&mut hasher);
            let mut bytes = hasher.finish().to_le_bytes().to_vec();
            bytes.resize(36, 7);
            Ok(HashOutput::Entry(EntryHash::from_raw_36(bytes)))
        }
        other => panic!("unexpected hash input {other:?}"),
    });
    let s = state.clone();
    mock.expect_get_links().returning(move |inputs| {
        let st = s.lock().unwrap();
        Ok(inputs
            .iter()
            .map(|input| {
                st.links
                    .iter()
                    .filter(|l| l.base == input.base_address && input.link_type.contains(&l.zome_index, &l.link_type))
                    .cloned()
                    .collect()
            })
            .collect())
    });
    let s = state.clone();
    mock.expect_create_link().returning(move |input| {
        let mut st = s.lock().unwrap();
        st.next += 1;
        let hash = ActionHash::from_raw_36(vec![st.next; 36]);
        st.created_links.push((input.tag.clone(), input.chain_top_ordering.clone()));
        st.links.push(Link {
            author: pub_key(ME),
            base: input.base_address,
            target: input.target_address,
            timestamp: Timestamp(0),
            zome_index: input.zome_index,
            link_type: input.link_type,
            tag: input.tag,
            create_link_hash: hash.clone(),
        });
        Ok(hash)
    });
    let s = state.clone();
    mock.expect_delete_link().returning(move |input| {
        let mut st = s.lock().unwrap();
        st.links.retain(|l| l.create_link_hash != input.address);
        st.deleted.push((input.address.clone(), input.chain_top_ordering.clone()));
        st.next += 1;
        Ok(ActionHash::from_raw_36(vec![st.next; 36]))
    });
    let s = state.clone();
    mock.expect_create().returning(move |input| {
        let mut st = s.lock().unwrap();
        st.next += 1;
        let hash = ActionHash::from_raw_36(vec![st.next; 36]);
        match (&input.entry_location, &input.entry) {
            (EntryDefLocation::CapGrant, Entry::CapGrant(grant)) => {
                let functions = match &grant.functions {
                    GrantedFunctions::Listed(set) => set.iter().map(|(z, f)| (z.0.to_string(), f.0.clone())).collect(),
                    GrantedFunctions::All => Vec::new(),
                };
                st.grants.push((grant.tag.clone(), functions));
            }
            _ => st.records.push((hash.clone(), input.entry.clone())),
        }
        Ok(hash)
    });
    let s = state.clone();
    mock.expect_get().returning(move |inputs| {
        let st = s.lock().unwrap();
        Ok(inputs
            .iter()
            .map(|input| {
                let action = input.any_dht_hash.clone().into_action_hash()?;
                let (_, entry) = st.records.iter().find(|(h, _)| *h == action)?;
                let dna = hdk::prelude::Action::Dna(Dna {
                    author: pub_key(ME),
                    timestamp: Timestamp(0),
                    hash: DnaHash::from_raw_36(vec![1; 36]),
                });
                Some(Record {
                    signed_action: SignedHashed {
                        hashed: HoloHashed::with_pre_hashed(dna, action.clone()),
                        signature: Signature([0; 64]),
                    },
                    entry: RecordEntry::Present(entry.clone()),
                })
            })
            .collect())
    });
    let s = state.clone();
    mock.expect_call().returning(move |calls| {
        let mut st = s.lock().unwrap();
        let mut r = responder.lock().unwrap();
        Ok(calls
            .iter()
            .map(|c| {
                st.calls.push((c.target.clone(), c.zome_name.0.to_string(), c.fn_name.0.clone(), c.payload.0.clone()));
                r(c)
            })
            .collect())
    });
    hdk::prelude::set_hdk(mock);
    state
}

fn no_calls() -> Responder {
    Box::new(|c| panic!("unexpected call {c:?}"))
}

fn answered(bytes: Vec<u8>) -> ZomeCallResponse {
    ZomeCallResponse::Ok(ExternIO(bytes))
}

#[test]
fn without_a_host_every_call_fails_with_the_host_error() {
    assert!(matches!(get_all_notifications_provider(&mut HostLog::new()), Err(ZomeError::Host(_))));
    assert!(matches!(announce_as_provider(&mut HostLog::new()), Err(ZomeError::Host(_))));
    assert!(matches!(request_notify_agent(vec![0xc0], &mut HostLog::new()), Err(ZomeError::Host(_))));
}

#[test]
fn email_address_written_is_read_back_and_replaced() {
    let state = install(no_calls());
    let alice = || agent_key(5);
    assert_eq!(get_email_address_for_agent(&alice(), &mut HostLog::new()).unwrap(), None);

    register_email_address_for_agent(RegisterEmailAddressInput { email_address: "alice@example.org".to_string(), agent: alice() }, &mut HostLog::new())
        .unwrap();
    assert_eq!(get_email_address_for_agent(&alice(), &mut HostLog::new()).unwrap(), Some("alice@example.org".to_string()));

    register_email_address_for_agent(RegisterEmailAddressInput { email_address: "älice@exämple.org".to_string(), agent: alice() }, &mut HostLog::new())
        .unwrap();
    assert_eq!(get_email_address_for_agent(&alice(), &mut HostLog::new()).unwrap(), Some("älice@exämple.org".to_string()));
    assert_eq!(get_email_address_for_agent(&agent_key(6), &mut HostLog::new()).unwrap(), None);

    let st = state.lock().unwrap();
    assert_eq!(st.links.len(), 1);
    assert_eq!(st.deleted.len(), 1);
    assert_eq!(st.deleted[0].1, ChainTopOrdering::Relaxed);
    assert_eq!(st.created_links[0], (LinkTag(b"alice@example.org".to_vec()), ChainTopOrdering::Relaxed));
    let expected: AnyLinkableHash = pub_key(5).into();
    assert_eq!(st.links[0].base, expected);
    assert_eq!(st.links[0].target, expected);
    assert_eq!(st.links[0].link_type, LinkType(1));
    assert_eq!(st.links[0].zome_index, ZomeIndex(2));
}

#[test]
fn malformed_email_tag_is_reported() {
    let state = install(no_calls());
    let base: AnyLinkableHash = pub_key(5).into();
    state.lock().unwrap().links.push(Link {
        author: pub_key(5),
        base: base.clone(),
        target: base,
        timestamp: Timestamp(0),
        zome_index: ZomeIndex(2),
        link_type: LinkType(1),
        tag: LinkTag(vec![0xff, 0xfe]),
        create_link_hash: ActionHash::from_raw_36(vec![9; 36]),
    });
    assert!(matches!(
        get_email_address_for_agent(&agent_key(5), &mut HostLog::new()),
        Err(ZomeError::Guest(GuestError::MalformedTag(_)))
    ));
}

#[test]
fn service_account_key_published_is_current() {
    let state = install(no_calls());
    assert!(get_current_service_account_key(&mut HostLog::new()).unwrap().is_none());
    publish_new_service_account_key(FcmEntryTypes::ServiceAccountKey(entry_bytes(vec![1, 2, 3])), &mut HostLog::new()).unwrap();
    assert_eq!(get_current_service_account_key(&mut HostLog::new()).unwrap().unwrap(), entry_bytes(vec![1, 2, 3]));
    publish_new_service_account_key(FcmEntryTypes::ServiceAccountKey(entry_bytes(vec![4])), &mut HostLog::new()).unwrap();
    assert_eq!(get_current_service_account_key(&mut HostLog::new()).unwrap().unwrap(), entry_bytes(vec![4]));
    let st = state.lock().unwrap();
    assert_eq!(st.links.len(), 1);
    assert_eq!(st.records.len(), 2);
    assert_eq!(st.deleted.len(), 1);
    assert_eq!(st.deleted[0].1, ChainTopOrdering::Strict);
    assert_eq!(st.created_links[1].1, ChainTopOrdering::Strict);
}

#[test]
fn email_credentials_published_are_current_with_relaxed_links() {
    let state = install(no_calls());
    assert!(get_current_email_credentials(&mut HostLog::new()).unwrap().is_none());
    publish_new_email_credentials(EmailEntryTypes::EmailCredentials(entry_bytes(vec![8])), &mut HostLog::new()).unwrap();
    assert_eq!(get_current_email_credentials(&mut HostLog::new()).unwrap().unwrap(), entry_bytes(vec![8]));
    publish_new_email_credentials(EmailEntryTypes::EmailCredentials(entry_bytes(vec![9])), &mut HostLog::new()).unwrap();
    assert_eq!(get_current_email_credentials(&mut HostLog::new()).unwrap().unwrap(), entry_bytes(vec![9]));
    let st = state.lock().unwrap();
    assert_eq!(st.deleted[0].1, ChainTopOrdering::Relaxed);
    assert!(st.created_links.iter().all(|(_, o)| *o == ChainTopOrdering::Relaxed));
}

#[test]
fn the_current_value_that_points_outside_the_dht_is_malformed() {
    let state = install(no_calls());
    publish_new_service_account_key(FcmEntryTypes::ServiceAccountKey(entry_bytes(vec![1])), &mut HostLog::new()).unwrap();
    {
        let mut st = state.lock().unwrap();
        st.links[0].target = hdk::prelude::ExternalHash::from_raw_36(vec![3; 36]).into();
    }
    assert!(matches!(get_current_service_account_key(&mut HostLog::new()), Err(ZomeError::Guest(GuestError::MalformedLink))));
}

#[test]
fn the_current_value_without_entry_data_is_malformed() {
    let state = install(no_calls());
    publish_new_service_account_key(FcmEntryTypes::ServiceAccountKey(entry_bytes(vec![1])), &mut HostLog::new()).unwrap();
    {
        let mut st = state.lock().unwrap();
        st.records[0].1 = Entry::Agent(pub_key(1));
    }
    assert!(matches!(get_current_service_account_key(&mut HostLog::new()), Err(ZomeError::Guest(GuestError::NotAppEntry))));
}

#[test]
fn notify_agent_needs_a_token_then_a_key() {
    let _state = install(no_calls());
    let input = || NotifyAgentInput { notification: SerializedBytes::from(UnsafeBytes::from(vec![7])), agent: agent_key(5) };
    assert!(matches!(notify_agent(input(), &mut HostLog::new()), Err(ZomeError::Guest(GuestError::NoFcmToken))));

    register_fcm_token_for_agent(RegisterFcmTokenInput { token: "tok-5".to_string(), agent: agent_key(5) }, &mut HostLog::new()).unwrap();
    assert_eq!(get_fcm_token_for_agent(&agent_key(5), &mut HostLog::new()).unwrap(), Some("tok-5".to_string()));
    assert!(matches!(notify_agent(input(), &mut HostLog::new()), Err(ZomeError::Guest(GuestError::NoServiceAccountKey))));

    publish_new_service_account_key(FcmEntryTypes::ServiceAccountKey(entry_bytes(vec![42])), &mut HostLog::new()).unwrap();
    let signal = notify_agent(input(), &mut HostLog::new()).unwrap();
    assert_eq!(signal.token, "tok-5");
    assert_eq!(signal.notification, SerializedBytes::from(UnsafeBytes::from(vec![7])));
    assert_eq!(signal.service_account_key, entry_bytes(vec![42]));
}

#[test]
fn send_email_needs_credentials_then_an_address() {
    let _state = install(no_calls());
    let input = || SendEmailInput { agent: agent_key(5), email: Email { subject: "s".to_string(), body: "b".to_string() } };
    assert!(matches!(send_email(input(), &mut HostLog::new()), Err(ZomeError::Guest(GuestError::NoEmailCredentials))));
    publish_new_email_credentials(EmailEntryTypes::EmailCredentials(entry_bytes(vec![3])), &mut HostLog::new()).unwrap();
    assert!(matches!(send_email(input(), &mut HostLog::new()), Err(ZomeError::Guest(GuestError::NoEmailAddress))));
    register_email_address_for_agent(RegisterEmailAddressInput { email_address: "x@y.z".to_string(), agent: agent_key(5) }, &mut HostLog::new())
        .unwrap();
    let signal = send_email(input(), &mut HostLog::new()).unwrap();
    assert_eq!(signal.email_address, "x@y.z");
    assert_eq!(signal.email.subject, "s");
    assert_eq!(signal.credentials, entry_bytes(vec![3]));
}

#[test]
fn announced_provider_is_found_and_granted() {
    let state = install(Box::new(|_| answered(vec![0xc0])));
    announce_as_provider(&mut HostLog::new()).unwrap();
    let providers = get_all_notifications_provider(&mut HostLog::new()).unwrap();
    assert_eq!(providers.len(), 1);
    assert_eq!(providers[0].core.to_bytes(), vec![ME; 36]);
    let st = state.lock().unwrap();
    assert_eq!(
        st.grants,
        vec![(
            "notifications_provider".to_string(),
            vec![
                ("notifications".to_string(), "notify_agent".to_string()),
                ("notifications".to_string(), "ping".to_string())
            ]
        )]
    );
    let expected_base: AnyLinkableHash = match providers_path() {
        Ok(h) => EntryHash::from_raw_36(h.core.to_bytes()).into(),
        Err(e) => panic!("{e:?}"),
    };
    assert_eq!(st.links[0].base, expected_base);
}

#[test]
fn the_first_provider_that_answers_is_chosen() {
    let state = install(Box::new(|c| match &c.target {
        CallTarget::NetworkAgent(a) if *a == pub_key(1) => ZomeCallResponse::NetworkError("down".to_string()),
        _ => answered(vec![0xc0]),
    }));
    // Three providers announce themselves; the first does not answer.
    for b in [1u8, 2, 3] {
        let base = providers_path().unwrap();
        let base: AnyLinkableHash = EntryHash::from_raw_36(base.core.to_bytes()).into();
        let mut st = state.lock().unwrap();
        st.links.push(Link {
            author: pub_key(b),
            base,
            target: pub_key(b).into(),
            timestamp: Timestamp(0),
            zome_index: ZomeIndex(2),
            link_type: LinkType(0),
            tag: LinkTag(Vec::new()),
            create_link_hash: ActionHash::from_raw_36(vec![b; 36]),
        });
    }
    let chosen = get_available_notification_provider(&mut HostLog::new()).unwrap().unwrap();
    assert_eq!(chosen.core.to_bytes(), vec![2; 36]);
    let st = state.lock().unwrap();
    assert_eq!(st.calls.len(), 2);
    assert_eq!(st.calls[0].2, "ping");
    assert_eq!(st.calls[0].1, "notifications");
    assert_eq!(st.calls[0].3, vec![0xc0]);
}

#[test]
fn no_provider_means_no_notification() {
    let _state = install(no_calls());
    assert!(matches!(get_available_notification_provider(&mut HostLog::new()), Ok(None)));
    assert!(matches!(
        request_notify_agent(vec![1, 2, 3], &mut HostLog::new()),
        Err(ZomeError::Guest(GuestError::NoNotificationsProvider))
    ));
}

#[test]
fn a_request_is_forwarded_to_the_provider_and_its_failure_reported() {
    let state = install(Box::new(|c| {
        if c.fn_name.0 == "ping" {
            answered(vec![0xc0])
        } else {
            ZomeCallResponse::NetworkError("lost".to_string())
        }
    }));
    announce_as_provider(&mut HostLog::new()).unwrap();
    match request_notify_agent(vec![1, 2, 3], &mut HostLog::new()) {
        Err(ZomeError::Guest(GuestError::CallFailed(CallPurpose::NotifyAgent, ZomeCallResponse::NetworkError(m)))) => {
            assert_eq!(m, "lost")
        }
        other => panic!("unexpected {other:?}"),
    }
    let st = state.lock().unwrap();
    let last = st.calls.last().unwrap();
    assert_eq!(last.0, CallTarget::NetworkAgent(pub_key(ME)));
    assert_eq!(last.2, "notify_agent");
    assert_eq!(last.3, vec![1, 2, 3]);
}

#[test]
fn a_forwarded_request_that_runs_succeeds() {
    let _state = install(Box::new(|_| answered(vec![0xc0])));
    announce_as_provider(&mut HostLog::new()).unwrap();
    assert!(request_notify_agent(vec![1], &mut HostLog::new()).is_ok());
    assert!(hc_notifications::fcm_bridge::notify_agent(vec![1], &mut HostLog::new()).is_ok());
}

#[test]
fn bridges_forward_to_their_roles() {
    let state = install(Box::new(|_| answered(vec![0xc0])));
    hc_notifications::fcm_service_bridge::notify_agent(vec![4], &mut HostLog::new()).unwrap();
    hc_notifications::email_bridge::send_email(vec![5], &mut HostLog::new()).unwrap();
    hc_notifications::email_bridge::register_email_address(vec![6], &mut HostLog::new()).unwrap();
    let st = state.lock().unwrap();
    assert_eq!(
        st.calls[0],
        (
            CallTarget::ConductorCell(CallTargetCell::OtherRole("notifications_provider_fcm".to_string())),
            "notifications_provider_fcm".to_string(),
            "notify_agent".to_string(),
            vec![4]
        )
    );
    assert_eq!(st.calls[1].2, "send_email");
    assert_eq!(st.calls[2].2, "register_email_address_for_agent");
}

#[test]
fn registrations_name_the_calling_agent() {
    let _state = install(no_calls());
    let caller = hc_notifications::calls::calling_agent(&mut HostLog::new()).unwrap();
    assert_eq!(caller.core.to_bytes(), vec![CALLER; 36]);
    let r = hc_notifications::fcm_bridge::fcm_token_registration("t".to_string(), caller.duplicate());
    assert_eq!(r.token, "t");
    assert_eq!(r.agent.core.to_bytes(), vec![CALLER; 36]);
    let e = hc_notifications::email_bridge::email_address_registration("a@b".to_string(), caller);
    assert_eq!(e.email_address, "a@b");
    assert_eq!(e.agent.core.to_bytes(), vec![CALLER; 36]);
    let r = hc_notifications::fcm_bridge::caller_fcm_token_registration("u".to_string(), &mut HostLog::new()).unwrap();
    assert_eq!((r.token.as_str(), r.agent.core.to_bytes()), ("u", vec![CALLER; 36]));
    let e = hc_notifications::email_bridge::caller_email_address_registration("c@d".to_string(), &mut HostLog::new()).unwrap();
    assert_eq!((e.email_address.as_str(), e.agent.core.to_bytes()), ("c@d", vec![CALLER; 36]));
}

#[test]
fn settings_are_replaced_and_found() {
    let state = install(no_calls());
    let me = agent_key(ME);
    assert!(settings_action_for(&me, &mut HostLog::new()).unwrap().is_none());
    set_notifications_settings(SettingsEntryTypes::NotificationsSettings(entry_bytes(vec![1])), &mut HostLog::new()).unwrap();
    let first = settings_action_for(&me, &mut HostLog::new()).unwrap().unwrap();
    set_notifications_settings(SettingsEntryTypes::NotificationsSettings(entry_bytes(vec![2])), &mut HostLog::new()).unwrap();
    let second = settings_action_for(&me, &mut HostLog::new()).unwrap().unwrap();
    assert!(!first.core.same_as(&second.core));
    let bytes = hc_notifications::settings::get_notifications_settings_for(&me, &mut HostLog::new()).unwrap().unwrap();
    let record = ExternIO(bytes).decode::<Record>().unwrap();
    assert_eq!(record.signed_action.hashed.hash, ActionHash::from_raw_36(second.core.to_bytes()));
    assert_eq!(record.entry.as_option(), Some(&Entry::App(entry_bytes(vec![2]))));
    assert!(hc_notifications::settings::get_notifications_settings_for(&agent_key(77), &mut HostLog::new()).unwrap().is_none());
    let st = state.lock().unwrap();
    assert_eq!(st.links.len(), 1);
    assert_eq!(st.records.last().unwrap().0, ActionHash::from_raw_36(second.core.to_bytes()));
}

#[test]
fn recipient_registers_its_token_with_the_available_provider() {
    let state = install(Box::new(|c| {
        if c.fn_name.0 == "get_available_notification_provider" {
            answered(ExternIO::encode(Some(pub_key(9))).unwrap().0)
        } else {
            answered(vec![0xc0])
        }
    }));
    hc_notifications::fcm_recipient::register_new_fcm_token("tok".to_string(), &mut HostLog::new()).unwrap();
    let st = state.lock().unwrap();
    assert_eq!(st.calls[0].0, CallTarget::ConductorCell(CallTargetCell::Local));
    assert_eq!(st.calls[1].0, CallTarget::NetworkAgent(pub_key(9)));
    assert_eq!(st.calls[1].1, "notifications_provider_fcm_bridge");
    assert_eq!(st.calls[1].2, "register_fcm_token");
    assert_eq!(st.calls[1].3, ExternIO::encode("tok".to_string()).unwrap().0);
    // A MessagePack string: a fixstr header with the length, then the bytes.
    assert_eq!(st.calls[1].3, vec![0xa3, b't', b'o', b'k']);
    // The lookup call carries the unit value, MessagePack's nil.
    assert_eq!(st.calls[0].3, vec![0xc0]);
}

#[test]
fn recipient_without_provider_fails() {
    let _state = install(Box::new(|_| answered(ExternIO::encode(Option::<AgentPubKey>::None).unwrap().0)));
    assert!(matches!(
        hc_notifications::fcm_recipient::register_new_fcm_token("tok".to_string(), &mut HostLog::new()),
        Err(ZomeError::Guest(GuestError::NoProviderAvailable))
    ));
}

#[test]
fn email_service_registers_addresses_with_a_provider() {
    let state = install(Box::new(|_| answered(vec![0xc0])));
    assert!(matches!(
        hc_notifications::email_service::register_email_address("a@b".to_string(), &mut HostLog::new()),
        Err(ZomeError::Guest(GuestError::NoNotificationsProvider))
    ));
    hc_notifications::email_service::announce_as_provider(&mut HostLog::new()).unwrap();
    hc_notifications::email_service::register_email_address("a@b".to_string(), &mut HostLog::new()).unwrap();
    hc_notifications::email_service::request_send_email(vec![7], &mut HostLog::new()).unwrap();
    let st = state.lock().unwrap();
    let names: Vec<&str> = st.calls.iter().map(|c| c.2.as_str()).collect();
    assert_eq!(names, vec!["ping", "register_email_address", "ping", "send_email"]);
    assert_eq!(st.calls[1].1, "email_notifications_bridge");
    assert_eq!(st.created_links[0].1, ChainTopOrdering::Relaxed);
}

#[test]
fn inits_grant_their_functions() {
    let state = install(Box::new(|_| answered(vec![0xc0])));
    hc_notifications::email_service::init(&mut HostLog::new()).unwrap();
    hc_notifications::email_bridge::init(&mut HostLog::new()).unwrap();
    hc_notifications::fcm_service_bridge::init(&mut HostLog::new()).unwrap();
    hc_notifications::email_provider::init(&mut HostLog::new()).unwrap();
    let st = state.lock().unwrap();
    assert_eq!(st.grants[0], ("ping".to_string(), vec![("notifications".to_string(), "ping".to_string())]));
    assert_eq!(st.grants[1].0, "notifications_provider");
    assert_eq!(st.grants[1].1.len(), 2);
    assert_eq!(st.calls[0].2, "announce_as_provider");
}

#[test]
fn a_failed_announcement_is_reported() {
    let _state = install(Box::new(|_| ZomeCallResponse::CountersigningSession("no".to_string())));
    assert!(matches!(
        hc_notifications::email_provider::init(&mut HostLog::new()),
        Err(ZomeError::Guest(GuestError::CallFailed(CallPurpose::AnnounceAsProvider, _)))
    ));
}

#[test]
fn the_provider_in_an_answer_is_decoded() {
    let some = ExternIO::encode(Some(pub_key(9))).unwrap().0;
    assert_eq!(provider_in_answer(some).unwrap().core.to_bytes(), vec![9; 36]);
    let none = ExternIO::encode(Option::<AgentPubKey>::None).unwrap().0;
    assert!(matches!(provider_in_answer(none), Err(ZomeError::Guest(GuestError::NoProviderAvailable))));
    assert!(matches!(provider_in_answer(vec![0xc1]), Err(ZomeError::Serialization(_))));
    // Binaries that are too short, too long, or carry another hash type's prefix
    // name no agent.
    for bad in [vec![0xc4, 0x02, 0x84, 0x20], {
        let mut b = vec![0xc4, 40, 0x84, 0x20, 0x24];
        b.extend(vec![9; 37]);
        b
    }, {
        let mut b = vec![0xc4, 39, 0x84, 0x29, 0x24];
        b.extend(vec![9; 36]);
        b
    }] {
        assert!(matches!(provider_in_answer(bad), Err(ZomeError::Guest(GuestError::MalformedAgentKey))));
    }
    let mut good = vec![0xc4, 39, 0x84, 0x20, 0x24];
    good.extend(vec![7; 36]);
    assert_eq!(provider_in_answer(good).unwrap().core.to_bytes(), vec![7; 36]);
}

#[test]
fn anchors_are_the_hashes_of_their_paths() {
    let _state = install(no_calls());
    let expected = hdk::prelude::Path::from("notifications_providers").path_entry_hash().unwrap();
    let got = providers_path().unwrap();
    assert_eq!(got.core.to_bytes(), expected.get_raw_36().to_vec());
    let other = hc_notifications::registry::anchor_hash("service_account_keys").unwrap();
    assert!(!got.core.same_as(&other.core));
    assert_eq!(
        hc_notifications::email_service::providers_path().unwrap().core.to_bytes(),
        got.core.to_bytes()
    );
}

#[test]
fn types_out_of_scope_are_refused() {
    let links_only = ScopedZomeTypesSet {
        entries: ScopedZomeTypes(Vec::new()),
        links: ScopedZomeTypes(vec![(ZomeIndex(2), vec![LinkType(0)])]),
    };
    let _state = install_with_scope(no_calls(), links_only);
    assert!(matches!(
        get_email_address_for_agent(&agent_key(5), &mut HostLog::new()),
        Err(ZomeError::Guest(GuestError::LinkTypeOutOfScope(1)))
    ));
    assert!(matches!(
        publish_new_service_account_key(FcmEntryTypes::ServiceAccountKey(entry_bytes(vec![1])), &mut HostLog::new()),
        Err(ZomeError::Guest(GuestError::EntryTypeOutOfScope(0)))
    ));
}

#[test]
fn no_types_in_scope_refuses_the_first_link_type() {
    let empty = ScopedZomeTypesSet { entries: ScopedZomeTypes(Vec::new()), links: ScopedZomeTypes(Vec::new()) };
    let _state = install_with_scope(no_calls(), empty);
    assert!(matches!(get_all_notifications_provider(&mut HostLog::new()), Err(ZomeError::Guest(GuestError::LinkTypeOutOfScope(0)))));
    assert!(matches!(settings_action_for(&agent_key(1), &mut HostLog::new()), Err(ZomeError::Guest(GuestError::LinkTypeOutOfScope(0)))));
}

#[test]
fn long_addresses_travel_as_str8_strings() {
    let state = install(Box::new(|_| answered(vec![0xc0])));
    hc_notifications::email_service::announce_as_provider(&mut HostLog::new()).unwrap();
    let address = "someone.with.a.long.name@example.org".to_string();
    assert_eq!(address.len(), 36);
    hc_notifications::email_service::register_email_address(address.clone(), &mut HostLog::new()).unwrap();
    let st = state.lock().unwrap();
    let mut expected = vec![0xd9, 36];
    expected.extend(address.as_bytes());
    assert_eq!(st.calls[1].2, "register_email_address");
    assert_eq!(st.calls[1].3, expected);
    assert_eq!(st.calls[1].3, ExternIO::encode(address).unwrap().0);
}
