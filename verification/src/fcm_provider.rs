//! The FCM push-notifications provider zome: it keeps the FCM authority's
//! service account key and each agent's FCM token, and turns a request to notify
//! an agent into a signal for the push service.
use vstd::prelude::*;

use hdk::prelude::{AppEntryBytes, SerializedBytes};

use crate::errors::{GuestError, ZomeError};
use crate::hashes::AgentKey;
use crate::notifications::NotifyAgentInput;
use crate::effects::{added, extends, lemma_added_joins, lemma_whole};
use crate::host::{HostEvent, HostLog};
use crate::registry::{current_entry_run, get_current_entry, publish_new_entry, publish_run};
use crate::tags::{register_text_for_agent, register_text_run, text_for_agent, text_run};
use crate::types::{ChainOrdering, TypeKey};

verus! {

/// The anchor path that the current service account key is linked from.
pub const SERVICE_ACCOUNT_KEYS_PATH: &'static str = "service_account_keys";

/// The link types of the FCM provider's integrity zome.
#[derive(Debug, Clone, Copy, PartialEq, Eq)]
pub enum LinkTypes {
    /// From the service-account-keys anchor to the current key's entry.
    ServiceAccountKeys,
    /// From an agent to itself, with the agent's FCM token as the tag.
    FCMToken,
}

impl LinkTypes {
    /// The key of this link type: its position in the integrity zome's declaration.
    pub open spec fn type_key(self) -> TypeKey {
        match self {
            LinkTypes::ServiceAccountKeys => TypeKey { dependency: 0, type_index: 0 },
            LinkTypes::FCMToken => TypeKey { dependency: 0, type_index: 1 },
        }
    }

    /// The key of this link type.
    pub fn key(&self) -> (res: TypeKey)
        ensures
            res == self.type_key(),
    {
        match self {
            LinkTypes::ServiceAccountKeys => TypeKey { dependency: 0, type_index: 0 },
            LinkTypes::FCMToken => TypeKey { dependency: 0, type_index: 1 },
        }
    }
}

/// The entry types of the FCM provider's integrity zome, each with its encoded entry.
#[derive(Debug)]
pub enum EntryTypes {
    /// A service account key of the FCM authority.
    ServiceAccountKey(AppEntryBytes),
}

impl EntryTypes {
    /// The key of this entry's type: its position in the integrity zome's declaration.
    pub fn key(&self) -> (res: TypeKey)
        ensures
            res == (TypeKey { dependency: 0, type_index: 0 }),
    {
        match self {
            EntryTypes::ServiceAccountKey(_) => TypeKey { dependency: 0, type_index: 0 },
        }
    }
}

/// The signal that asks the push service to deliver a notification.
#[derive(Debug)]
pub struct NotifyAgentSignal {
    /// The notification, as the requester encoded it.
    pub notification: SerializedBytes,
    /// The FCM token of the agent to notify.
    pub token: String,
    /// The FCM authority's service account key, as stored.
    pub service_account_key: AppEntryBytes,
}

/// A registration of an agent's FCM token.
#[derive(Debug)]
pub struct RegisterFcmTokenInput {
    pub token: String,
    pub agent: AgentKey,
}

/// Makes `key` the current service account key: deletes every link from the
/// anchor, stores the key and links the anchor to it, at the default (strict)
/// chain-top ordering (`publish_run`).
pub fn publish_new_service_account_key(key: EntryTypes, log: &mut HostLog) -> (res: Result<(), ZomeError>)
    ensures
        extends(old(log)@, final(log)@),
        match key {
            EntryTypes::ServiceAccountKey(bytes) => publish_run(SERVICE_ACCOUNT_KEYS_PATH@, LinkTypes::ServiceAccountKeys.type_key(),
                TypeKey { dependency: 0, type_index: 0 }, bytes, ChainOrdering::Strict, added(old(log)@, final(log)@), res),
        },
{
    let entry_type = key.key();
    proof {
        reveal_strlit("service_account_keys");
    }
    match key {
        EntryTypes::ServiceAccountKey(bytes) => publish_new_entry(
            SERVICE_ACCOUNT_KEYS_PATH,
            LinkTypes::ServiceAccountKeys.key(),
            entry_type,
            bytes,
            ChainOrdering::Strict,
            log,
        ),
    }
}

/// The current service account key, as stored: the entry the anchor's first
/// link points to; nothing when there is no link or the entry is not found
/// (`current_entry_run`).
pub fn get_current_service_account_key(log: &mut HostLog) -> (res: Result<Option<AppEntryBytes>, ZomeError>)
    ensures
        extends(old(log)@, final(log)@),
        current_entry_run(SERVICE_ACCOUNT_KEYS_PATH@, LinkTypes::ServiceAccountKeys.type_key(), added(old(log)@, final(log)@), res),
{
    proof {
        reveal_strlit("service_account_keys");
    }
    get_current_entry(SERVICE_ACCOUNT_KEYS_PATH, LinkTypes::ServiceAccountKeys.key(), log)
}

/// Keeps `input.token` as the FCM token of `input.agent`, replacing any earlier
/// one (`register_text_run`).
pub fn register_fcm_token_for_agent(input: RegisterFcmTokenInput, log: &mut HostLog) -> (res: Result<(), ZomeError>)
    ensures
        extends(old(log)@, final(log)@),
        register_text_run(input.agent@, input.token@, LinkTypes::FCMToken.type_key(), added(old(log)@, final(log)@), res),
{
    register_text_for_agent(&input.agent, &input.token, LinkTypes::FCMToken.key(), log)
}

/// The FCM token registered for `agent`, if any (`text_run`).
pub fn get_fcm_token_for_agent(agent: &AgentKey, log: &mut HostLog) -> (res: Result<Option<String>, ZomeError>)
    ensures
        extends(old(log)@, final(log)@),
        text_run(agent@, LinkTypes::FCMToken.type_key(), added(old(log)@, final(log)@), res),
{
    text_for_agent(agent, LinkTypes::FCMToken.key(), log)
}

/// The signal that delivers `notification` with a token and key, when both are
/// known; otherwise the error for the first that is missing.
pub fn notify_agent_signal(
    notification: SerializedBytes,
    token: Option<String>,
    service_account_key: Option<AppEntryBytes>,
) -> (res: Result<NotifyAgentSignal, ZomeError>)
    ensures
        token is None ==> res == Err::<NotifyAgentSignal, ZomeError>(ZomeError::Guest(GuestError::NoFcmToken)),
        token is Some && service_account_key is None ==> res == Err::<NotifyAgentSignal, ZomeError>(
            ZomeError::Guest(GuestError::NoServiceAccountKey),
        ),
        token matches Some(t) ==> (service_account_key matches Some(k) ==> res == Ok::<NotifyAgentSignal, ZomeError>(
            NotifyAgentSignal { notification, token: t, service_account_key: k },
        )),
{
    let Some(token) = token else {
        return Err(ZomeError::Guest(GuestError::NoFcmToken));
    };
    let Some(service_account_key) = service_account_key else {
        return Err(ZomeError::Guest(GuestError::NoServiceAccountKey));
    };
    Ok(NotifyAgentSignal { notification, token, service_account_key })
}

/// The events of notifying `agent`: the reading of the agent's token
/// (`text_run`); with no token, "Agent hasn't registered their FCM token yet"
/// and nothing more; with one, the reading of the current service account key
/// (`current_entry_run`); the signal holds `notification`, the token and the
/// key (`notify_agent_signal`), and a read's error is returned unchanged.
pub open spec fn notify_run(agent: Seq<u8>, notification: SerializedBytes, t: Seq<HostEvent>, res: Result<NotifyAgentSignal, ZomeError>) -> bool {
    exists|k: int, r: Result<Option<String>, ZomeError>| 0 <= k <= t.len()
        && #[trigger] text_run(agent, LinkTypes::FCMToken.type_key(), t.take(k), r) && match r {
        Err(e) => k == t.len() && res == Err::<NotifyAgentSignal, ZomeError>(e),
        Ok(None) => k == t.len() && res == Err::<NotifyAgentSignal, ZomeError>(ZomeError::Guest(GuestError::NoFcmToken)),
        Ok(Some(token)) => exists|r2: Result<Option<AppEntryBytes>, ZomeError>|
            #[trigger] current_entry_run(SERVICE_ACCOUNT_KEYS_PATH@, LinkTypes::ServiceAccountKeys.type_key(), t.skip(k), r2)
            && match r2 {
            Err(e) => res == Err::<NotifyAgentSignal, ZomeError>(e),
            Ok(None) => res == Err::<NotifyAgentSignal, ZomeError>(ZomeError::Guest(GuestError::NoServiceAccountKey)),
            Ok(Some(key)) => res == Ok::<NotifyAgentSignal, ZomeError>(
                NotifyAgentSignal { notification, token, service_account_key: key },
            ),
        },
    }
}

/// A push signal carries the agent's own registered token: when notifying
/// gives a signal, the events begin with a read of the agent's FCM token that
/// found exactly that token, followed by a read of the current service account
/// key that found exactly the signal's key, and the signal holds the
/// notification asked for.
/// So an agent without a registered token never gets a signal.
pub proof fn law_signal_carries_the_registered_token(agent: Seq<u8>, notification: SerializedBytes, t: Seq<HostEvent>, res: Result<NotifyAgentSignal, ZomeError>)
    requires
        notify_run(agent, notification, t, res),
        res is Ok,
    ensures
        exists|k: int| 0 <= k <= t.len() && #[trigger] text_run(agent, LinkTypes::FCMToken.type_key(), t.take(k),
            Ok::<Option<String>, ZomeError>(Some(res->Ok_0.token)))
            && current_entry_run(SERVICE_ACCOUNT_KEYS_PATH@, LinkTypes::ServiceAccountKeys.type_key(), t.skip(k),
            Ok::<Option<AppEntryBytes>, ZomeError>(Some(res->Ok_0.service_account_key))),
        res->Ok_0.notification == notification,
{
    let (k, r) = choose|k: int, r: Result<Option<String>, ZomeError>| 0 <= k <= t.len()
        && #[trigger] text_run(agent, LinkTypes::FCMToken.type_key(), t.take(k), r) && match r {
        Err(e) => k == t.len() && res == Err::<NotifyAgentSignal, ZomeError>(e),
        Ok(None) => k == t.len() && res == Err::<NotifyAgentSignal, ZomeError>(ZomeError::Guest(GuestError::NoFcmToken)),
        Ok(Some(token)) => exists|r2: Result<Option<AppEntryBytes>, ZomeError>|
            #[trigger] current_entry_run(SERVICE_ACCOUNT_KEYS_PATH@, LinkTypes::ServiceAccountKeys.type_key(), t.skip(k), r2)
            && match r2 {
            Err(e) => res == Err::<NotifyAgentSignal, ZomeError>(e),
            Ok(None) => res == Err::<NotifyAgentSignal, ZomeError>(ZomeError::Guest(GuestError::NoServiceAccountKey)),
            Ok(Some(key)) => res == Ok::<NotifyAgentSignal, ZomeError>(
                NotifyAgentSignal { notification, token, service_account_key: key },
            ),
        },
    };
    assert(text_run(agent, LinkTypes::FCMToken.type_key(), t.take(k), Ok::<Option<String>, ZomeError>(Some(res->Ok_0.token))));
    if let Ok(Some(token)) = r {
        let r2 = choose|r2: Result<Option<AppEntryBytes>, ZomeError>|
            #[trigger] current_entry_run(SERVICE_ACCOUNT_KEYS_PATH@, LinkTypes::ServiceAccountKeys.type_key(), t.skip(k), r2)
            && match r2 {
            Err(e) => res == Err::<NotifyAgentSignal, ZomeError>(e),
            Ok(None) => res == Err::<NotifyAgentSignal, ZomeError>(ZomeError::Guest(GuestError::NoServiceAccountKey)),
            Ok(Some(key)) => res == Ok::<NotifyAgentSignal, ZomeError>(
                NotifyAgentSignal { notification, token, service_account_key: key },
            ),
        };
        assert(current_entry_run(SERVICE_ACCOUNT_KEYS_PATH@, LinkTypes::ServiceAccountKeys.type_key(), t.skip(k),
            Ok::<Option<AppEntryBytes>, ZomeError>(Some(res->Ok_0.service_account_key))));
    }
}

/// The signal that pushes a notification to an agent: carries the agent's FCM
/// token and the current service account key (`notify_run`). The token is
/// read first; without one no key is read.
pub fn notify_agent(input: NotifyAgentInput, log: &mut HostLog) -> (res: Result<NotifyAgentSignal, ZomeError>)
    ensures
        extends(old(log)@, final(log)@),
        notify_run(input.agent@, input.notification, added(old(log)@, final(log)@), res),
{
    let ghost l0 = log@;
    let token = get_fcm_token_for_agent(&input.agent, log);
    let ghost l1 = log@;
    let ghost t1 = added(l0, l1);
    let ghost r = token;
    proof {
        lemma_whole(t1);
        assert(text_run(input.agent@, LinkTypes::FCMToken.type_key(), t1.take(t1.len() as int), r));
    }
    let token = match token {
        Err(e) => {
            return Err(e);
        },
        Ok(None) => {
            return notify_agent_signal(input.notification, None, None);
        },
        Ok(Some(t)) => t,
    };
    proof {
        reveal_strlit("service_account_keys");
    }
    let key = get_current_entry(SERVICE_ACCOUNT_KEYS_PATH, LinkTypes::ServiceAccountKeys.key(), log);
    proof {
        lemma_added_joins(l0, l1, log@);
        let t = added(l0, log@);
        assert(text_run(input.agent@, LinkTypes::FCMToken.type_key(), t.take(t1.len() as int), r));
    }
    match key {
        Err(e) => Err(e),
        Ok(key) => notify_agent_signal(input.notification, Some(token), key),
    }
}

} // verus!
