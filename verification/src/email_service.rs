//! The email notifications service zome: providers announce themselves under a
//! shared anchor, and any agent registers its email address with, or asks for
//! an email through, an available provider.
use vstd::prelude::*;

use vstd::utf8::encode_utf8;

use crate::calls::{
    call_complete, call_outcome_of, forward_call, forward_run, grant_run, grant_to_all, lemma_pinged_in_prefix, names_of, pinged_in,
    sent,
};
use crate::effects::{added, extends, lemma_added_joins, lemma_whole};
use crate::errors::{CallPurpose, GuestError, ZomeError};
use crate::hashes::{AgentKey, EntryHashValue};
use crate::host::{self, HostEvent, HostLog};
use crate::providers::{announce, announce_run, available_provider, available_run, law_available_provider_answered, linked_providers, listing_run, providers_anchor, providers_anchor_hash};
use crate::requests::{call_request, msgpack_str, CallRequest};
use crate::types::{CallTarget, ChainOrdering, TypeKey};

verus! {

/// The anchor path that providers are linked from.
pub const PROVIDERS_PATH: &'static str = "notifications_providers";

/// The zome, in a provider's app, that bridges to its email provider cell.
pub const BRIDGE_ZOME: &'static str = "email_notifications_bridge";

/// The link types of the email service's integrity zome.
#[derive(Debug, Clone, Copy, PartialEq, Eq)]
pub enum LinkTypes {
    /// From the providers anchor to a provider's agent key.
    NotificationsProvider,
}

impl LinkTypes {
    /// The key of this link type: its position in the integrity zome's declaration.
    pub open spec fn type_key(self) -> TypeKey {
        match self {
            LinkTypes::NotificationsProvider => TypeKey { dependency: 0, type_index: 0 },
        }
    }

    /// The key of this link type.
    pub fn key(&self) -> (res: TypeKey)
        ensures
            res == self.type_key(),
    {
        match self {
            LinkTypes::NotificationsProvider => TypeKey { dependency: 0, type_index: 0 },
        }
    }
}

/// The hash of the providers anchor.
pub fn providers_path() -> (res: Result<EntryHashValue, ZomeError>)
    ensures
        res matches Ok(h) ==> h@ == providers_anchor(),
        res matches Err(e) ==> e is Host,
{
    providers_anchor_hash()
}

/// The call of `register_email_address` of the bridge zome of `provider`,
/// with the encoded address.
pub fn registration_request(provider: AgentKey, payload: Vec<u8>) -> (res: CallRequest)
    ensures
        res.target matches CallTarget::Agent(k) && k@ == provider@,
        res.zome@ == BRIDGE_ZOME@,
        res.function@ == "register_email_address"@,
        res.payload == payload,
        res.purpose == CallPurpose::RegisterEmailAddress,
{
    call_request(CallTarget::Agent(provider), BRIDGE_ZOME, "register_email_address", payload, CallPurpose::RegisterEmailAddress)
}

/// The call that forwards an encoded request to email an agent to `send_email`
/// of the bridge zome of `provider`.
pub fn send_email_request(provider: AgentKey, input: Vec<u8>) -> (res: CallRequest)
    ensures
        res.target matches CallTarget::Agent(k) && k@ == provider@,
        res.zome@ == BRIDGE_ZOME@,
        res.function@ == "send_email"@,
        res.payload == input,
        res.purpose == CallPurpose::NotifyAgent,
{
    call_request(CallTarget::Agent(provider), BRIDGE_ZOME, "send_email", input, CallPurpose::NotifyAgent)
}

/// Grants every agent access to `ping`, under the tag "ping" (`grant_run`).
pub fn init(log: &mut HostLog) -> (res: Result<(), ZomeError>)
    ensures
        extends(old(log)@, final(log)@),
        grant_run("ping"@, seq!["ping"@], added(old(log)@, final(log)@), res),
{
    let functions: Vec<&'static str> = vec!["ping"];
    proof {
        assert(names_of(functions@) =~= seq!["ping"@]);
    }
    grant_to_all("ping", functions, log)
}

/// The functions a provider opens to every agent: `ping` and `send_email`.
pub fn provider_functions() -> (res: Vec<&'static str>)
    ensures
        res@.len() == 2,
        res@[0]@ == "ping"@,
        res@[1]@ == "send_email"@,
{
    vec!["ping", "send_email"]
}

/// Makes the calling agent a provider: grants every agent access to `ping` and
/// `send_email` of this zome under the tag "notifications_provider", then links
/// the providers anchor to the agent with a relaxed chain-top ordering
/// (`announce_run`).
pub fn announce_as_provider(log: &mut HostLog) -> (res: Result<(), ZomeError>)
    ensures
        extends(old(log)@, final(log)@),
        announce_run("notifications_provider"@, seq!["ping"@, "send_email"@], LinkTypes::NotificationsProvider.type_key(),
            ChainOrdering::Relaxed, added(old(log)@, final(log)@), res),
{
    let functions = provider_functions();
    proof {
        assert(names_of(functions@) =~= seq!["ping"@, "send_email"@]);
    }
    announce("notifications_provider", functions, LinkTypes::NotificationsProvider.key(), ChainOrdering::Relaxed, log)
}

/// Answers that this agent is reachable.
pub fn ping() -> (res: Result<(), ZomeError>)
    ensures
        res is Ok,
{
    Ok(())
}

/// Every agent the providers anchor links to, in link order (`listing_run`).
pub fn get_all_notifications_providers(log: &mut HostLog) -> (res: Result<Vec<AgentKey>, ZomeError>)
    ensures
        extends(old(log)@, final(log)@),
        listing_run(LinkTypes::NotificationsProvider.type_key(), added(old(log)@, final(log)@), res),
{
    linked_providers(LinkTypes::NotificationsProvider.key(), log)
}

/// The first provider, in link order, that answers a ping; nothing when none
/// does (`available_run`).
pub fn get_available_notification_providers(log: &mut HostLog) -> (res: Result<Option<AgentKey>, ZomeError>)
    ensures
        extends(old(log)@, final(log)@),
        available_run(LinkTypes::NotificationsProvider.type_key(), added(old(log)@, final(log)@), res),
{
    available_provider(LinkTypes::NotificationsProvider.key(), log)
}

/// The events of handing something to an available provider's bridge: finding
/// a provider (`available_run`); when none is found, "Can't find any
/// notifications provider"; otherwise, unless encoding the payload fails
/// (`encoded` false, with no further event), the call of `function` of the
/// bridge zome of that provider (`forward_run`), whose outcome is the result.
pub open spec fn bridge_request_run(
    function: Seq<char>,
    payload: Seq<u8>,
    encoded: bool,
    purpose: CallPurpose,
    t: Seq<HostEvent>,
    res: Result<(), ZomeError>,
) -> bool {
    exists|k: int, r: Result<Option<AgentKey>, ZomeError>| 0 <= k <= t.len()
        && #[trigger] available_run(LinkTypes::NotificationsProvider.type_key(), t.take(k), r) && match r {
        Err(e) => k == t.len() && res == Err::<(), ZomeError>(e),
        Ok(None) => k == t.len() && res == Err::<(), ZomeError>(ZomeError::Guest(GuestError::NoNotificationsProvider)),
        Ok(Some(p)) => {
            ||| !encoded && k == t.len() && res matches Err(ZomeError::Serialization(_))
            ||| (sent(t.skip(k)).target matches CallTarget::Agent(q) && q@ == p@)
                && forward_run(sent(t.skip(k)).target, BRIDGE_ZOME@, function, payload, purpose, t.skip(k), res)
        },
    }
}

/// A request handed to a provider's bridge succeeds only when it went to a
/// provider that answered its ping and that provider's bridge ran `function`:
/// the events hold an answered ping of an agent, then a call of `function` of
/// the bridge zome at that same agent, whose outcome was a success.
pub proof fn law_bridge_requests_go_to_a_provider_that_answered(
    function: Seq<char>,
    payload: Seq<u8>,
    encoded: bool,
    purpose: CallPurpose,
    t: Seq<HostEvent>,
    res: Result<(), ZomeError>,
)
    requires
        bridge_request_run(function, payload, encoded, purpose, t, res),
        res is Ok,
    ensures
        exists|k: int, q: Seq<u8>| #![trigger pinged_in(q, t, true), t.skip(k)] 0 <= k < t.len() && pinged_in(q, t, true)
            && (sent(t.skip(k)).target matches CallTarget::Agent(a) && a@ == q) && sent(t.skip(k)).zome@ == BRIDGE_ZOME@
            && sent(t.skip(k)).function@ == function && sent(t.skip(k)).payload@ == payload && call_outcome_of(t.skip(k)) is Ok,
{
    let (k, r) = choose|k: int, r: Result<Option<AgentKey>, ZomeError>| 0 <= k <= t.len()
        && #[trigger] available_run(LinkTypes::NotificationsProvider.type_key(), t.take(k), r) && match r {
        Err(e) => k == t.len() && res == Err::<(), ZomeError>(e),
        Ok(None) => k == t.len() && res == Err::<(), ZomeError>(ZomeError::Guest(GuestError::NoNotificationsProvider)),
        Ok(Some(p)) => {
            ||| !encoded && k == t.len() && res matches Err(ZomeError::Serialization(_))
            ||| (sent(t.skip(k)).target matches CallTarget::Agent(q) && q@ == p@)
                && forward_run(sent(t.skip(k)).target, BRIDGE_ZOME@, function, payload, purpose, t.skip(k), res)
        },
    };
    if let Ok(Some(p)) = r {
        law_available_provider_answered(LinkTypes::NotificationsProvider.type_key(), t.take(k), r);
        lemma_pinged_in_prefix(p@, t, k, true);
        assert(call_complete(t.skip(k)));
        assert(pinged_in(p@, t, true));
    }
}

/// Registers `email_address` with an available provider, through its bridge's
/// `register_email_address`, with the address encoded as a MessagePack string
/// (`bridge_request_run`).
pub fn register_email_address(email_address: String, log: &mut HostLog) -> (res: Result<(), ZomeError>)
    ensures
        extends(old(log)@, final(log)@),
        encode_utf8(email_address@).len() < 0x1_0000_0000 ==> bridge_request_run("register_email_address"@,
            msgpack_str(email_address@), false, CallPurpose::RegisterEmailAddress, added(old(log)@, final(log)@), res),
{
    let ghost l0 = log@;
    let ghost key = LinkTypes::NotificationsProvider.type_key();
    let found = get_available_notification_providers(log);
    let ghost l1 = log@;
    let ghost t1 = added(l0, l1);
    proof {
        lemma_whole(t1);
        assert(available_run(key, t1.take(t1.len() as int), found));
    }
    let found = match found {
        Ok(f) => f,
        Err(e) => {
            return Err(e);
        },
    };
    let provider = match found {
        Some(p) => p,
        None => {
            return Err(ZomeError::Guest(GuestError::NoNotificationsProvider));
        },
    };
    let payload = match host::encode_string(&email_address) {
        Ok(p) => p,
        Err(e) => {
            return Err(ZomeError::Serialization(e));
        },
    };
    let request = registration_request(provider, payload);
    let done = forward_call(&request, log);
    proof {
        lemma_added_joins(l0, l1, log@);
        let t = added(l0, log@);
        assert(available_run(key, t.take(t1.len() as int), Ok::<Option<AgentKey>, ZomeError>(Some(provider))));
    }
    done
}

/// Asks an available provider to email an agent: forwards the encoded request to
/// its bridge's `send_email` (`bridge_request_run`).
pub fn request_send_email(input: Vec<u8>, log: &mut HostLog) -> (res: Result<(), ZomeError>)
    ensures
        extends(old(log)@, final(log)@),
        bridge_request_run("send_email"@, input@, true, CallPurpose::NotifyAgent, added(old(log)@, final(log)@), res),
{
    let ghost l0 = log@;
    let ghost key = LinkTypes::NotificationsProvider.type_key();
    let found = get_available_notification_providers(log);
    let ghost l1 = log@;
    let ghost t1 = added(l0, l1);
    proof {
        lemma_whole(t1);
        assert(available_run(key, t1.take(t1.len() as int), found));
    }
    let found = match found {
        Ok(f) => f,
        Err(e) => {
            return Err(e);
        },
    };
    let provider = match found {
        Some(p) => p,
        None => {
            return Err(ZomeError::Guest(GuestError::NoNotificationsProvider));
        },
    };
    let request = send_email_request(provider, input);
    let done = forward_call(&request, log);
    proof {
        lemma_added_joins(l0, l1, log@);
        let t = added(l0, log@);
        assert(available_run(key, t.take(t1.len() as int), Ok::<Option<AgentKey>, ZomeError>(Some(provider))));
    }
    done
}

} // verus!
