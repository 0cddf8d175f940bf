//! The notifications zome: agents announce themselves as notification
//! providers under a shared anchor, and any agent asks an available provider to
//! notify someone.
use vstd::prelude::*;

use hdk::prelude::SerializedBytes;

use crate::calls::{call_complete, call_outcome_of, forward_call, forward_run, lemma_pinged_in_prefix, names_of, pinged_in, sent};
use crate::effects::{added, extends, lemma_added_joins, lemma_one_added, lemma_whole};
use crate::host::{self, HostEvent, HostLog};
use crate::providers::{announce, announce_run, available_provider, available_run, law_available_provider_answered, linked_providers, listing_run, providers_anchor, providers_anchor_hash};
use crate::errors::{CallPurpose, GuestError, ZomeError};
use crate::hashes::{AgentKey, EntryHashValue};
use crate::requests::{call_request, CallRequest};
use crate::types::{CallTarget, ChainOrdering, TypeKey};

verus! {

/// The anchor path that notification providers are linked from.
pub const PROVIDERS_PATH: &'static str = "notifications_providers";

/// The tag of the capability grant a provider makes.
pub const PROVIDER_GRANT_TAG: &'static str = "notifications_provider";

/// The link types of the notifications integrity zome.
#[derive(Debug, Clone, Copy, PartialEq, Eq)]
pub enum LinkTypes {
    /// From the providers anchor to a provider's agent key.
    NotificationsProvider,
}

impl LinkTypes {
    /// The key of this link type: its position in the integrity zome's declaration.
    pub open spec fn type_key(self) -> TypeKey {
        match self {
            LinkTypes::NotificationsProvider => TypeKey { dependency: 0, type_index: 0 },
        }
    }

    /// The key of this link type.
    pub fn key(&self) -> (res: TypeKey)
        ensures
            res == self.type_key(),
    {
        match self {
            LinkTypes::NotificationsProvider => TypeKey { dependency: 0, type_index: 0 },
        }
    }
}

/// A request to notify an agent.
#[derive(Debug)]
pub struct NotifyAgentInput {
    /// The notification, encoded by the requester.
    pub notification: SerializedBytes,
    /// The agent to notify.
    pub agent: AgentKey,
}

/// The hash of the providers anchor.
pub fn providers_path() -> (res: Result<EntryHashValue, ZomeError>)
    ensures
        res matches Ok(h) ==> h@ == providers_anchor(),
        res matches Err(e) ==> e is Host,
{
    providers_anchor_hash()
}

/// The functions a provider opens to every agent: `ping` and `notify_agent`.
pub fn provider_functions() -> (res: Vec<&'static str>)
    ensures
        res@.len() == 2,
        res@[0]@ == "ping"@,
        res@[1]@ == "notify_agent"@,
{
    vec!["ping", "notify_agent"]
}

/// The call that forwards an encoded request to notify an agent to
/// `notify_agent` of the zome named `zome` of `provider`.
pub fn notify_request(provider: AgentKey, zome: &str, input: Vec<u8>) -> (res: CallRequest)
    ensures
        res.target matches CallTarget::Agent(k) && k@ == provider@,
        res.zome@ == zome@,
        res.function@ == "notify_agent"@,
        res.payload == input,
        res.purpose == CallPurpose::NotifyAgent,
{
    call_request(CallTarget::Agent(provider), zome, "notify_agent", input, CallPurpose::NotifyAgent)
}

/// Makes the calling agent a provider: grants every agent access to `ping` and
/// `notify_agent` of this zome, then links the providers anchor to the agent
/// with the default (strict) chain-top ordering (`announce_run`).
pub fn announce_as_provider(log: &mut HostLog) -> (res: Result<(), ZomeError>)
    ensures
        extends(old(log)@, final(log)@),
        announce_run(PROVIDER_GRANT_TAG@, seq!["ping"@, "notify_agent"@], LinkTypes::NotificationsProvider.type_key(),
            ChainOrdering::Strict, added(old(log)@, final(log)@), res),
{
    let functions = provider_functions();
    proof {
        assert(names_of(functions@) =~= seq!["ping"@, "notify_agent"@]);
    }
    announce(PROVIDER_GRANT_TAG, functions, LinkTypes::NotificationsProvider.key(), ChainOrdering::Strict, log)
}

/// Answers that this agent is reachable.
pub fn ping() -> (res: Result<(), ZomeError>)
    ensures
        res is Ok,
{
    Ok(())
}

/// Every agent the providers anchor links to, in link order (`listing_run`).
pub fn get_all_notifications_provider(log: &mut HostLog) -> (res: Result<Vec<AgentKey>, ZomeError>)
    ensures
        extends(old(log)@, final(log)@),
        listing_run(LinkTypes::NotificationsProvider.type_key(), added(old(log)@, final(log)@), res),
{
    linked_providers(LinkTypes::NotificationsProvider.key(), log)
}

/// The first provider, in link order, that answers a ping; nothing when none
/// does (`available_run`).
pub fn get_available_notification_provider(log: &mut HostLog) -> (res: Result<Option<AgentKey>, ZomeError>)
    ensures
        extends(old(log)@, final(log)@),
        available_run(LinkTypes::NotificationsProvider.type_key(), added(old(log)@, final(log)@), res),
{
    available_provider(LinkTypes::NotificationsProvider.key(), log)
}

/// The events of asking an available provider to notify an agent: finding one
/// (`available_run`); when one was found, one `zome_info` and, when it
/// answers, the call of `notify_agent` of the zome of that name of the
/// provider with the encoded request (`call_complete`), whose outcome is the
/// result. When none is found: "Can't find any notifications provider".
pub open spec fn notify_request_run(key: TypeKey, input: Seq<u8>, t: Seq<HostEvent>, res: Result<(), ZomeError>) -> bool {
    exists|k: int, r: Result<Option<AgentKey>, ZomeError>| 0 <= k <= t.len() && #[trigger] available_run(key, t.take(k), r)
        && match r {
        Err(e) => k == t.len() && res == Err::<(), ZomeError>(e),
        Ok(None) => k == t.len() && res == Err::<(), ZomeError>(ZomeError::Guest(GuestError::NoNotificationsProvider)),
        Ok(Some(p)) => {
            let rest = t.skip(k);
            rest.len() >= 1 && (rest[0] matches HostEvent::ZomeInfo(a) && match a {
                Err(x) => rest.len() == 1 && res == Err::<(), ZomeError>(ZomeError::Host(x)),
                Ok(info) => (sent(rest.skip(1)).target matches CallTarget::Agent(q) && q@ == p@)
                    && forward_run(sent(rest.skip(1)).target, info.name@, "notify_agent"@, input, CallPurpose::NotifyAgent,
                        rest.skip(1), res),
            })
        },
    }
}

/// A notification request succeeds only when it went to a provider that
/// answered its ping and that provider ran `notify_agent` on the request: the
/// events hold an answered ping of an agent, then a call of `notify_agent` at
/// that same agent with the encoded request, whose outcome was a success.
pub proof fn law_requests_go_to_a_provider_that_answered(key: TypeKey, input: Seq<u8>, t: Seq<HostEvent>, res: Result<(), ZomeError>)
    requires
        notify_request_run(key, input, t, res),
        res is Ok,
    ensures
        exists|k: int, q: Seq<u8>| #![trigger pinged_in(q, t, true), t.skip(k)] 0 <= k < t.len() && pinged_in(q, t, true)
            && (sent(t.skip(k)).target matches CallTarget::Agent(a) && a@ == q) && sent(t.skip(k)).function@ == "notify_agent"@
            && sent(t.skip(k)).payload@ == input && call_outcome_of(t.skip(k)) is Ok,
{
    let (k, r) = choose|k: int, r: Result<Option<AgentKey>, ZomeError>| 0 <= k <= t.len() && #[trigger] available_run(key, t.take(k), r)
        && match r {
        Err(e) => k == t.len() && res == Err::<(), ZomeError>(e),
        Ok(None) => k == t.len() && res == Err::<(), ZomeError>(ZomeError::Guest(GuestError::NoNotificationsProvider)),
        Ok(Some(p)) => {
            let rest = t.skip(k);
            rest.len() >= 1 && (rest[0] matches HostEvent::ZomeInfo(a) && match a {
                Err(x) => rest.len() == 1 && res == Err::<(), ZomeError>(ZomeError::Host(x)),
                Ok(info) => (sent(rest.skip(1)).target matches CallTarget::Agent(q) && q@ == p@)
                    && forward_run(sent(rest.skip(1)).target, info.name@, "notify_agent"@, input, CallPurpose::NotifyAgent,
                        rest.skip(1), res),
            })
        },
    };
    if let Ok(Some(p)) = r {
        law_available_provider_answered(key, t.take(k), r);
        lemma_pinged_in_prefix(p@, t, k, true);
        assert(t.skip(k).skip(1) =~= t.skip(k + 1));
        assert(call_complete(t.skip(k + 1)));
        assert(pinged_in(p@, t, true));
    }
}

/// Asks an available provider to notify an agent: forwards the encoded request
/// to the provider's `notify_agent` (`notify_request_run`).
pub fn request_notify_agent(input: Vec<u8>, log: &mut HostLog) -> (res: Result<(), ZomeError>)
    ensures
        extends(old(log)@, final(log)@),
        notify_request_run(LinkTypes::NotificationsProvider.type_key(), input@, added(old(log)@, final(log)@), res),
{
    let ghost l0 = log@;
    let ghost key = LinkTypes::NotificationsProvider.type_key();
    let found = get_available_notification_provider(log);
    let ghost l1 = log@;
    let ghost t1 = added(l0, l1);
    proof {
        lemma_whole(t1);
        assert(available_run(key, t1.take(t1.len() as int), found));
    }
    let found = match found {
        Ok(f) => f,
        Err(e) => {
            return Err(e);
        },
    };
    let provider = match found {
        Some(p) => p,
        None => {
            return Err(ZomeError::Guest(GuestError::NoNotificationsProvider));
        },
    };
    let answer = host::current_zome_info(log);
    let ghost l2 = log@;
    proof {
        lemma_one_added(l1, HostEvent::ZomeInfo(answer));
        lemma_added_joins(l0, l1, l2);
        assert(available_run(key, added(l0, l2).take(t1.len() as int), Ok::<Option<AgentKey>, ZomeError>(Some(provider))));
    }
    let zome = match answer {
        Ok(info) => info,
        Err(x) => {
            return Err(ZomeError::Host(x));
        },
    };
    let request = notify_request(provider, zome.name.as_str(), input);
    let done = forward_call(&request, log);
    proof {
        lemma_added_joins(l1, l2, log@);
        lemma_added_joins(l0, l1, log@);
        let t = added(l0, log@);
        assert(available_run(key, t.take(t1.len() as int), Ok::<Option<AgentKey>, ZomeError>(Some(provider))));
        assert(t.skip(t1.len() as int).skip(1) =~= added(l2, log@));
    }
    done
}

} // verus!
