//! The recipient's zome: it registers the device's FCM token with an available
//! provider.
use vstd::prelude::*;

use vstd::utf8::encode_utf8;

use crate::calls::{call_complete, call_outcome_of, call_zome, effect_of, forward_call, forward_run, sent, serialization_error};
use crate::effects::{added, extends, lemma_added_joins, lemma_nothing_added, lemma_whole};
use crate::errors::{CallPurpose, GuestError, ZomeError};
use crate::hashes::{agent_core_of, AgentKey};
use crate::host::{self, HostEvent, HostLog};
use crate::requests::{call_request, msgpack_str, CallRequest};
use crate::types::CallTarget;

verus! {

/// The provider named by the answer of `get_available_notification_provider`,
/// or "There is no provider available" when it names none.
pub fn provider_from_answer(answer: Option<AgentKey>) -> (res: Result<AgentKey, ZomeError>)
    ensures
        answer matches Some(p) ==> (res matches Ok(q) && q@ == p@),
        answer is None ==> res == Err::<AgentKey, ZomeError>(ZomeError::Guest(GuestError::NoProviderAvailable)),
{
    match answer {
        Some(p) => Ok(p),
        None => Err(ZomeError::Guest(GuestError::NoProviderAvailable)),
    }
}

/// What the encoded answer `answer` of `get_available_notification_provider`
/// gives: a decoding error when it does not decode, "There is no provider
/// available" when it names none, an error when it names bytes that are not
/// an agent key, otherwise that agent.
pub open spec fn provider_named(answer: Seq<u8>, res: Result<AgentKey, ZomeError>) -> bool {
    &&& host::decoded_optional_bytes(answer) is None ==> (res matches Err(ZomeError::Serialization(_)))
    &&& host::decoded_optional_bytes(answer) == Some(None::<Seq<u8>>) ==> res == Err::<AgentKey, ZomeError>(
        ZomeError::Guest(GuestError::NoProviderAvailable),
    )
    &&& (host::decoded_optional_bytes(answer) matches Some(Some(full)) ==> (
        (agent_core_of(full) matches Some(k) ==> (res matches Ok(p) && p@ == k))
        && (agent_core_of(full) is None ==> res == Err::<AgentKey, ZomeError>(
            ZomeError::Guest(GuestError::MalformedAgentKey),
        ))))
}

/// The provider named by the encoded answer of
/// `get_available_notification_provider` (`provider_named`): an error when the answer does not
/// decode or names bytes that are not an agent key, "There is no provider
/// available" when it names none.
pub fn provider_in_answer(answer: Vec<u8>) -> (res: Result<AgentKey, ZomeError>)
    ensures
        provider_named(answer@, res),
{
    let maybe_full = host::decode_optional_bytes(answer).map_err(serialization_error)?;
    let maybe_provider = match maybe_full {
        None => None,
        Some(full) => match AgentKey::from_full_bytes(&full) {
            Some(k) => Some(k),
            None => {
                return Err(ZomeError::Guest(GuestError::MalformedAgentKey));
            },
        },
    };
    provider_from_answer(maybe_provider)
}

/// The local call of `get_available_notification_provider` of the
/// notifications zome, with the given (unit) payload.
pub fn provider_request(payload: Vec<u8>) -> (res: CallRequest)
    ensures
        res.target == CallTarget::Local,
        res.zome@ == "notifications"@,
        res.function@ == "get_available_notification_provider"@,
        res.payload == payload,
        res.purpose == CallPurpose::GetAvailableProvider,
{
    call_request(CallTarget::Local, "notifications", "get_available_notification_provider", payload, CallPurpose::GetAvailableProvider)
}

/// The call of `register_fcm_token` of the FCM bridge zome of `provider`, with
/// the encoded token.
pub fn token_request(provider: AgentKey, payload: Vec<u8>) -> (res: CallRequest)
    ensures
        res.target matches CallTarget::Agent(k) && k@ == provider@,
        res.zome@ == "notifications_provider_fcm_bridge"@,
        res.function@ == "register_fcm_token"@,
        res.payload == payload,
        res.purpose == CallPurpose::RegisterFcmToken,
{
    call_request(CallTarget::Agent(provider), "notifications_provider_fcm_bridge", "register_fcm_token", payload, CallPurpose::RegisterFcmToken)
}

/// The events of registering `token`: unless encoding the unit payload fails
/// (with no event), the local call of `get_available_notification_provider`
/// (`call_complete`, as `provider_request` builds it); when it gives an answer
/// that names a provider (`provider_named`), and the token encodes, the call
/// of `register_fcm_token` of that provider's FCM bridge with the token as a
/// MessagePack string (`forward_run`), whose outcome is the result. Otherwise
/// the first failure is the result and nothing more is sent.
pub open spec fn register_token_run(token: Seq<char>, t: Seq<HostEvent>, res: Result<(), ZomeError>) -> bool {
    ||| t.len() == 0 && res matches Err(ZomeError::Serialization(_))
    ||| exists|k: int| 1 <= k <= t.len() && #[trigger] forward_run(CallTarget::Local, "notifications"@,
        "get_available_notification_provider"@, seq![0xc0u8], CallPurpose::GetAvailableProvider, t.take(k),
        effect_of(call_outcome_of(t.take(k)))) && match call_outcome_of(t.take(k)) {
        Err(e) => k == t.len() && res == Err::<(), ZomeError>(e),
        Ok(answer) => {
            ||| k == t.len() && res is Err && provider_named(answer@, Err(res->Err_0))
            ||| exists|p: AgentKey| #[trigger] provider_named(answer@, Ok(p)) && {
                ||| k == t.len() && res matches Err(ZomeError::Serialization(_))
                ||| (sent(t.skip(k)).target matches CallTarget::Agent(q) && q@ == p@) && forward_run(sent(t.skip(k)).target,
                    "notifications_provider_fcm_bridge"@, "register_fcm_token"@, sent(t.skip(k)).payload@,
                    CallPurpose::RegisterFcmToken, t.skip(k), res)
                    && (encode_utf8(token).len() < 0x1_0000_0000 ==> sent(t.skip(k)).payload@ == msgpack_str(token))
            }
        },
    }
}

/// A token registration succeeds only when the provider ran it: when the
/// result is a success, the events hold a call of `register_fcm_token` of the
/// FCM bridge at the provider, whose outcome was a success; a failed call of it
/// is never reported as a success.
pub proof fn law_registration_succeeds_only_when_the_provider_ran_it(token: Seq<char>, t: Seq<HostEvent>, res: Result<(), ZomeError>)
    requires
        register_token_run(token, t, res),
        res is Ok,
    ensures
        exists|k: int| 1 <= k < t.len() && #[trigger] call_complete(t.skip(k)) && sent(t.skip(k)).zome@ == "notifications_provider_fcm_bridge"@
            && sent(t.skip(k)).function@ == "register_fcm_token"@ && call_outcome_of(t.skip(k)) is Ok,
{
    let k = choose|k: int| 1 <= k <= t.len() && #[trigger] forward_run(CallTarget::Local, "notifications"@,
        "get_available_notification_provider"@, seq![0xc0u8], CallPurpose::GetAvailableProvider, t.take(k),
        effect_of(call_outcome_of(t.take(k)))) && match call_outcome_of(t.take(k)) {
        Err(e) => k == t.len() && res == Err::<(), ZomeError>(e),
        Ok(answer) => {
            ||| k == t.len() && res is Err && provider_named(answer@, Err(res->Err_0))
            ||| exists|p: AgentKey| #[trigger] provider_named(answer@, Ok(p)) && {
                ||| k == t.len() && res matches Err(ZomeError::Serialization(_))
                ||| (sent(t.skip(k)).target matches CallTarget::Agent(q) && q@ == p@) && forward_run(sent(t.skip(k)).target,
                    "notifications_provider_fcm_bridge"@, "register_fcm_token"@, sent(t.skip(k)).payload@,
                    CallPurpose::RegisterFcmToken, t.skip(k), res)
                    && (encode_utf8(token).len() < 0x1_0000_0000 ==> sent(t.skip(k)).payload@ == msgpack_str(token))
            }
        },
    };
    assert(call_complete(t.skip(k)));
}

/// Registers `token` with an available provider: asks the local notifications
/// zome for one, reads its answer, then calls that provider's
/// `register_fcm_token` of its FCM bridge, which is made only when a provider
/// was named (`register_token_run`).
pub fn register_new_fcm_token(token: String, log: &mut HostLog) -> (res: Result<(), ZomeError>)
    ensures
        extends(old(log)@, final(log)@),
        register_token_run(token@, added(old(log)@, final(log)@), res),
{
    let ghost l0 = log@;
    proof {
        lemma_nothing_added(l0);
    }
    let unit = match host::encode_unit() {
        Ok(u) => u,
        Err(e) => {
            return Err(ZomeError::Serialization(e));
        },
    };
    let answer = call_zome(&provider_request(unit), log);
    let ghost l1 = log@;
    let ghost t1 = added(l0, l1);
    proof {
        lemma_whole(t1);
        assert(forward_run(CallTarget::Local, "notifications"@, "get_available_notification_provider"@, seq![0xc0u8],
            CallPurpose::GetAvailableProvider, t1.take(t1.len() as int), effect_of(call_outcome_of(t1.take(t1.len() as int)))));
    }
    let answer = match answer {
        Ok(a) => a,
        Err(e) => {
            return Err(e);
        },
    };
    let ghost answer_bytes = answer@;
    let provider = match provider_in_answer(answer) {
        Ok(p) => p,
        Err(e) => {
            return Err(e);
        },
    };
    proof {
        assert(provider_named(answer_bytes, Ok::<AgentKey, ZomeError>(provider)));
    }
    let payload = match host::encode_string(&token) {
        Ok(p) => p,
        Err(e) => {
            return Err(ZomeError::Serialization(e));
        },
    };
    let done = forward_call(&token_request(provider, payload), log);
    proof {
        lemma_added_joins(l0, l1, log@);
        let t = added(l0, log@);
        assert(t.take(t1.len() as int) == t1);
        assert(forward_run(CallTarget::Local, "notifications"@, "get_available_notification_provider"@, seq![0xc0u8],
            CallPurpose::GetAvailableProvider, t.take(t1.len() as int), effect_of(call_outcome_of(t.take(t1.len() as int)))));
    }
    done
}

} // verus!
