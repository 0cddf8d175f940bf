//! The bridge zomes between a notifications network and the FCM provider
//! cells: they forward requests to the provider cell of the same agent.
use vstd::prelude::*;

use crate::calls::{calling_agent, forward_call, forward_run};
use crate::effects::{added, extends};
use crate::host::{HostEvent, HostLog};
use crate::errors::{CallPurpose, ZomeError};
use crate::fcm_provider::RegisterFcmTokenInput;
use crate::hashes::AgentKey;
use crate::requests::{call_request, CallRequest};
use crate::types::CallTarget;

verus! {

/// The role of the FCM provider cell that the provider app's bridge calls.
pub const PROVIDER_ROLE: &'static str = "notification_provider";

/// The zome of that cell that notifies agents.
pub const PROVIDER_ZOME: &'static str = "fcm_notification_provider";

/// The role of the FCM provider cell that keeps tokens.
pub const TOKEN_ROLE: &'static str = "notification_provider_fcm";

/// The zome of that cell that keeps tokens.
pub const TOKEN_ZOME: &'static str = "notifications_provider_fcm";

/// The call that forwards an encoded request to notify an agent to
/// `notify_agent` of the provider cell's notifying zome.
pub fn notify_request(input: Vec<u8>) -> (res: CallRequest)
    ensures
        res.target == CallTarget::OtherRole(PROVIDER_ROLE),
        res.zome@ == PROVIDER_ZOME@,
        res.function@ == "notify_agent"@,
        res.payload == input,
        res.purpose == CallPurpose::NotifyAgent,
{
    call_request(CallTarget::OtherRole(PROVIDER_ROLE), PROVIDER_ZOME, "notify_agent", input, CallPurpose::NotifyAgent)
}

/// Forwards an encoded request to notify an agent to the provider cell's
/// `notify_agent` (`notify_request`); succeeds exactly when that function ran (`forward_run`).
pub fn notify_agent(input: Vec<u8>, log: &mut HostLog) -> (res: Result<(), ZomeError>)
    ensures
        extends(old(log)@, final(log)@),
        forward_run(CallTarget::OtherRole(PROVIDER_ROLE), PROVIDER_ZOME@, "notify_agent"@, input@, CallPurpose::NotifyAgent, added(old(log)@, final(log)@), res),
{
    forward_call(&notify_request(input), log)
}

/// The registration of `token` for `provenance`, the agent that made the
/// current call (see `calls::calling_agent`).
pub fn fcm_token_registration(token: String, provenance: AgentKey) -> (res: RegisterFcmTokenInput)
    ensures
        res.token == token,
        res.agent@ == provenance@,
{
    RegisterFcmTokenInput { token, agent: provenance }
}

/// The registration of `token` for the agent that made the current call: one
/// `call_info`, whose provenance is the registration's agent.
pub fn caller_fcm_token_registration(token: String, log: &mut HostLog) -> (res: Result<RegisterFcmTokenInput, ZomeError>)
    ensures
        extends(old(log)@, final(log)@),
        added(old(log)@, final(log)@).len() == 1,
        added(old(log)@, final(log)@)[0] matches HostEvent::CallInfo(answer) && match answer {
            Ok(k) => res matches Ok(r) && r.agent@ == k@ && r.token == token,
            Err(x) => res == Err::<RegisterFcmTokenInput, ZomeError>(ZomeError::Host(x)),
        },
{
    let agent = calling_agent(log)?;
    Ok(fcm_token_registration(token, agent))
}

/// The call that sends an encoded token registration to
/// `register_fcm_token_for_agent` of the provider cell's token zome.
pub fn registration_request(registration: Vec<u8>) -> (res: CallRequest)
    ensures
        res.target == CallTarget::OtherRole(TOKEN_ROLE),
        res.zome@ == TOKEN_ZOME@,
        res.function@ == "register_fcm_token_for_agent"@,
        res.payload == registration,
        res.purpose == CallPurpose::RegisterFcmToken,
{
    call_request(CallTarget::OtherRole(TOKEN_ROLE), TOKEN_ZOME, "register_fcm_token_for_agent", registration, CallPurpose::RegisterFcmToken)
}

/// Sends an encoded token registration to the provider cell's
/// `register_fcm_token_for_agent` (`registration_request`); succeeds exactly
/// when that function ran (`forward_run`).
pub fn register_fcm_token(registration: Vec<u8>, log: &mut HostLog) -> (res: Result<(), ZomeError>)
    ensures
        extends(old(log)@, final(log)@),
        forward_run(CallTarget::OtherRole(TOKEN_ROLE), TOKEN_ZOME@, "register_fcm_token_for_agent"@, registration@, CallPurpose::RegisterFcmToken, added(old(log)@, final(log)@), res),
{
    forward_call(&registration_request(registration), log)
}

} // verus!
