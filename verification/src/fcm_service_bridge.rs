//! The bridge zome of the FCM notifications service: it opens its functions to
//! every agent and forwards them to the provider cell of the same agent.
use vstd::prelude::*;

use crate::calls::{forward_call, forward_run, grant_run, grant_to_all, names_of};
use crate::effects::{added, extends};
use crate::host::HostLog;
use crate::errors::{CallPurpose, ZomeError};
use crate::requests::{call_request, CallRequest};
use crate::types::CallTarget;

verus! {

/// The role, and the zome, of the FCM provider cell.
pub const PROVIDER_ROLE: &'static str = "notifications_provider_fcm";

/// The zome of the FCM provider cell.
pub const PROVIDER_ZOME: &'static str = "notifications_provider_fcm";

/// The functions this bridge opens to every agent: `register_fcm_token` and `notify_agent`.
pub fn bridge_functions() -> (res: Vec<&'static str>)
    ensures
        res@.len() == 2,
        res@[0]@ == "register_fcm_token"@,
        res@[1]@ == "notify_agent"@,
{
    vec!["register_fcm_token", "notify_agent"]
}

/// Grants every agent access to the bridge's functions, under the tag
/// "notifications_provider" (`grant_run`).
pub fn init(log: &mut HostLog) -> (res: Result<(), ZomeError>)
    ensures
        extends(old(log)@, final(log)@),
        grant_run("notifications_provider"@, seq!["register_fcm_token"@, "notify_agent"@], added(old(log)@, final(log)@), res),
{
    let functions = bridge_functions();
    proof {
        assert(names_of(functions@) =~= seq!["register_fcm_token"@, "notify_agent"@]);
    }
    grant_to_all("notifications_provider", functions, log)
}

/// The call that forwards an encoded request to notify an agent to the
/// provider cell's `notify_agent`.
pub fn notify_request(input: Vec<u8>) -> (res: CallRequest)
    ensures
        res.target == CallTarget::OtherRole(PROVIDER_ROLE),
        res.zome@ == PROVIDER_ZOME@,
        res.function@ == "notify_agent"@,
        res.payload == input,
        res.purpose == CallPurpose::NotifyAgent,
{
    call_request(CallTarget::OtherRole(PROVIDER_ROLE), PROVIDER_ZOME, "notify_agent", input, CallPurpose::NotifyAgent)
}

/// Forwards an encoded request to notify an agent to the provider cell's
/// `notify_agent` (`notify_request`); succeeds exactly when that function ran (`forward_run`).
pub fn notify_agent(input: Vec<u8>, log: &mut HostLog) -> (res: Result<(), ZomeError>)
    ensures
        extends(old(log)@, final(log)@),
        forward_run(CallTarget::OtherRole(PROVIDER_ROLE), PROVIDER_ZOME@, "notify_agent"@, input@, CallPurpose::NotifyAgent, added(old(log)@, final(log)@), res),
{
    forward_call(&notify_request(input), log)
}

/// The call that sends an encoded token registration to the provider cell's
/// `register_fcm_token_for_agent`.
pub fn registration_request(registration: Vec<u8>) -> (res: CallRequest)
    ensures
        res.target == CallTarget::OtherRole(PROVIDER_ROLE),
        res.zome@ == PROVIDER_ZOME@,
        res.function@ == "register_fcm_token_for_agent"@,
        res.payload == registration,
        res.purpose == CallPurpose::RegisterFcmToken,
{
    call_request(CallTarget::OtherRole(PROVIDER_ROLE), PROVIDER_ZOME, "register_fcm_token_for_agent", registration, CallPurpose::RegisterFcmToken)
}

/// Sends an encoded token registration (built by
/// `fcm_bridge::fcm_token_registration` for the calling agent) to the provider
/// cell's `register_fcm_token_for_agent` (`registration_request`); succeeds
/// exactly when that function ran.
pub fn register_fcm_token(registration: Vec<u8>, log: &mut HostLog) -> (res: Result<(), ZomeError>)
    ensures
        extends(old(log)@, final(log)@),
        forward_run(CallTarget::OtherRole(PROVIDER_ROLE), PROVIDER_ZOME@, "register_fcm_token_for_agent"@, registration@, CallPurpose::RegisterFcmToken, added(old(log)@, final(log)@), res),
{
    forward_call(&registration_request(registration), log)
}

} // verus!
