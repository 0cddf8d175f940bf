//! The bridge zome of the email notifications service on the provider's side:
//! it opens its functions to every agent and forwards them to the email
//! provider cell of the same agent.
use vstd::prelude::*;

use crate::calls::{calling_agent, forward_call, forward_run, grant_run, grant_to_all, names_of};
use crate::effects::{added, extends};
use crate::host::{HostEvent, HostLog};
use crate::email_types::RegisterEmailAddressInput;
use crate::errors::{CallPurpose, ZomeError};
use crate::hashes::AgentKey;
use crate::requests::{call_request, CallRequest};
use crate::types::CallTarget;

verus! {

/// The role, and the zome, of the email provider cell.
pub const PROVIDER_ROLE: &'static str = "email_notifications_provider";

/// The zome of the email provider cell.
pub const PROVIDER_ZOME: &'static str = "email_notifications_provider";

/// The functions this bridge opens to every agent: `register_email_address` and `send_email`.
pub fn bridge_functions() -> (res: Vec<&'static str>)
    ensures
        res@.len() == 2,
        res@[0]@ == "register_email_address"@,
        res@[1]@ == "send_email"@,
{
    vec!["register_email_address", "send_email"]
}

/// Grants every agent access to the bridge's functions, under the tag
/// "notifications_provider" (`grant_run`).
pub fn init(log: &mut HostLog) -> (res: Result<(), ZomeError>)
    ensures
        extends(old(log)@, final(log)@),
        grant_run("notifications_provider"@, seq!["register_email_address"@, "send_email"@], added(old(log)@, final(log)@), res),
{
    let functions = bridge_functions();
    proof {
        assert(names_of(functions@) =~= seq!["register_email_address"@, "send_email"@]);
    }
    grant_to_all("notifications_provider", functions, log)
}

/// The call that forwards an encoded request to email an agent to the
/// provider cell's `send_email`.
pub fn send_email_request(input: Vec<u8>) -> (res: CallRequest)
    ensures
        res.target == CallTarget::OtherRole(PROVIDER_ROLE),
        res.zome@ == PROVIDER_ZOME@,
        res.function@ == "send_email"@,
        res.payload == input,
        res.purpose == CallPurpose::NotifyAgent,
{
    call_request(CallTarget::OtherRole(PROVIDER_ROLE), PROVIDER_ZOME, "send_email", input, CallPurpose::NotifyAgent)
}

/// Forwards an encoded request to email an agent to the provider cell's
/// `send_email` (`send_email_request`); succeeds exactly when that function ran (`forward_run`).
pub fn send_email(input: Vec<u8>, log: &mut HostLog) -> (res: Result<(), ZomeError>)
    ensures
        extends(old(log)@, final(log)@),
        forward_run(CallTarget::OtherRole(PROVIDER_ROLE), PROVIDER_ZOME@, "send_email"@, input@, CallPurpose::NotifyAgent, added(old(log)@, final(log)@), res),
{
    forward_call(&send_email_request(input), log)
}

/// The registration of `email_address` for `provenance`, the agent that made
/// the current call (see `calls::calling_agent`).
pub fn email_address_registration(email_address: String, provenance: AgentKey) -> (res: RegisterEmailAddressInput)
    ensures
        res.email_address == email_address,
        res.agent@ == provenance@,
{
    RegisterEmailAddressInput { email_address, agent: provenance }
}

/// The registration of `email_address` for the agent that made the current
/// call: one `call_info`, whose provenance is the registration's agent.
pub fn caller_email_address_registration(email_address: String, log: &mut HostLog) -> (res: Result<RegisterEmailAddressInput, ZomeError>)
    ensures
        extends(old(log)@, final(log)@),
        added(old(log)@, final(log)@).len() == 1,
        added(old(log)@, final(log)@)[0] matches HostEvent::CallInfo(answer) && match answer {
            Ok(k) => res matches Ok(r) && r.agent@ == k@ && r.email_address == email_address,
            Err(x) => res == Err::<RegisterEmailAddressInput, ZomeError>(ZomeError::Host(x)),
        },
{
    let agent = calling_agent(log)?;
    Ok(email_address_registration(email_address, agent))
}

/// The call that sends an encoded address registration to the provider cell's
/// `register_email_address_for_agent`.
pub fn registration_request(registration: Vec<u8>) -> (res: CallRequest)
    ensures
        res.target == CallTarget::OtherRole(PROVIDER_ROLE),
        res.zome@ == PROVIDER_ZOME@,
        res.function@ == "register_email_address_for_agent"@,
        res.payload == registration,
        res.purpose == CallPurpose::RegisterEmailToken,
{
    call_request(
        CallTarget::OtherRole(PROVIDER_ROLE),
        PROVIDER_ZOME,
        "register_email_address_for_agent",
        registration,
        CallPurpose::RegisterEmailToken,
    )
}

/// Sends an encoded registration (built by `email_address_registration`) to the
/// provider cell's `register_email_address_for_agent` (`registration_request`);
/// succeeds exactly when that function ran, `forward_run` ("Error registering email token"
/// otherwise).
pub fn register_email_address(registration: Vec<u8>, log: &mut HostLog) -> (res: Result<(), ZomeError>)
    ensures
        extends(old(log)@, final(log)@),
        forward_run(CallTarget::OtherRole(PROVIDER_ROLE), PROVIDER_ZOME@, "register_email_address_for_agent"@, registration@, CallPurpose::RegisterEmailToken, added(old(log)@, final(log)@), res),
{
    forward_call(&registration_request(registration), log)
}

} // verus!
