//! The email notifications provider zome: it keeps the sending account and
//! each agent's email address, and turns a request to email an agent into a
//! signal for the mailer.
use vstd::prelude::*;

use hdk::prelude::AppEntryBytes;

use crate::calls::{forward_call, forward_run};
use crate::effects::{added, extends, lemma_added_joins, lemma_nothing_added, lemma_whole};
use crate::email_types::{Email, RegisterEmailAddressInput, SendEmailInput, SendEmailSignal};
use crate::errors::{CallPurpose, GuestError, ZomeError};
use crate::hashes::AgentKey;
use crate::host::{self, HostEvent, HostLog};
use crate::registry::{current_entry_run, get_current_entry, publish_new_entry, publish_run};
use crate::requests::{call_request, CallRequest};
use crate::tags::{register_text_for_agent, register_text_run, text_for_agent, text_run};
use crate::types::{CallTarget, ChainOrdering, TypeKey};

verus! {

/// The anchor path that the current email credentials are linked from.
pub const EMAIL_CREDENTIALS_PATH: &'static str = "email_credentials";

/// The link types of the email provider's integrity zome.
#[derive(Debug, Clone, Copy, PartialEq, Eq)]
pub enum LinkTypes {
    /// From the credentials anchor to the current credentials' entry.
    EmailCredentials,
    /// From an agent to itself, with the agent's email address as the tag.
    EmailAddresses,
}

impl LinkTypes {
    /// The key of this link type: its position in the integrity zome's declaration.
    pub open spec fn type_key(self) -> TypeKey {
        match self {
            LinkTypes::EmailCredentials => TypeKey { dependency: 0, type_index: 0 },
            LinkTypes::EmailAddresses => TypeKey { dependency: 0, type_index: 1 },
        }
    }

    /// The key of this link type.
    pub fn key(&self) -> (res: TypeKey)
        ensures
            res == self.type_key(),
    {
        match self {
            LinkTypes::EmailCredentials => TypeKey { dependency: 0, type_index: 0 },
            LinkTypes::EmailAddresses => TypeKey { dependency: 0, type_index: 1 },
        }
    }
}

/// The entry types of the email provider's integrity zome, each with its encoded entry.
#[derive(Debug)]
pub enum EntryTypes {
    /// The account the provider sends email from.
    EmailCredentials(AppEntryBytes),
}

impl EntryTypes {
    /// The key of this entry's type: its position in the integrity zome's declaration.
    pub fn key(&self) -> (res: TypeKey)
        ensures
            res == (TypeKey { dependency: 0, type_index: 0 }),
    {
        match self {
            EntryTypes::EmailCredentials(_) => TypeKey { dependency: 0, type_index: 0 },
        }
    }
}

/// The call of `announce_as_provider` of the email notifications service cell,
/// with the given (unit) payload.
pub fn announce_request(payload: Vec<u8>) -> (res: CallRequest)
    ensures
        res.target == CallTarget::OtherRole("email_notifications_service"),
        res.zome@ == "email_notifications_service"@,
        res.function@ == "announce_as_provider"@,
        res.payload == payload,
        res.purpose == CallPurpose::AnnounceAsProvider,
{
    call_request(
        CallTarget::OtherRole("email_notifications_service"),
        "email_notifications_service",
        "announce_as_provider",
        payload,
        CallPurpose::AnnounceAsProvider,
    )
}

/// Announces this agent as a provider of the email notifications service, by
/// calling `announce_as_provider` of the service cell with the unit value
/// (`announce_request`); fails with the response when that function does not
/// run ("Failed to announce as provider").
pub fn init(log: &mut HostLog) -> (res: Result<(), ZomeError>)
    ensures
        extends(old(log)@, final(log)@),
        (added(old(log)@, final(log)@).len() == 0 && res matches Err(ZomeError::Serialization(_)))
            || forward_run(CallTarget::OtherRole("email_notifications_service"), "email_notifications_service"@,
            "announce_as_provider"@, seq![0xc0u8], CallPurpose::AnnounceAsProvider, added(old(log)@, final(log)@), res),
{
    proof {
        lemma_nothing_added(log@);
    }
    let unit = match host::encode_unit() {
        Ok(u) => u,
        Err(e) => {
            return Err(ZomeError::Serialization(e));
        },
    };
    forward_call(&announce_request(unit), log)
}

/// Makes `credentials` the current sending account: deletes every link from the
/// anchor, stores the credentials and links the anchor to them, with a relaxed
/// chain-top ordering (`publish_run`).
pub fn publish_new_email_credentials(credentials: EntryTypes, log: &mut HostLog) -> (res: Result<(), ZomeError>)
    ensures
        extends(old(log)@, final(log)@),
        match credentials {
            EntryTypes::EmailCredentials(bytes) => publish_run(EMAIL_CREDENTIALS_PATH@, LinkTypes::EmailCredentials.type_key(),
                TypeKey { dependency: 0, type_index: 0 }, bytes, ChainOrdering::Relaxed, added(old(log)@, final(log)@), res),
        },
{
    let entry_type = credentials.key();
    proof {
        reveal_strlit("email_credentials");
    }
    match credentials {
        EntryTypes::EmailCredentials(bytes) => publish_new_entry(
            EMAIL_CREDENTIALS_PATH,
            LinkTypes::EmailCredentials.key(),
            entry_type,
            bytes,
            ChainOrdering::Relaxed,
            log,
        ),
    }
}

/// The current sending account, as stored; nothing when none was published or
/// its entry is not found (`current_entry_run`).
pub fn get_current_email_credentials(log: &mut HostLog) -> (res: Result<Option<AppEntryBytes>, ZomeError>)
    ensures
        extends(old(log)@, final(log)@),
        current_entry_run(EMAIL_CREDENTIALS_PATH@, LinkTypes::EmailCredentials.type_key(), added(old(log)@, final(log)@), res),
{
    proof {
        reveal_strlit("email_credentials");
    }
    get_current_entry(EMAIL_CREDENTIALS_PATH, LinkTypes::EmailCredentials.key(), log)
}

/// Keeps `input.email_address` as the email address of `input.agent`, replacing
/// any earlier one (`register_text_run`).
pub fn register_email_address_for_agent(input: RegisterEmailAddressInput, log: &mut HostLog) -> (res: Result<(), ZomeError>)
    ensures
        extends(old(log)@, final(log)@),
        register_text_run(input.agent@, input.email_address@, LinkTypes::EmailAddresses.type_key(), added(old(log)@, final(log)@), res),
{
    register_text_for_agent(&input.agent, &input.email_address, LinkTypes::EmailAddresses.key(), log)
}

/// The email address registered for `agent`, if any; an error ("Malformed token
/// tag") when the stored address is not valid UTF-8 (`text_run`).
pub fn get_email_address_for_agent(agent: &AgentKey, log: &mut HostLog) -> (res: Result<Option<String>, ZomeError>)
    ensures
        extends(old(log)@, final(log)@),
        text_run(agent@, LinkTypes::EmailAddresses.type_key(), added(old(log)@, final(log)@), res),
{
    text_for_agent(agent, LinkTypes::EmailAddresses.key(), log)
}

/// The signal that sends `email` to an address with the sending account, when
/// both are known; otherwise the error for the first that is missing.
pub fn send_email_signal(
    email: crate::email_types::Email,
    credentials: Option<AppEntryBytes>,
    email_address: Option<String>,
) -> (res: Result<SendEmailSignal, ZomeError>)
    ensures
        credentials is None ==> res == Err::<SendEmailSignal, ZomeError>(ZomeError::Guest(GuestError::NoEmailCredentials)),
        credentials is Some && email_address is None ==> res == Err::<SendEmailSignal, ZomeError>(
            ZomeError::Guest(GuestError::NoEmailAddress),
        ),
        credentials matches Some(c) ==> (email_address matches Some(a) ==> res == Ok::<SendEmailSignal, ZomeError>(
            SendEmailSignal { email_address: a, email, credentials: c },
        )),
{
    let Some(credentials) = credentials else {
        return Err(ZomeError::Guest(GuestError::NoEmailCredentials));
    };
    let Some(email_address) = email_address else {
        return Err(ZomeError::Guest(GuestError::NoEmailAddress));
    };
    Ok(SendEmailSignal { email_address, email, credentials })
}

/// The events of emailing `agent`: the reading of the current sending account
/// (`current_entry_run`); with none, "email authority hasn't registered a
/// service account key yet" and nothing more; with one, the reading of the
/// agent's address (`text_run`); the signal holds `email`, the address and
/// the account (`send_email_signal`), and a read's error is returned unchanged.
pub open spec fn send_email_run(agent: Seq<u8>, email: Email, t: Seq<HostEvent>, res: Result<SendEmailSignal, ZomeError>) -> bool {
    exists|k: int, r: Result<Option<AppEntryBytes>, ZomeError>| 0 <= k <= t.len()
        && #[trigger] current_entry_run(EMAIL_CREDENTIALS_PATH@, LinkTypes::EmailCredentials.type_key(), t.take(k), r) && match r {
        Err(e) => k == t.len() && res == Err::<SendEmailSignal, ZomeError>(e),
        Ok(None) => k == t.len() && res == Err::<SendEmailSignal, ZomeError>(ZomeError::Guest(GuestError::NoEmailCredentials)),
        Ok(Some(credentials)) => exists|r2: Result<Option<String>, ZomeError>|
            #[trigger] text_run(agent, LinkTypes::EmailAddresses.type_key(), t.skip(k), r2) && match r2 {
            Err(e) => res == Err::<SendEmailSignal, ZomeError>(e),
            Ok(None) => res == Err::<SendEmailSignal, ZomeError>(ZomeError::Guest(GuestError::NoEmailAddress)),
            Ok(Some(address)) => res == Ok::<SendEmailSignal, ZomeError>(
                SendEmailSignal { email_address: address, email, credentials },
            ),
        },
    }
}

/// An email signal carries the stored sending account and the agent's own
/// registered address: when emailing gives a signal, the events begin with a
/// read of the current credentials that found exactly the signal's account,
/// followed by a read of the agent's address that found exactly the signal's
/// address, and the signal holds the email asked for.
pub proof fn law_signal_carries_the_account_and_address(agent: Seq<u8>, email: Email, t: Seq<HostEvent>, res: Result<SendEmailSignal, ZomeError>)
    requires
        send_email_run(agent, email, t, res),
        res is Ok,
    ensures
        exists|k: int| 0 <= k <= t.len() && #[trigger] current_entry_run(EMAIL_CREDENTIALS_PATH@, LinkTypes::EmailCredentials.type_key(),
            t.take(k), Ok::<Option<AppEntryBytes>, ZomeError>(Some(res->Ok_0.credentials)))
            && text_run(agent, LinkTypes::EmailAddresses.type_key(), t.skip(k),
            Ok::<Option<String>, ZomeError>(Some(res->Ok_0.email_address))),
        res->Ok_0.email == email,
{
    let (k, r) = choose|k: int, r: Result<Option<AppEntryBytes>, ZomeError>| 0 <= k <= t.len()
        && #[trigger] current_entry_run(EMAIL_CREDENTIALS_PATH@, LinkTypes::EmailCredentials.type_key(), t.take(k), r) && match r {
        Err(e) => k == t.len() && res == Err::<SendEmailSignal, ZomeError>(e),
        Ok(None) => k == t.len() && res == Err::<SendEmailSignal, ZomeError>(ZomeError::Guest(GuestError::NoEmailCredentials)),
        Ok(Some(credentials)) => exists|r2: Result<Option<String>, ZomeError>|
            #[trigger] text_run(agent, LinkTypes::EmailAddresses.type_key(), t.skip(k), r2) && match r2 {
            Err(e) => res == Err::<SendEmailSignal, ZomeError>(e),
            Ok(None) => res == Err::<SendEmailSignal, ZomeError>(ZomeError::Guest(GuestError::NoEmailAddress)),
            Ok(Some(address)) => res == Ok::<SendEmailSignal, ZomeError>(
                SendEmailSignal { email_address: address, email, credentials },
            ),
        },
    };
    if let Ok(Some(credentials)) = r {
        let r2 = choose|r2: Result<Option<String>, ZomeError>|
            #[trigger] text_run(agent, LinkTypes::EmailAddresses.type_key(), t.skip(k), r2) && match r2 {
            Err(e) => res == Err::<SendEmailSignal, ZomeError>(e),
            Ok(None) => res == Err::<SendEmailSignal, ZomeError>(ZomeError::Guest(GuestError::NoEmailAddress)),
            Ok(Some(address)) => res == Ok::<SendEmailSignal, ZomeError>(
                SendEmailSignal { email_address: address, email, credentials },
            ),
        };
        assert(current_entry_run(EMAIL_CREDENTIALS_PATH@, LinkTypes::EmailCredentials.type_key(), t.take(k),
            Ok::<Option<AppEntryBytes>, ZomeError>(Some(res->Ok_0.credentials))));
        assert(text_run(agent, LinkTypes::EmailAddresses.type_key(), t.skip(k),
            Ok::<Option<String>, ZomeError>(Some(res->Ok_0.email_address))));
    }
}

/// The signal that emails an agent: the current sending account and the
/// agent's registered address (`send_email_run`). The account is read first;
/// without one no address is read.
pub fn send_email(input: SendEmailInput, log: &mut HostLog) -> (res: Result<SendEmailSignal, ZomeError>)
    ensures
        extends(old(log)@, final(log)@),
        send_email_run(input.agent@, input.email, added(old(log)@, final(log)@), res),
{
    let ghost l0 = log@;
    let credentials = get_current_email_credentials(log);
    let ghost l1 = log@;
    let ghost t1 = added(l0, l1);
    let ghost r = credentials;
    proof {
        lemma_whole(t1);
        assert(current_entry_run(EMAIL_CREDENTIALS_PATH@, LinkTypes::EmailCredentials.type_key(), t1.take(t1.len() as int), r));
    }
    let credentials = match credentials {
        Err(e) => {
            return Err(e);
        },
        Ok(None) => {
            return send_email_signal(input.email, None, None);
        },
        Ok(Some(c)) => c,
    };
    let address = get_email_address_for_agent(&input.agent, log);
    proof {
        lemma_added_joins(l0, l1, log@);
        let t = added(l0, log@);
        assert(current_entry_run(EMAIL_CREDENTIALS_PATH@, LinkTypes::EmailCredentials.type_key(), t.take(t1.len() as int), r));
    }
    match address {
        Err(e) => Err(e),
        Ok(address) => send_email_signal(input.email, Some(credentials), address),
    }
}

} // verus!
