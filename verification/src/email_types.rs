//! The values exchanged by the email notifications service.
use vstd::prelude::*;

use hdk::prelude::AppEntryBytes;

use crate::hashes::AgentKey;

verus! {

/// A request to email an agent.
#[derive(Debug)]
pub struct SendEmailInput {
    /// The agent to email.
    pub agent: AgentKey,
    /// What to send.
    pub email: Email,
}

/// An email's content.
#[derive(Debug, Clone, PartialEq, Eq)]
pub struct Email {
    pub subject: String,
    pub body: String,
}

/// The account the provider sends email from.
#[derive(Debug, Clone, PartialEq, Eq)]
pub struct EmailCredentials {
    pub username: String,
    pub password: String,
    pub smtp_relay_url: String,
}

/// The signal that asks the provider's mailer to send an email.
#[derive(Debug)]
pub struct SendEmailSignal {
    /// Where to send it.
    pub email_address: String,
    /// What to send.
    pub email: Email,
    /// The sending account, as stored.
    pub credentials: AppEntryBytes,
}

/// A registration of an agent's email address.
#[derive(Debug)]
pub struct RegisterEmailAddressInput {
    pub email_address: String,
    pub agent: AgentKey,
}

} // verus!
