//! The errors of the zome logic.
use vstd::prelude::*;

verus! {

/// Why a zome call made on behalf of the logic did not succeed.
#[derive(Debug, Clone, Copy, PartialEq, Eq)]
pub enum CallPurpose {
    /// Forwarding a request to notify an agent.
    NotifyAgent,
    /// Registering an FCM token.
    RegisterFcmToken,
    /// Registering an email address with a provider.
    RegisterEmailAddress,
    /// Forwarding an email address to the provider cell.
    RegisterEmailToken,
    /// Asking the local notifications zome for an available provider.
    GetAvailableProvider,
    /// Announcing this agent as a provider of the email notifications service.
    AnnounceAsProvider,
    /// Pinging a provider to learn whether it is reachable.
    Ping,
}

/// An error that the logic itself raises.
#[derive(Debug)]
pub enum GuestError {
    /// "Agent hasn't registered their FCM token yet"
    NoFcmToken,
    /// "FCM authority hasn't registered a service account key yet"
    NoServiceAccountKey,
    /// "email authority hasn't registered a service account key yet"
    NoEmailCredentials,
    /// "Agent hasn't registered their email address yet"
    NoEmailAddress,
    /// "Malformed link": the current-value link points outside the DHT.
    MalformedLink,
    /// "Malformed key": the current-value record carries no entry.
    MalformedKey,
    /// The current-value record's entry is not an app entry.
    NotAppEntry,
    /// "Malformed notifications settings link": the settings link names no action.
    MalformedSettingsLink,
    /// "Malformed token tag ...": a link tag that is not UTF-8, with the decoder's account.
    MalformedTag(String),
    /// "Can't find any notifications provider"
    NoNotificationsProvider,
    /// "There is no provider available"
    NoProviderAvailable,
    /// An answer that names, as the provider, bytes that are not an agent key.
    MalformedAgentKey,
    /// A link type that does not map to any zome index and link type in scope.
    LinkTypeOutOfScope(u8),
    /// An entry type that does not map to any zome index and entry type in scope.
    EntryTypeOutOfScope(u8),
    /// A zome call came back with no response.
    NoCallResponse,
    /// A zome call was answered with something other than success.
    CallFailed(CallPurpose, hdk::prelude::ZomeCallResponse),
}

/// An error of a zome function.
#[derive(Debug)]
pub enum ZomeError {
    /// An error that a host function returned, passed on unchanged.
    Host(hdk::prelude::WasmError),
    /// Bytes that did not decode into the expected value.
    Serialization(hdk::prelude::SerializedBytesError),
    /// An error of the logic itself.
    Guest(GuestError),
}

} // verus!
