//! Pending notifications: a notification that an app keeps until its recipient
//! reads it, and the functions an app offers to serve them.
use vstd::prelude::*;

use hdk::prelude::SerializedBytes;

use crate::errors::ZomeError;
use crate::hashes::{DhtHash, DnaHashValue};

verus! {

/// Where a notification leads when clicked: a DNA and an address in it, with
/// app-defined context.
#[derive(Debug)]
pub struct HrlWithContext {
    pub hrl: (DnaHashValue, DhtHash),
    pub context: SerializedBytes,
}

/// A notification as its app presents it.
#[derive(Debug)]
pub struct Notification {
    pub title: String,
    pub body: String,
    pub hrl_to_navigate_to_on_click: HrlWithContext,
    pub pending: bool,
}

/// A request for a notification, in a locale.
#[derive(Debug)]
pub struct GetNotificationInput {
    pub notification_hash: DhtHash,
    pub locale: String,
}

/// What an app that keeps pending notifications offers.
pub trait PendingNotifications {
    /// The notification at an address, rendered in a locale; nothing when there
    /// is no such notification.
    fn get_notification(input: GetNotificationInput) -> Result<Option<Notification>, ZomeError>;

    /// Marks the notification at an address as read.
    fn mark_notification_as_read(notification_hash: DhtHash) -> Result<(), ZomeError>;
}

} // verus!
