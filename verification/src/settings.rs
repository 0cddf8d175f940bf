//! The notifications settings zome: each agent keeps, per kind of
//! notification, how it wants to be notified.
use vstd::prelude::*;

use std::collections::HashMap;

use hdk::prelude::AppEntryBytes;

use crate::errors::{GuestError, ZomeError};
use crate::hashes::{target_action, ActionHashValue, AgentKey, Linkable};
use crate::effects::{added, extends, lemma_added_joins, lemma_one_added, lemma_whole};
use crate::host::{self, HostEvent, HostLog};
use crate::registry::{delete_links, get_links_of, links_run, replace_run, value_write_run, write_value};
use crate::requests::{linkable_bytes, EndKind};
use crate::types::{ChainOrdering, LinkRecord, TypeKey};

verus! {

/// How an agent wants to be notified of one kind of notification.
#[derive(Debug, Clone, PartialEq, Eq)]
pub enum NotificationProviderSettings {
    /// By email, at this address.
    Email { email_address: String },
}

/// An agent's notification settings, by kind of notification.
#[derive(Debug)]
pub struct NotificationsSettings {
    pub settings_by_notification_type: HashMap<String, NotificationProviderSettings>,
}

/// The link types of the settings' integrity zome.
#[derive(Debug, Clone, Copy, PartialEq, Eq)]
pub enum LinkTypes {
    /// From an agent to the action that created its current settings.
    AgentToNotificationsSettings,
}

impl LinkTypes {
    /// The key of this link type: its position in the integrity zome's declaration.
    pub open spec fn type_key(self) -> TypeKey {
        match self {
            LinkTypes::AgentToNotificationsSettings => TypeKey { dependency: 0, type_index: 0 },
        }
    }

    /// The key of this link type.
    pub fn key(&self) -> (res: TypeKey)
        ensures
            res == self.type_key(),
    {
        match self {
            LinkTypes::AgentToNotificationsSettings => TypeKey { dependency: 0, type_index: 0 },
        }
    }
}

/// The entry types of the settings' integrity zome, each with its encoded entry.
#[derive(Debug)]
pub enum EntryTypes {
    /// An agent's notification settings.
    NotificationsSettings(AppEntryBytes),
}

impl EntryTypes {
    /// The key of this entry's type: its position in the integrity zome's declaration.
    pub fn key(&self) -> (res: TypeKey)
        ensures
            res == (TypeKey { dependency: 0, type_index: 0 }),
    {
        match self {
            EntryTypes::NotificationsSettings(_) => TypeKey { dependency: 0, type_index: 0 },
        }
    }
}

/// The verdict of the settings' validation.
#[derive(Debug, Clone, Copy, PartialEq, Eq)]
pub enum ValidationVerdict {
    Valid,
}

/// Every operation on the settings DNA is valid.
pub fn validate() -> (res: ValidationVerdict)
    ensures
        res == ValidationVerdict::Valid,
{
    ValidationVerdict::Valid
}

/// The links from `agent` to its settings, in the order the host gives them
/// (`links_run`).
pub fn get_notifications_settings_links_for_agent(agent: &AgentKey, log: &mut HostLog) -> (res: Result<Vec<LinkRecord>, ZomeError>)
    ensures
        extends(old(log)@, final(log)@),
        links_run(EndKind::Agent, agent@, LinkTypes::AgentToNotificationsSettings.type_key(), added(old(log)@, final(log)@), res),
{
    get_links_of(Linkable::Agent(agent.duplicate()), LinkTypes::AgentToNotificationsSettings.key(), log)
}

/// The events of setting the calling agent's settings to `entry`: one
/// `agent_info`; when it answers, the reading of the agent's settings links
/// (`links_run`), then the deletion of each, the creation of the entry and the
/// link from the agent to it, at the default (strict) ordering (`replace_run`).
pub open spec fn set_run(entry: AppEntryBytes, t: Seq<HostEvent>, res: Result<(), ZomeError>) -> bool {
    t.len() >= 1 && (t[0] matches HostEvent::AgentInfo(a) && match a {
        Err(x) => t.len() == 1 && res == Err::<(), ZomeError>(ZomeError::Host(x)),
        Ok(me) => exists|k: int, r: Result<Vec<LinkRecord>, ZomeError>| 1 <= k <= t.len()
            && #[trigger] links_run(EndKind::Agent, me@, LinkTypes::AgentToNotificationsSettings.type_key(), t.subrange(1, k), r)
            && match r {
            Err(e) => k == t.len() && res == Err::<(), ZomeError>(e),
            Ok(links) => replace_run(links@, EndKind::Agent, me@, LinkTypes::AgentToNotificationsSettings.type_key(),
                TypeKey { dependency: 0, type_index: 0 }, entry, ChainOrdering::Strict, t.skip(k), res),
        },
    })
}

/// Setting the settings, when it succeeds, replaces the calling agent's
/// settings: the events begin with the agent's key, hold the settings links
/// read from that agent, a made deletion of each in order, the creation of
/// exactly `entry`, and last a made link from the agent to the action that
/// created it.
pub proof fn law_setting_replaces_the_settings(entry: AppEntryBytes, t: Seq<HostEvent>, res: Result<(), ZomeError>)
    requires
        set_run(entry, t, res),
        res is Ok,
    ensures
        t.len() >= 8,
        t[3] matches HostEvent::ReadLinks(_, recs) && t.len() == recs@.len() + 8
            && forall|i: int| 0 <= i < recs@.len() ==> (#[trigger] t.skip(4)[i] matches HostEvent::DeleteLink(d, Ok(_))
                && d.address@ == recs@[i].create_link_hash@),
        t[0] matches HostEvent::AgentInfo(Ok(me)) && (t[t.len() - 3] matches HostEvent::CreateEntry(_, e, Ok(created)) && e == entry
            && (t[t.len() - 1] matches HostEvent::CreateLink(w, Ok(_)) && w.base is Agent && linkable_bytes(w.base) == me@
            && w.target is Action && linkable_bytes(w.target) == created@)),
{
    if let HostEvent::AgentInfo(Ok(me)) = t[0] {
        let (k, r) = choose|k: int, r: Result<Vec<LinkRecord>, ZomeError>| 1 <= k <= t.len()
            && #[trigger] links_run(EndKind::Agent, me@, LinkTypes::AgentToNotificationsSettings.type_key(), t.subrange(1, k), r)
            && match r {
            Err(e) => k == t.len() && res == Err::<(), ZomeError>(e),
            Ok(links) => replace_run(links@, EndKind::Agent, me@, LinkTypes::AgentToNotificationsSettings.type_key(),
                TypeKey { dependency: 0, type_index: 0 }, entry, ChainOrdering::Strict, t.skip(k), res),
        };
        if let Ok(links) = r {
            assert(k == 4);
            assert(t.subrange(1, 4)[2] == t[3]);
            let rest = t.skip(4);
            let n = links@.len() as int;
            assert forall|i: int| 0 <= i < n implies (#[trigger] t.skip(4)[i] matches HostEvent::DeleteLink(d, Ok(_))
                && d.address@ == links@[i].create_link_hash@) by {
                assert(rest.take(n)[i] == rest[i]);
            }
            let w = rest.skip(n);
            assert(w.len() == 4);
            assert(t[t.len() - 3] == w[1]);
            assert(t[t.len() - 1] == w[3]);
        }
    }
}

/// Makes `settings` the calling agent's settings: deletes every settings link
/// from the agent, stores the settings and links the agent to them (`set_run`).
pub fn set_notifications_settings(settings: EntryTypes, log: &mut HostLog) -> (res: Result<(), ZomeError>)
    ensures
        extends(old(log)@, final(log)@),
        match settings {
            EntryTypes::NotificationsSettings(bytes) => set_run(bytes, added(old(log)@, final(log)@), res),
        },
{
    let ghost l0 = log@;
    let entry_type = settings.key();
    let bytes = match settings {
        EntryTypes::NotificationsSettings(bytes) => bytes,
    };
    let ghost entry = bytes;
    let answer = host::agent_latest_pubkey(log);
    let ghost l1 = log@;
    proof {
        lemma_one_added(l0, HostEvent::AgentInfo(answer));
    }
    let me = match answer {
        Ok(k) => k,
        Err(x) => {
            return Err(ZomeError::Host(x));
        },
    };
    let ghost key = LinkTypes::AgentToNotificationsSettings.type_key();
    let read = get_notifications_settings_links_for_agent(&me, log);
    let ghost l2 = log@;
    proof {
        lemma_added_joins(l0, l1, l2);
        let t = added(l0, l2);
        assert(t.subrange(1, t.len() as int) =~= added(l1, l2));
    }
    let links = match read {
        Ok(links) => links,
        Err(e) => {
            return Err(e);
        },
    };
    let deleted = delete_links(&links, ChainOrdering::Strict, log);
    let ghost l3 = log@;
    proof {
        lemma_added_joins(l0, l2, l3);
        let t = added(l0, l3);
        let k = added(l0, l2).len() as int;
        assert(t.subrange(1, k) =~= added(l1, l2));
        assert(t.skip(k) == added(l2, l3));
        lemma_whole(added(l2, l3));
    }
    if let Err(e) = deleted {
        return Err(e);
    }
    let written = write_value(Linkable::Agent(me), LinkTypes::AgentToNotificationsSettings.key(), entry_type, bytes, ChainOrdering::Strict, log);
    proof {
        lemma_added_joins(l2, l3, log@);
        lemma_added_joins(l0, l2, log@);
        let t = added(l0, log@);
        let k = added(l0, l2).len() as int;
        assert(t.subrange(1, k) =~= added(l1, l2));
        assert(t.skip(k) == added(l2, log@));
        assert(added(l2, log@).take(links@.len() as int) == added(l2, l3));
        assert(added(l2, log@).skip(links@.len() as int) == added(l3, log@));
    }
    written
}

/// What the settings links read as `links` name: nothing when there is none
/// ("Agent hasn't created any notifications settings yet"), an error ("Malformed
/// notifications settings link") when the first does not point to an action,
/// otherwise that action.
pub open spec fn action_of_links(links: Seq<LinkRecord>, res: Result<Option<ActionHashValue>, ZomeError>) -> bool {
    &&& links.len() == 0 ==> res == Ok::<Option<ActionHashValue>, ZomeError>(None)
    &&& links.len() > 0 && target_action(links[0].target) is None ==> res == Err::<Option<ActionHashValue>, ZomeError>(
        ZomeError::Guest(GuestError::MalformedSettingsLink),
    )
    &&& links.len() > 0 && target_action(links[0].target) is Some ==> (res matches Ok(Some(h))
        && target_action(links[0].target) == Some(h@))
}

/// The action that created an agent's current settings, named by the first of
/// its settings links (`action_of_links`).
pub fn settings_action_of(links: &Vec<LinkRecord>) -> (res: Result<Option<ActionHashValue>, ZomeError>)
    ensures
        action_of_links(links@, res),
{
    if links.len() == 0 {
        return Ok(None);
    }
    match links[0].target.action_hash() {
        Some(h) => Ok(Some(h)),
        None => Err(ZomeError::Guest(GuestError::MalformedSettingsLink)),
    }
}

/// Settings that were set are found: when setting them wrote the link from the
/// agent to the creating action, and a later read finds that link first, the
/// action it names is the one that created the settings.
pub proof fn law_set_settings_are_found(
    me: Seq<u8>,
    entry: AppEntryBytes,
    written: Seq<HostEvent>,
    links: Seq<LinkRecord>,
    res: Result<Option<ActionHashValue>, ZomeError>,
)
    requires
        value_write_run(EndKind::Agent, me, LinkTypes::AgentToNotificationsSettings.type_key(),
            TypeKey { dependency: 0, type_index: 0 }, entry, ChainOrdering::Strict, written, Ok(())),
        links.len() > 0,
        written[3] matches HostEvent::CreateLink(w, _) && (links[0].target matches crate::hashes::LinkTarget::Action(h)
            && h@ == linkable_bytes(w.target)),
        action_of_links(links, res),
    ensures
        res matches Ok(Some(a)) && (written[1] matches HostEvent::CreateEntry(_, _, Ok(created)) && a@ == created@),
{
}

/// The events of finding an agent's settings: the reading of its settings
/// links (`links_run`), which then name the action (`action_of_links`).
pub open spec fn settings_action_run(agent: Seq<u8>, t: Seq<HostEvent>, res: Result<Option<ActionHashValue>, ZomeError>) -> bool {
    exists|r: Result<Vec<LinkRecord>, ZomeError>|
        #[trigger] links_run(EndKind::Agent, agent, LinkTypes::AgentToNotificationsSettings.type_key(), t, r) && match r {
        Err(e) => res == Err::<Option<ActionHashValue>, ZomeError>(e),
        Ok(links) => action_of_links(links@, res),
    }
}

/// The action that created `agent`'s current settings, if the agent has any;
/// the record it created is what the agent's settings are
/// (`settings_action_run`).
pub fn settings_action_for(agent: &AgentKey, log: &mut HostLog) -> (res: Result<Option<ActionHashValue>, ZomeError>)
    ensures
        extends(old(log)@, final(log)@),
        settings_action_run(agent@, added(old(log)@, final(log)@), res),
{
    match get_notifications_settings_links_for_agent(agent, log) {
        Err(e) => Err(e),
        Ok(links) => settings_action_of(&links),
    }
}

/// The events of fetching an agent's settings: the reading of its settings
/// links (`links_run`); with none, nothing; when the first does not point to
/// an action, "Malformed notifications settings link"; otherwise one `get` of
/// the record that action created, whose encoded form (or the host's error,
/// or the encoding's) is the result.
pub open spec fn settings_record_run(agent: Seq<u8>, t: Seq<HostEvent>, res: Result<Option<Vec<u8>>, ZomeError>) -> bool {
    exists|k: int, r: Result<Vec<LinkRecord>, ZomeError>| 0 <= k <= t.len()
        && #[trigger] links_run(EndKind::Agent, agent, LinkTypes::AgentToNotificationsSettings.type_key(), t.take(k), r) && match r {
        Err(e) => k == t.len() && res == Err::<Option<Vec<u8>>, ZomeError>(e),
        Ok(links) => {
            let rest = t.skip(k);
            &&& links@.len() == 0 ==> rest.len() == 0 && res == Ok::<Option<Vec<u8>>, ZomeError>(None)
            &&& links@.len() > 0 && target_action(links@[0].target) is None ==> rest.len() == 0
                && res == Err::<Option<Vec<u8>>, ZomeError>(ZomeError::Guest(GuestError::MalformedSettingsLink))
            &&& links@.len() > 0 ==> (target_action(links@[0].target) matches Some(action) ==> rest.len() == 1
                && (rest[0] matches HostEvent::GetRecord(address, answer) && address@ == action && match answer {
                Err(x) => res == Err::<Option<Vec<u8>>, ZomeError>(ZomeError::Host(x)),
                Ok(None) => res == Ok::<Option<Vec<u8>>, ZomeError>(None),
                Ok(Some(Ok(bytes))) => res == Ok::<Option<Vec<u8>>, ZomeError>(Some(bytes)),
                Ok(Some(Err(e))) => res == Err::<Option<Vec<u8>>, ZomeError>(ZomeError::Serialization(e)),
            }))
        },
    }
}

/// An agent's current settings record, in its encoded form: fetched at the
/// action that its first settings link names (`settings_record_run`); nothing
/// when the agent has no settings or the record is not found.
pub fn get_notifications_settings_for(agent: &AgentKey, log: &mut HostLog) -> (res: Result<Option<Vec<u8>>, ZomeError>)
    ensures
        extends(old(log)@, final(log)@),
        settings_record_run(agent@, added(old(log)@, final(log)@), res),
{
    let ghost l0 = log@;
    let read = get_notifications_settings_links_for_agent(agent, log);
    let ghost l1 = log@;
    let ghost t1 = added(l0, l1);
    proof {
        lemma_whole(t1);
        assert(links_run(EndKind::Agent, agent@, LinkTypes::AgentToNotificationsSettings.type_key(), t1.take(t1.len() as int), read));
    }
    let links = match read {
        Err(e) => {
            return Err(e);
        },
        Ok(links) => links,
    };
    let action = match settings_action_of(&links) {
        Err(e) => {
            return Err(e);
        },
        Ok(None) => {
            return Ok(None);
        },
        Ok(Some(a)) => a,
    };
    let answer = host::get_record(&action, log);
    proof {
        lemma_one_added(l1, HostEvent::GetRecord(action, answer));
        lemma_added_joins(l0, l1, log@);
        assert(links_run(EndKind::Agent, agent@, LinkTypes::AgentToNotificationsSettings.type_key(),
            added(l0, log@).take(t1.len() as int), read));
    }
    match answer {
        Err(x) => Err(ZomeError::Host(x)),
        Ok(None) => Ok(None),
        Ok(Some(Ok(bytes))) => Ok(Some(bytes)),
        Ok(Some(Err(e))) => Err(ZomeError::Serialization(e)),
    }
}

} // verus!
