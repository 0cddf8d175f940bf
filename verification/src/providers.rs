//! The anchor that notification providers are linked from, shared by the
//! notifications zome and the email notifications service: announcing an
//! agent there, listing the agents linked, and picking the first that answers.
use vstd::prelude::*;

use crate::calls::{
    first_available_provider, grant_run, grant_to_all, law_grant_opens_the_callers_zome, law_picked_provider_answered_first,
    lemma_pinged_in_rest, names_of, pick_run, pinged_in,
};
use crate::effects::{added, extends, lemma_added_joins, lemma_nothing_added, lemma_one_added, lemma_whole};
use crate::errors::ZomeError;
use crate::hashes::{AgentKey, EntryHashValue, Linkable};
use crate::host::{self, HostEvent, HostLog};
use crate::registry::{
    agent_keys_of, agent_targets, anchor_hash, get_links_of, keys_of, links_run, scoped_answer, scoped_link_type,
};
use crate::requests::{agent_link, linkable_bytes, EndKind};
use crate::types::{ChainOrdering, TypeKey};

verus! {

/// The anchor path that providers are linked from.
pub const PROVIDERS_PATH: &'static str = "notifications_providers";

/// The hash of the providers anchor.
pub open spec fn providers_anchor() -> Seq<u8> {
    host::path_entry_hash_of(PROVIDERS_PATH@)
}

/// The hash of the providers anchor; the host's error when hashing fails.
pub fn providers_anchor_hash() -> (res: Result<EntryHashValue, ZomeError>)
    ensures
        res matches Ok(h) ==> h@ == providers_anchor(),
        res matches Err(e) ==> e is Host,
{
    proof {
        reveal_strlit("notifications_providers");
    }
    anchor_hash(PROVIDERS_PATH)
}

/// The events of listing the providers linked with links of type `key`: when
/// the anchor's hash is had, the reading of its links (`links_run`); the
/// providers are the agents those links point to, in link order.
pub open spec fn listing_run(key: TypeKey, t: Seq<HostEvent>, res: Result<Vec<AgentKey>, ZomeError>) -> bool {
    ||| t.len() == 0 && res matches Err(ZomeError::Host(_))
    ||| exists|r: Result<Vec<crate::types::LinkRecord>, ZomeError>| #[trigger] links_run(EndKind::Entry, providers_anchor(), key, t, r)
        && match r {
        Err(e) => res == Err::<Vec<AgentKey>, ZomeError>(e),
        Ok(links) => res matches Ok(ks) && keys_of(ks@) == agent_keys_of(links@),
    }
}

/// Every agent the providers anchor links to with links of type `key`, in
/// link order (`listing_run`).
pub fn linked_providers(key: TypeKey, log: &mut HostLog) -> (res: Result<Vec<AgentKey>, ZomeError>)
    ensures
        extends(old(log)@, final(log)@),
        listing_run(key, added(old(log)@, final(log)@), res),
{
    proof {
        lemma_nothing_added(log@);
    }
    let base = providers_anchor_hash()?;
    let read = get_links_of(Linkable::Entry(base), key, log);
    match read {
        Err(e) => Err(e),
        Ok(links) => Ok(agent_targets(&links)),
    }
}

/// The events of finding an available provider: when the anchor's hash is had,
/// the reading of its links (`links_run`), then the pings of the agents they
/// point to, in link order (`pick_run`).
pub open spec fn available_run(key: TypeKey, t: Seq<HostEvent>, res: Result<Option<AgentKey>, ZomeError>) -> bool {
    ||| t.len() == 0 && res matches Err(ZomeError::Host(_))
    ||| exists|k: int, r: Result<Vec<crate::types::LinkRecord>, ZomeError>| 0 <= k <= t.len()
        && #[trigger] links_run(EndKind::Entry, providers_anchor(), key, t.take(k), r) && match r {
        Err(e) => k == t.len() && res == Err::<Option<AgentKey>, ZomeError>(e),
        Ok(links) => pick_run(agent_keys_of(links@), t.skip(k), res),
    }
}

/// A provider found available answered a ping: when one is found, the events
/// hold a ping of it, to the calling zome's own name, that was answered.
pub proof fn law_available_provider_answered(key: TypeKey, t: Seq<HostEvent>, res: Result<Option<AgentKey>, ZomeError>)
    requires
        available_run(key, t, res),
        res matches Ok(Some(_)),
    ensures
        pinged_in(res->Ok_0->Some_0@, t, true),
{
    let (k, r) = choose|k: int, r: Result<Vec<crate::types::LinkRecord>, ZomeError>| 0 <= k <= t.len()
        && #[trigger] links_run(EndKind::Entry, providers_anchor(), key, t.take(k), r) && match r {
        Err(e) => k == t.len() && res == Err::<Option<AgentKey>, ZomeError>(e),
        Ok(links) => pick_run(agent_keys_of(links@), t.skip(k), res),
    };
    if let Ok(links) = r {
        law_picked_provider_answered_first(agent_keys_of(links@), t.skip(k), res);
        lemma_pinged_in_rest(res->Ok_0->Some_0@, t, k, true);
    }
}

/// The first provider linked with links of type `key`, in link order, that
/// answers a ping; nothing when none does (`available_run`).
pub fn available_provider(key: TypeKey, log: &mut HostLog) -> (res: Result<Option<AgentKey>, ZomeError>)
    ensures
        extends(old(log)@, final(log)@),
        available_run(key, added(old(log)@, final(log)@), res),
{
    let ghost l0 = log@;
    proof {
        lemma_nothing_added(l0);
    }
    let base = providers_anchor_hash()?;
    let read = get_links_of(Linkable::Entry(base), key, log);
    let ghost l1 = log@;
    let ghost t1 = added(l0, l1);
    proof {
        lemma_whole(t1);
        assert(links_run(EndKind::Entry, providers_anchor(), key, t1.take(t1.len() as int), read));
    }
    let links = match read {
        Err(e) => {
            return Err(e);
        },
        Ok(links) => links,
    };
    let found = first_available_provider(agent_targets(&links), log);
    proof {
        lemma_added_joins(l0, l1, log@);
        assert(links_run(EndKind::Entry, providers_anchor(), key, added(l0, log@).take(t1.len() as int), read));
    }
    found
}

/// The events of linking the anchor to the agent `me` with a link of type
/// `key`: the type lookup, then one `create_link` from the anchor to the agent
/// with an empty tag at `ordering`.
pub open spec fn agent_link_run(me: Seq<u8>, key: TypeKey, ordering: ChainOrdering, t: Seq<HostEvent>, res: Result<(), ZomeError>) -> bool {
    t.len() >= 1 && (t[0] matches HostEvent::ZomeInfo(a) && match scoped_answer(true, key, a) {
        Err(e) => t.len() == 1 && res == Err::<(), ZomeError>(e),
        Ok(ty) => t.len() == 2 && (t[1] matches HostEvent::CreateLink(w, linked) && w.base is Entry
            && linkable_bytes(w.base) == providers_anchor() && w.target is Agent && linkable_bytes(w.target) == me
            && w.link_type == ty && w.tag@.len() == 0 && w.ordering == ordering && match linked {
            Ok(_) => res is Ok,
            Err(x) => res == Err::<(), ZomeError>(ZomeError::Host(x)),
        }),
    })
}

/// The events of announcing the calling agent as a provider: one `agent_info`;
/// when it answers, the grant of `functions` under `tag` (`grant_run`); when
/// that was made and the anchor's hash is had, the link from the anchor to the
/// agent's key (`agent_link_run`).
pub open spec fn announce_run(
    tag: Seq<char>,
    functions: Seq<Seq<char>>,
    key: TypeKey,
    ordering: ChainOrdering,
    t: Seq<HostEvent>,
    res: Result<(), ZomeError>,
) -> bool {
    t.len() >= 1 && (t[0] matches HostEvent::AgentInfo(a) && match a {
        Err(x) => t.len() == 1 && res == Err::<(), ZomeError>(ZomeError::Host(x)),
        Ok(me) => exists|k: int, g: Result<(), ZomeError>| 1 <= k <= t.len()
            && #[trigger] grant_run(tag, functions, t.subrange(1, k), g) && match g {
            Err(e) => k == t.len() && res == Err::<(), ZomeError>(e),
            Ok(_) => {
                ||| k == t.len() && res matches Err(ZomeError::Host(_))
                ||| agent_link_run(me@, key, ordering, t.skip(k), res)
            },
        },
    })
}

/// Announcing, when it succeeds, made the calling agent a provider: the events
/// begin with the agent's key, hold a grant, under `tag`, of the calling zome
/// itself (the name `zome_info` gave), and end with a made link from the
/// providers anchor to that key.
pub proof fn law_announcing_links_the_caller(
    tag: Seq<char>,
    functions: Seq<Seq<char>>,
    key: TypeKey,
    ordering: ChainOrdering,
    t: Seq<HostEvent>,
    res: Result<(), ZomeError>,
)
    requires
        announce_run(tag, functions, key, ordering, t, res),
        res is Ok,
    ensures
        t.len() == 5,
        t[0] matches HostEvent::AgentInfo(Ok(me)) && (t[4] matches HostEvent::CreateLink(w, Ok(_)) && w.base is Entry
            && linkable_bytes(w.base) == providers_anchor() && w.target is Agent && linkable_bytes(w.target) == me@),
        t[1] matches HostEvent::ZomeInfo(Ok(info)) && (t[2] matches HostEvent::Grant(g, Ok(_)) && g.zome@ == info.name@ && g.tag@ == tag),
{
    if let HostEvent::AgentInfo(Ok(me)) = t[0] {
        let (k, g) = choose|k: int, g: Result<(), ZomeError>| 1 <= k <= t.len()
            && #[trigger] grant_run(tag, functions, t.subrange(1, k), g) && match g {
            Err(e) => k == t.len() && res == Err::<(), ZomeError>(e),
            Ok(_) => {
                ||| k == t.len() && res matches Err(ZomeError::Host(_))
                ||| agent_link_run(me@, key, ordering, t.skip(k), res)
            },
        };
        law_grant_opens_the_callers_zome(tag, functions, t.subrange(1, k), g);
        assert(t.subrange(1, k)[0] == t[1]);
        assert(t.subrange(1, k)[1] == t[2]);
        assert(t.skip(k)[0] == t[3]);
        assert(t.skip(k)[1] == t[4]);
    }
}

/// Makes the calling agent a provider: opens `functions` of the calling zome
/// to every agent under `tag`, then links the providers anchor to the agent
/// (`announce_run`).
pub fn announce(tag: &str, functions: Vec<&'static str>, key: TypeKey, ordering: ChainOrdering, log: &mut HostLog) -> (res: Result<(), ZomeError>)
    ensures
        extends(old(log)@, final(log)@),
        announce_run(tag@, names_of(functions@), key, ordering, added(old(log)@, final(log)@), res),
{
    let ghost l0 = log@;
    let ghost names = names_of(functions@);
    let answer = host::agent_latest_pubkey(log);
    let ghost l1 = log@;
    proof {
        lemma_one_added(l0, HostEvent::AgentInfo(answer));
    }
    let me = match answer {
        Ok(k) => k,
        Err(x) => {
            return Err(ZomeError::Host(x));
        },
    };
    let granted = grant_to_all(tag, functions, log);
    let ghost l2 = log@;
    let ghost g = granted;
    proof {
        lemma_added_joins(l0, l1, l2);
        let t = added(l0, l2);
        assert(t.subrange(1, t.len() as int) =~= added(l1, l2));
        assert(grant_run(tag@, names, t.subrange(1, t.len() as int), g));
    }
    if let Err(e) = granted {
        return Err(e);
    }
    let base = match providers_anchor_hash() {
        Ok(h) => h,
        Err(e) => {
            return Err(e);
        },
    };
    let scoped = scoped_link_type(key, log);
    let ghost l3 = log@;
    proof {
        lemma_added_joins(l0, l2, l3);
        let t = added(l0, l3);
        let k = added(l0, l2).len() as int;
        assert(t.subrange(1, k) =~= added(l1, l2));
        assert(grant_run(tag@, names, t.subrange(1, k), g));
    }
    let scoped = match scoped {
        Ok(ty) => ty,
        Err(e) => {
            return Err(e);
        },
    };
    let write = agent_link(base, me, scoped, ordering);
    let linked = host::create_link(&write, log);
    proof {
        lemma_one_added(l3, HostEvent::CreateLink(write, linked));
        lemma_added_joins(l2, l3, log@);
        lemma_added_joins(l0, l2, log@);
        let t = added(l0, log@);
        let k = added(l0, l2).len() as int;
        assert(t.subrange(1, k) =~= added(l1, l2));
        assert(grant_run(tag@, names, t.subrange(1, k), g));
    }
    match linked {
        Ok(_) => Ok(()),
        Err(x) => Err(ZomeError::Host(x)),
    }
}

} // verus!
