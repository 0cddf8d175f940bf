//! The link registries the zomes keep: links from a base (an anchor path or an
//! agent) to the current value, with the type-scope lookup that names a link
//! or entry type to the host.
use vstd::prelude::*;

use hdk::prelude::{AppEntryBytes, WasmError};

use crate::errors::{GuestError, ZomeError};
use crate::hashes::{target_agent, target_dht, ActionHashValue, AgentKey, DhtHash, EntryHashValue, LinkTarget, Linkable};
use crate::effects::{added, extends, lemma_added_joins, lemma_nothing_added, lemma_one_added, lemma_whole};
use crate::host::{self, HostEvent, HostLog};
use crate::requests::{deletions_of, end_kind, link_query, linkable_bytes, EndKind, LinkDeletion, LinkWrite};
use crate::types::{ChainOrdering, LinkRecord, RecordEntryView, ScopedType, TypeKey, ZomeInfoView, ZomeTypes};

verus! {

/// The scoped type that a key names among the types in scope: the key's
/// dependency picks a zome, its type index picks one of that zome's types
/// (as `ScopedZomeTypes::get` does in `holochain_integrity_types`).
pub open spec fn scoped_type_of(types: Seq<ZomeTypes>, key: TypeKey) -> Option<ScopedType> {
    if key.dependency < types.len() && key.type_index < types[key.dependency as int].types@.len() {
        Some(
            ScopedType {
                zome_index: types[key.dependency as int].zome_index,
                type_index: types[key.dependency as int].types@[key.type_index as int],
            },
        )
    } else {
        None
    }
}

/// Looks a type key up among the types in scope.
pub fn resolve_scoped_type(types: &Vec<ZomeTypes>, key: TypeKey) -> (res: Option<ScopedType>)
    ensures
        res == scoped_type_of(types@, key),
{
    let d = key.dependency as usize;
    if d < types.len() {
        let t = key.type_index as usize;
        if t < types[d].types.len() {
            return Some(ScopedType { zome_index: types[d].zome_index, type_index: types[d].types[t] });
        }
    }
    None
}

/// What looking a type key up in an answer of `zome_info` gives: the scoped
/// link type (`links`) or entry type, an out-of-scope error, or the host's error.
pub open spec fn scoped_answer(links: bool, key: TypeKey, answer: Result<ZomeInfoView, WasmError>) -> Result<ScopedType, ZomeError> {
    match answer {
        Err(x) => Err(ZomeError::Host(x)),
        Ok(info) => match scoped_type_of(if links { info.link_types@ } else { info.entry_types@ }, key) {
            Some(t) => Ok(t),
            None => Err(ZomeError::Guest(
                if links { GuestError::LinkTypeOutOfScope(key.type_index) } else { GuestError::EntryTypeOutOfScope(key.type_index) },
            )),
        },
    }
}

/// The events of a type lookup: one `zome_info`, whose answer gives the result.
pub open spec fn scoped_run(links: bool, key: TypeKey, t: Seq<HostEvent>, res: Result<ScopedType, ZomeError>) -> bool {
    t.len() == 1 && (t[0] matches HostEvent::ZomeInfo(a) && res == scoped_answer(links, key, a))
}

/// Looks a type key up among the types in scope for the calling zome.
fn scoped_type(links: bool, key: TypeKey, log: &mut HostLog) -> (res: Result<ScopedType, ZomeError>)
    ensures
        extends(old(log)@, final(log)@),
        scoped_run(links, key, added(old(log)@, final(log)@), res),
{
    let ghost l0 = log@;
    let answer = host::current_zome_info(log);
    proof {
        lemma_one_added(l0, HostEvent::ZomeInfo(answer));
    }
    match answer {
        Err(x) => Err(ZomeError::Host(x)),
        Ok(info) => {
            let found = if links {
                resolve_scoped_type(&info.link_types, key)
            } else {
                resolve_scoped_type(&info.entry_types, key)
            };
            match found {
                Some(t) => Ok(t),
                None => if links {
                    Err(ZomeError::Guest(GuestError::LinkTypeOutOfScope(key.type_index)))
                } else {
                    Err(ZomeError::Guest(GuestError::EntryTypeOutOfScope(key.type_index)))
                },
            }
        },
    }
}

/// The scoped link type of a link type key, for the calling zome; fails when the
/// key names no link type in scope.
pub fn scoped_link_type(key: TypeKey, log: &mut HostLog) -> (res: Result<ScopedType, ZomeError>)
    ensures
        extends(old(log)@, final(log)@),
        scoped_run(true, key, added(old(log)@, final(log)@), res),
{
    scoped_type(true, key, log)
}

/// The scoped entry type of an entry type key, for the calling zome; fails when
/// the key names no entry type in scope.
pub fn scoped_entry_type(key: TypeKey, log: &mut HostLog) -> (res: Result<ScopedType, ZomeError>)
    ensures
        extends(old(log)@, final(log)@),
        scoped_run(false, key, added(old(log)@, final(log)@), res),
{
    scoped_type(false, key, log)
}

/// The events of reading the links of a type key from a base of the given kind
/// and bytes: the type lookup, the `get_links` of the scoped type from that
/// base, and the reading of the links found, which are the result.
pub open spec fn links_run(kind: EndKind, base: Seq<u8>, key: TypeKey, t: Seq<HostEvent>, res: Result<Vec<LinkRecord>, ZomeError>) -> bool {
    t.len() >= 1 && (t[0] matches HostEvent::ZomeInfo(a) && match scoped_answer(true, key, a) {
        Err(e) => t.len() == 1 && res == Err::<Vec<LinkRecord>, ZomeError>(e),
        Ok(ty) => t.len() >= 2 && (t[1] matches HostEvent::GetLinks(q, b) && end_kind(q.base) == kind
            && linkable_bytes(q.base) == base && q.link_type == ty && match b {
            Err(x) => t.len() == 2 && res == Err::<Vec<LinkRecord>, ZomeError>(ZomeError::Host(x)),
            Ok(links) => t.len() == 3 && (t[2] matches HostEvent::ReadLinks(ls, recs) && ls == links
                && res == Ok::<Vec<LinkRecord>, ZomeError>(recs)),
        }),
    })
}

/// The links of one type from `base`, in the order the host gives them, one
/// record per link (`links_run`).
pub fn get_links_of(base: Linkable, link_type: TypeKey, log: &mut HostLog) -> (res: Result<Vec<LinkRecord>, ZomeError>)
    ensures
        extends(old(log)@, final(log)@),
        links_run(end_kind(base), linkable_bytes(base), link_type, added(old(log)@, final(log)@), res),
{
    let ghost l0 = log@;
    let ghost kind = end_kind(base);
    let ghost bytes = linkable_bytes(base);
    let scoped = scoped_link_type(link_type, log);
    let ghost l1 = log@;
    let scoped = match scoped {
        Ok(t) => t,
        Err(e) => {
            return Err(e);
        },
    };
    let query = link_query(base, scoped);
    let found = host::get_links(&query, log);
    let ghost l2 = log@;
    proof {
        lemma_one_added(l1, HostEvent::GetLinks(query, found));
        lemma_added_joins(l0, l1, l2);
    }
    let links = match found {
        Ok(links) => links,
        Err(x) => {
            return Err(ZomeError::Host(x));
        },
    };
    let records = host::link_records(&links, log);
    proof {
        lemma_one_added(l2, HostEvent::ReadLinks(links, records));
        lemma_added_joins(l0, l2, log@);
    }
    Ok(records)
}

/// The deletion `d` is that of the link `l` at `ordering`.
pub open spec fn deletion_of(d: LinkDeletion, l: LinkRecord, ordering: ChainOrdering) -> bool {
    d.address@ == l.create_link_hash@ && d.ordering == ordering
}

/// The events of deleting the given links in order, stopping at the first
/// failure: on success one made deletion per link; on failure the made
/// deletions of the links before, then the failed one.
pub open spec fn deletes_run(links: Seq<LinkRecord>, ordering: ChainOrdering, t: Seq<HostEvent>, res: Result<usize, ZomeError>) -> bool {
    match res {
        Ok(n) => n == links.len() && t.len() == links.len() && forall|i: int| 0 <= i < t.len() ==>
            (#[trigger] t[i] matches HostEvent::DeleteLink(d, Ok(_)) && deletion_of(d, links[i], ordering)),
        Err(e) => 1 <= t.len() <= links.len() && (forall|i: int| 0 <= i < t.len() - 1 ==>
            (#[trigger] t[i] matches HostEvent::DeleteLink(d, Ok(_)) && deletion_of(d, links[i], ordering)))
            && (t.last() matches HostEvent::DeleteLink(d, Err(x)) && deletion_of(d, links[t.len() - 1], ordering)
            && e == ZomeError::Host(x)),
    }
}

/// Deletes, in order, each of the given links (the deletions `deletions_of`
/// builds), stopping at the first failure (`deletes_run`).
pub fn delete_links(links: &Vec<LinkRecord>, ordering: ChainOrdering, log: &mut HostLog) -> (res: Result<usize, ZomeError>)
    ensures
        extends(old(log)@, final(log)@),
        deletes_run(links@, ordering, added(old(log)@, final(log)@), res),
{
    let ghost l0 = log@;
    let deletions = deletions_of(links, ordering);
    let mut i: usize = 0;
    proof {
        lemma_nothing_added(l0);
    }
    while i < deletions.len()
        invariant
            i <= deletions@.len(),
            deletions@.len() == links@.len(),
            l0 == old(log)@,
            forall|j: int| 0 <= j < links@.len() ==> deletion_of(#[trigger] deletions@[j], links@[j], ordering),
            extends(l0, log@),
            added(l0, log@).len() == i,
            forall|j: int| 0 <= j < i ==> (#[trigger] added(l0, log@)[j] matches HostEvent::DeleteLink(d, Ok(_))
                && deletion_of(d, links@[j], ordering)),
        decreases deletions@.len() - i,
    {
        let ghost before = log@;
        let done = host::delete_link(&deletions[i], log);
        proof {
            lemma_one_added(before, HostEvent::DeleteLink(deletions@[i as int], done));
            lemma_added_joins(l0, before, log@);
            assert(added(l0, log@)[i as int] == HostEvent::DeleteLink(deletions@[i as int], done));
            assert forall|j: int| 0 <= j < i implies added(l0, log@)[j] == added(l0, before)[j] by {}
        }
        match done {
            Ok(_) => {},
            Err(x) => {
                proof {
                    assert(added(l0, log@).last() == HostEvent::DeleteLink(deletions@[i as int], done));
                }
                return Err(ZomeError::Host(x));
            },
        }
        i = i + 1;
    }
    Ok(i)
}

/// Deletes a link with a relaxed chain-top ordering: one `delete_link` of
/// `relaxed_deletion(address)`, whose answer is the result.
pub fn delete_link_relaxed(address: &ActionHashValue, log: &mut HostLog) -> (res: Result<(), ZomeError>)
    ensures
        extends(old(log)@, final(log)@),
        added(old(log)@, final(log)@).len() == 1,
        added(old(log)@, final(log)@)[0] matches HostEvent::DeleteLink(d, answer) && d.address@ == address@
            && d.ordering == ChainOrdering::Relaxed && match answer {
            Ok(_) => res is Ok,
            Err(x) => res == Err::<(), ZomeError>(ZomeError::Host(x)),
        },
{
    let ghost l0 = log@;
    let deletion = relaxed_deletion(address);
    let done = host::delete_link(&deletion, log);
    proof {
        lemma_one_added(l0, HostEvent::DeleteLink(deletion, done));
    }
    match done {
        Ok(_) => Ok(()),
        Err(x) => Err(ZomeError::Host(x)),
    }
}

/// The deletion, with a relaxed chain-top ordering, of the link created by `address`.
pub fn relaxed_deletion(address: &ActionHashValue) -> (res: LinkDeletion)
    ensures
        res.address@ == address@,
        res.ordering == ChainOrdering::Relaxed,
{
    LinkDeletion { address: address.duplicate(), ordering: ChainOrdering::Relaxed }
}

/// The link of the scoped type from `base` to `target` with `tag`, at `ordering`.
pub fn link_write(base: Linkable, target: Linkable, link_type: ScopedType, tag: Vec<u8>, ordering: ChainOrdering) -> (res: LinkWrite)
    ensures
        res.base == base,
        res.target == target,
        res.link_type == link_type,
        res.tag == tag,
        res.ordering == ordering,
{
    LinkWrite { base, target, link_type, tag, ordering }
}

/// The events of creating a link of a type key: the type lookup, then, when it
/// succeeds, one `create_link` of `write(scoped type)` whose answer is the
/// result. The link must be `base` to `target` with `tag` at `ordering`.
pub open spec fn create_run(
    base: Linkable,
    target: Linkable,
    key: TypeKey,
    tag: Seq<u8>,
    ordering: ChainOrdering,
    t: Seq<HostEvent>,
    res: Result<(), ZomeError>,
) -> bool {
    t.len() >= 1 && (t[0] matches HostEvent::ZomeInfo(a) && match scoped_answer(true, key, a) {
        Err(e) => t.len() == 1 && res == Err::<(), ZomeError>(e),
        Ok(ty) => t.len() == 2 && (t[1] matches HostEvent::CreateLink(w, answer) && w.base == base && w.target == target
            && w.link_type == ty && w.tag@ == tag && w.ordering == ordering && match answer {
            Ok(_) => res is Ok,
            Err(x) => res == Err::<(), ZomeError>(ZomeError::Host(x)),
        }),
    })
}

/// Creates a link of the given type, scoped for the calling zome, at `ordering`.
fn create_link_at(base: Linkable, target: Linkable, link_type: TypeKey, tag: Vec<u8>, ordering: ChainOrdering, log: &mut HostLog) -> (res: Result<(), ZomeError>)
    ensures
        extends(old(log)@, final(log)@),
        create_run(base, target, link_type, tag@, ordering, added(old(log)@, final(log)@), res),
{
    let ghost l0 = log@;
    let scoped = scoped_link_type(link_type, log);
    let ghost l1 = log@;
    let scoped = match scoped {
        Ok(t) => t,
        Err(e) => {
            return Err(e);
        },
    };
    let write = link_write(base, target, scoped, tag, ordering);
    let done = host::create_link(&write, log);
    proof {
        lemma_one_added(l1, HostEvent::CreateLink(write, done));
        lemma_added_joins(l0, l1, log@);
    }
    match done {
        Ok(_) => Ok(()),
        Err(x) => Err(ZomeError::Host(x)),
    }
}

/// Creates a link of the given type, scoped for the calling zome, with a
/// relaxed chain-top ordering (`create_run`).
pub fn create_link_relaxed(base: Linkable, target: Linkable, link_type: TypeKey, tag: Vec<u8>, log: &mut HostLog) -> (res: Result<(), ZomeError>)
    ensures
        extends(old(log)@, final(log)@),
        create_run(base, target, link_type, tag@, ChainOrdering::Relaxed, added(old(log)@, final(log)@), res),
{
    create_link_at(base, target, link_type, tag, ChainOrdering::Relaxed, log)
}

/// Creates a link of the given type, scoped for the calling zome, with the
/// default (strict) chain-top ordering (`create_run`).
pub fn create_link_strict(base: Linkable, target: Linkable, link_type: TypeKey, tag: Vec<u8>, log: &mut HostLog) -> (res: Result<(), ZomeError>)
    ensures
        extends(old(log)@, final(log)@),
        create_run(base, target, link_type, tag@, ChainOrdering::Strict, added(old(log)@, final(log)@), res),
{
    create_link_at(base, target, link_type, tag, ChainOrdering::Strict, log)
}

/// The hash of the anchor path `path`.
pub fn anchor_hash(path: &str) -> (res: Result<EntryHashValue, ZomeError>)
    requires
        !path@.contains('#'),
    ensures
        res matches Ok(h) ==> h@ == host::path_entry_hash_of(path@),
        res matches Err(e) ==> e is Host,
{
    match host::path_entry_hash(path) {
        Ok(h) => Ok(h),
        Err(x) => Err(ZomeError::Host(x)),
    }
}

/// The link target `t` names the DHT address `h`: same kind, same bytes.
pub open spec fn names_address(t: LinkTarget, h: DhtHash) -> bool {
    ||| (h matches DhtHash::Action(a) && t matches LinkTarget::Action(b) && a@ == b@)
    ||| (h matches DhtHash::Entry(a) && t matches LinkTarget::Entry(b) && a@ == b@)
}

/// The DHT address of the current value of a registry: the target of its first
/// link; nothing when there is no link; an error when that target lies outside
/// the DHT.
pub fn current_target(links: &Vec<LinkRecord>) -> (res: Result<Option<DhtHash>, ZomeError>)
    ensures
        links@.len() == 0 ==> res == Ok::<Option<DhtHash>, ZomeError>(None),
        links@.len() > 0 && target_dht(links@[0].target) is None ==> res == Err::<Option<DhtHash>, ZomeError>(
            ZomeError::Guest(GuestError::MalformedLink),
        ),
        links@.len() > 0 && target_dht(links@[0].target) is Some ==> (res matches Ok(Some(h))
            && names_address(links@[0].target, h)),
{
    if links.len() == 0 {
        return Ok(None);
    }
    match links[0].target.dht_hash() {
        Some(h) => Ok(Some(h)),
        None => Err(ZomeError::Guest(GuestError::MalformedLink)),
    }
}

/// What the record found for a registry's current value gives: nothing when
/// none was found; "Malformed key" when it has no entry data; an error when its
/// entry data is not an app entry; otherwise the app entry's bytes.
pub open spec fn entry_of_record(record: Option<RecordEntryView>) -> Result<Option<AppEntryBytes>, ZomeError> {
    match record {
        None => Ok(None),
        Some(RecordEntryView::Absent) => Err(ZomeError::Guest(GuestError::MalformedKey)),
        Some(RecordEntryView::NotApp) => Err(ZomeError::Guest(GuestError::NotAppEntry)),
        Some(RecordEntryView::App(b)) => Ok(Some(b)),
    }
}

/// The app entry bytes of the record that holds a registry's current value
/// (`entry_of_record`).
pub fn current_entry_bytes(record: Option<RecordEntryView>) -> (res: Result<Option<AppEntryBytes>, ZomeError>)
    ensures
        res == entry_of_record(record),
{
    match record {
        None => Ok(None),
        Some(RecordEntryView::Absent) => Err(ZomeError::Guest(GuestError::MalformedKey)),
        Some(RecordEntryView::NotApp) => Err(ZomeError::Guest(GuestError::NotAppEntry)),
        Some(RecordEntryView::App(b)) => Ok(Some(b)),
    }
}

/// The events after a registry's links were read as `links`: none when there is
/// no link or the first one points outside the DHT; otherwise one `get` at the
/// first link's target, whose record gives the result (`entry_of_record`).
pub open spec fn entry_after_links(links: Seq<LinkRecord>, t: Seq<HostEvent>, res: Result<Option<AppEntryBytes>, ZomeError>) -> bool {
    if links.len() == 0 {
        t.len() == 0 && res == Ok::<Option<AppEntryBytes>, ZomeError>(None)
    } else if target_dht(links[0].target) is None {
        t.len() == 0 && res == Err::<Option<AppEntryBytes>, ZomeError>(ZomeError::Guest(GuestError::MalformedLink))
    } else {
        t.len() == 1 && (t[0] matches HostEvent::GetEntry(address, answer) && names_address(links[0].target, address)
            && match answer {
            Err(x) => res == Err::<Option<AppEntryBytes>, ZomeError>(ZomeError::Host(x)),
            Ok(record) => res == entry_of_record(record),
        })
    }
}

/// The events of reading the registry anchored at `path`: when its anchor's
/// hash is had, the reading of its links of type `key` from that hash
/// (`links_run`), then, when they were read, `entry_after_links`. (When the
/// hash fails, nothing is asked of the host and the host's error is returned.)
pub open spec fn current_entry_run(path: Seq<char>, key: TypeKey, t: Seq<HostEvent>, res: Result<Option<AppEntryBytes>, ZomeError>) -> bool {
    ||| t.len() == 0 && res matches Err(ZomeError::Host(_))
    ||| exists|k: int, r: Result<Vec<LinkRecord>, ZomeError>| 0 <= k <= t.len()
        && #[trigger] links_run(EndKind::Entry, host::path_entry_hash_of(path), key, t.take(k), r) && match r {
        Err(e) => k == t.len() && res == Err::<Option<AppEntryBytes>, ZomeError>(e),
        Ok(links) => entry_after_links(links@, t.skip(k), res),
    }
}

/// The current value of the registry anchored at `path`: the app entry that its
/// first link points to, if any (`current_entry_run`).
pub fn get_current_entry(path: &str, link_type: TypeKey, log: &mut HostLog) -> (res: Result<Option<AppEntryBytes>, ZomeError>)
    requires
        !path@.contains('#'),
    ensures
        extends(old(log)@, final(log)@),
        current_entry_run(path@, link_type, added(old(log)@, final(log)@), res),
{
    let ghost l0 = log@;
    proof {
        lemma_nothing_added(l0);
    }
    let base = anchor_hash(path)?;
    let read = get_links_of(Linkable::Entry(base), link_type, log);
    let ghost l1 = log@;
    let ghost t1 = added(l0, l1);
    proof {
        lemma_whole(t1);
    }
    let links = match read {
        Ok(links) => links,
        Err(e) => {
            proof {
                assert(links_run(EndKind::Entry, host::path_entry_hash_of(path@), link_type, t1.take(t1.len() as int), read));
            }
            return Err(e);
        },
    };
    match current_target(&links) {
        Err(e) => {
            proof {
                assert(links_run(EndKind::Entry, host::path_entry_hash_of(path@), link_type, t1.take(t1.len() as int), read));
            }
            Err(e)
        },
        Ok(None) => {
            proof {
                assert(links_run(EndKind::Entry, host::path_entry_hash_of(path@), link_type, t1.take(t1.len() as int), read));
            }
            Ok(None)
        },
        Ok(Some(target)) => {
            let record = host::get_record_entry(&target, log);
            proof {
                lemma_one_added(l1, HostEvent::GetEntry(target, record));
                lemma_added_joins(l0, l1, log@);
                assert(links_run(EndKind::Entry, host::path_entry_hash_of(path@), link_type,
                    added(l0, log@).take(t1.len() as int), read));
            }
            match record {
                Err(x) => Err(ZomeError::Host(x)),
                Ok(record) => current_entry_bytes(record),
            }
        },
    }
}

/// A value read from a registry is the entry of the record at its first
/// link: when reading gives an entry, the events hold the `get_links` from the
/// anchor's hash with the scoped link type, the links read, and a `get` at the
/// address the first of them names, whose record held exactly that entry.
pub proof fn law_read_value_is_the_first_links_entry(path: Seq<char>, key: TypeKey, t: Seq<HostEvent>, res: Result<Option<AppEntryBytes>, ZomeError>)
    requires
        current_entry_run(path, key, t, res),
        res matches Ok(Some(_)),
    ensures
        t.len() == 4,
        t[0] matches HostEvent::ZomeInfo(a) && (t[1] matches HostEvent::GetLinks(q, _) && scoped_answer(true, key, a) == Ok::<ScopedType, ZomeError>(q.link_type)
            && q.base is Entry && linkable_bytes(q.base) == host::path_entry_hash_of(path)),
        t[2] matches HostEvent::ReadLinks(_, recs) && recs@.len() > 0 && (t[3] matches HostEvent::GetEntry(address, Ok(Some(RecordEntryView::App(e))))
            && names_address(recs@[0].target, address) && e == res->Ok_0->Some_0),
{
    let (k, r) = choose|k: int, r: Result<Vec<LinkRecord>, ZomeError>| 0 <= k <= t.len()
        && #[trigger] links_run(EndKind::Entry, host::path_entry_hash_of(path), key, t.take(k), r) && match r {
        Err(e) => k == t.len() && res == Err::<Option<AppEntryBytes>, ZomeError>(e),
        Ok(links) => entry_after_links(links@, t.skip(k), res),
    };
    assert(k == 3);
    assert(t.take(3)[0] == t[0] && t.take(3)[1] == t[1] && t.take(3)[2] == t[2]);
    assert(t.skip(3)[0] == t[3]);
}

/// The events of writing a new current value after the old links were
/// deleted: the entry type lookup, one `create` of `entry` as an app entry of
/// that type, the link type lookup, and one `create_link` from the base (of
/// kind `kind`, with bytes `anchor`) to the creating action with an empty tag at `ordering`; each
/// failure ends it with its error.
pub open spec fn value_write_run(
    kind: EndKind,
    anchor: Seq<u8>,
    link_key: TypeKey,
    entry_key: TypeKey,
    entry: AppEntryBytes,
    ordering: ChainOrdering,
    t: Seq<HostEvent>,
    res: Result<(), ZomeError>,
) -> bool {
    t.len() >= 1 && (t[0] matches HostEvent::ZomeInfo(a) && match scoped_answer(false, entry_key, a) {
        Err(e) => t.len() == 1 && res == Err::<(), ZomeError>(e),
        Ok(entry_type) => t.len() >= 2 && (t[1] matches HostEvent::CreateEntry(ty, bytes, created) && ty == entry_type
            && bytes == entry && match created {
            Err(x) => t.len() == 2 && res == Err::<(), ZomeError>(ZomeError::Host(x)),
            Ok(action) => t.len() >= 3 && (t[2] matches HostEvent::ZomeInfo(a2) && match scoped_answer(true, link_key, a2) {
                Err(e) => t.len() == 3 && res == Err::<(), ZomeError>(e),
                Ok(link_type) => t.len() == 4 && (t[3] matches HostEvent::CreateLink(w, linked) && end_kind(w.base) == kind
                    && linkable_bytes(w.base) == anchor && w.target is Action && linkable_bytes(w.target) == action@
                    && w.link_type == link_type && w.tag@.len() == 0 && w.ordering == ordering && match linked {
                    Ok(_) => res is Ok,
                    Err(x) => res == Err::<(), ZomeError>(ZomeError::Host(x)),
                }),
            }),
        }),
    })
}

/// The events of replacing a registry's value once its links were read as
/// `links`: the deletion of each of them in order (`deletes_run`), then, when
/// all were deleted, `value_write_run`.
pub open spec fn replace_run(
    links: Seq<LinkRecord>,
    kind: EndKind,
    anchor: Seq<u8>,
    link_key: TypeKey,
    entry_key: TypeKey,
    entry: AppEntryBytes,
    ordering: ChainOrdering,
    t: Seq<HostEvent>,
    res: Result<(), ZomeError>,
) -> bool {
    ||| res matches Err(e) && deletes_run(links, ordering, t, Err(e))
    ||| t.len() >= links.len() && deletes_run(links, ordering, t.take(links.len() as int), Ok(links.len() as usize))
        && value_write_run(kind, anchor, link_key, entry_key, entry, ordering, t.skip(links.len() as int), res)
}

/// The events of publishing a new value of the registry anchored at `path`:
/// when its anchor's hash is had, the reading of its links (`links_run`), then,
/// when they were read, `replace_run`.
pub open spec fn publish_run(
    path: Seq<char>,
    link_key: TypeKey,
    entry_key: TypeKey,
    entry: AppEntryBytes,
    ordering: ChainOrdering,
    t: Seq<HostEvent>,
    res: Result<(), ZomeError>,
) -> bool {
    ||| t.len() == 0 && res matches Err(ZomeError::Host(_))
    ||| exists|k: int, r: Result<Vec<LinkRecord>, ZomeError>| 0 <= k <= t.len()
        && #[trigger] links_run(EndKind::Entry, host::path_entry_hash_of(path), link_key, t.take(k), r) && match r {
        Err(e) => k == t.len() && res == Err::<(), ZomeError>(e),
        Ok(links) => replace_run(links@, EndKind::Entry, host::path_entry_hash_of(path), link_key, entry_key, entry, ordering, t.skip(k), res),
    }
}

/// Publishing, when it succeeds, replaces the registry's value: the events
/// hold the links read from the anchor, a made deletion of each of them in
/// order, the creation of exactly `entry`, and last a made link from the
/// anchor to the action that created it.
pub proof fn law_publish_replaces_the_value(
    path: Seq<char>,
    link_key: TypeKey,
    entry_key: TypeKey,
    entry: AppEntryBytes,
    ordering: ChainOrdering,
    t: Seq<HostEvent>,
    res: Result<(), ZomeError>,
)
    requires
        publish_run(path, link_key, entry_key, entry, ordering, t, res),
        res is Ok,
    ensures
        t.len() >= 7,
        t[2] matches HostEvent::ReadLinks(_, recs) && t.len() == recs@.len() + 7
            && forall|i: int| 0 <= i < recs@.len() ==> (#[trigger] t.skip(3)[i] matches HostEvent::DeleteLink(d, Ok(_))
                && d.address@ == recs@[i].create_link_hash@ && d.ordering == ordering),
        t[t.len() - 3] matches HostEvent::CreateEntry(_, e, Ok(created)) && e == entry
            && (t[t.len() - 1] matches HostEvent::CreateLink(w, Ok(_)) && w.base is Entry
            && linkable_bytes(w.base) == host::path_entry_hash_of(path) && w.target is Action && linkable_bytes(w.target) == created@),
{
    let hash = host::path_entry_hash_of(path);
    let (k, r) = choose|k: int, r: Result<Vec<LinkRecord>, ZomeError>| 0 <= k <= t.len()
        && #[trigger] links_run(EndKind::Entry, hash, link_key, t.take(k), r) && match r {
        Err(e) => k == t.len() && res == Err::<(), ZomeError>(e),
        Ok(links) => replace_run(links@, EndKind::Entry, hash, link_key, entry_key, entry, ordering, t.skip(k), res),
    };
    if let Ok(links) = r {
        assert(k == 3);
        assert(t.take(3)[2] == t[2]);
        let rest = t.skip(3);
        let n = links@.len() as int;
        assert(deletes_run(links@, ordering, rest.take(n), Ok(n as usize)));
        assert forall|i: int| 0 <= i < n implies (#[trigger] t.skip(3)[i] matches HostEvent::DeleteLink(d, Ok(_))
            && d.address@ == links@[i].create_link_hash@ && d.ordering == ordering) by {
            assert(rest.take(n)[i] == rest[i]);
        }
        let w = rest.skip(n);
        assert(w.len() == 4);
        assert(t[t.len() - 3] == w[1]);
        assert(t[t.len() - 1] == w[3]);
    }
}

/// Writes `entry` as the new value linked from `base`, after the old links
/// were deleted (`value_write_run`).
pub fn write_value(
    base: Linkable,
    link_type: TypeKey,
    entry_type: TypeKey,
    entry: AppEntryBytes,
    ordering: ChainOrdering,
    log: &mut HostLog,
) -> (res: Result<(), ZomeError>)
    ensures
        extends(old(log)@, final(log)@),
        value_write_run(end_kind(base), linkable_bytes(base), link_type, entry_type, entry, ordering, added(old(log)@, final(log)@), res),
{
    let ghost l0 = log@;
    let ghost the_entry = entry;
    let scoped_entry = scoped_entry_type(entry_type, log);
    let ghost l1 = log@;
    let scoped_entry = match scoped_entry {
        Ok(t) => t,
        Err(e) => {
            return Err(e);
        },
    };
    let created = host::create_app_entry(scoped_entry, entry, log);
    let ghost l2 = log@;
    proof {
        lemma_one_added(l1, HostEvent::CreateEntry(scoped_entry, the_entry, created));
        lemma_added_joins(l0, l1, l2);
    }
    let action = match created {
        Ok(h) => h,
        Err(x) => {
            return Err(ZomeError::Host(x));
        },
    };
    let scoped_link = scoped_link_type(link_type, log);
    let ghost l3 = log@;
    proof {
        lemma_added_joins(l0, l2, l3);
    }
    let scoped_link = match scoped_link {
        Ok(t) => t,
        Err(e) => {
            return Err(e);
        },
    };
    let write = link_write(base, Linkable::Action(action), scoped_link, Vec::new(), ordering);
    let linked = host::create_link(&write, log);
    proof {
        lemma_one_added(l3, HostEvent::CreateLink(write, linked));
        lemma_added_joins(l0, l3, log@);
    }
    match linked {
        Ok(_) => Ok(()),
        Err(x) => Err(ZomeError::Host(x)),
    }
}

/// Makes `entry` the current value of the registry anchored at `path`: deletes
/// every link the registry holds, creates the entry and links the anchor to
/// the action that created it (`publish_run`). The path holds no `#`, so it
/// names a plain anchor.
pub fn publish_new_entry(
    path: &str,
    link_type: TypeKey,
    entry_type: TypeKey,
    entry: AppEntryBytes,
    link_ordering: ChainOrdering,
    log: &mut HostLog,
) -> (res: Result<(), ZomeError>)
    requires
        !path@.contains('#'),
    ensures
        extends(old(log)@, final(log)@),
        publish_run(path@, link_type, entry_type, entry, link_ordering, added(old(log)@, final(log)@), res),
{
    let ghost l0 = log@;
    proof {
        lemma_nothing_added(l0);
    }
    let base = anchor_hash(path)?;
    let read = get_links_of(Linkable::Entry(base.duplicate()), link_type, log);
    let ghost l1 = log@;
    let ghost t1 = added(l0, l1);
    let ghost hash = host::path_entry_hash_of(path@);
    proof {
        lemma_whole(t1);
        assert(links_run(EndKind::Entry, hash, link_type, t1.take(t1.len() as int), read));
    }
    let links = match read {
        Ok(links) => links,
        Err(e) => {
            return Err(e);
        },
    };
    let deleted = delete_links(&links, link_ordering, log);
    let ghost l2 = log@;
    proof {
        lemma_added_joins(l0, l1, l2);
        lemma_whole(added(l1, l2));
        assert(links_run(EndKind::Entry, hash, link_type, added(l0, l2).take(t1.len() as int), read));
    }
    match deleted {
        Err(e) => {
            return Err(e);
        },
        Ok(_) => {},
    }
    let written = write_value(Linkable::Entry(base), link_type, entry_type, entry, link_ordering, log);
    proof {
        lemma_added_joins(l0, l2, log@);
        lemma_added_joins(l1, l2, log@);
        lemma_added_joins(l0, l1, log@);
        let t = added(l0, log@);
        assert(links_run(EndKind::Entry, hash, link_type, t.take(t1.len() as int), read));
        assert(t.skip(t1.len() as int) == added(l1, log@));
    }
    written
}

/// What a read gives back of a publish: when a publish wrote its value (its
/// write events end with the link from the anchor to the creating action),
/// and a later read of the registry finds that link first and the DHT gives,
/// for the action it points to, the entry that was created, the read fetches
/// the record at that very action and returns the published entry.
pub proof fn law_published_value_is_read_back(
    anchor: Seq<u8>,
    link_key: TypeKey,
    entry_key: TypeKey,
    entry: AppEntryBytes,
    ordering: ChainOrdering,
    written: Seq<HostEvent>,
    links: Seq<LinkRecord>,
    read: Seq<HostEvent>,
    res: Result<Option<AppEntryBytes>, ZomeError>,
)
    requires
        value_write_run(EndKind::Entry, anchor, link_key, entry_key, entry, ordering, written, Ok(())),
        links.len() > 0,
        written[3] matches HostEvent::CreateLink(w, _) && (links[0].target matches LinkTarget::Action(h)
            && h@ == linkable_bytes(w.target)),
        entry_after_links(links, read, res),
        read.len() == 1 && (read[0] matches HostEvent::GetEntry(_, Ok(Some(RecordEntryView::App(b)))) && b == entry),
    ensures
        res == Ok::<Option<AppEntryBytes>, ZomeError>(Some(entry)),
        read[0] matches HostEvent::GetEntry(DhtHash::Action(a), _) && (written[1] matches HostEvent::CreateEntry(_, _, Ok(created))
            && a@ == created@),
{
}

/// The keys of the given agents.
pub open spec fn keys_of(agents: Seq<AgentKey>) -> Seq<Seq<u8>> {
    agents.map_values(|k: AgentKey| k@)
}

/// The agents that links point to, in link order: each link whose target is an
/// entry gives the agent key with that entry hash's bytes; other links are skipped.
pub fn agent_targets(links: &Vec<LinkRecord>) -> (res: Vec<AgentKey>)
    ensures
        keys_of(res@) == agent_keys_of(links@),
{
    let mut keys: Vec<AgentKey> = Vec::new();
    let mut i: usize = 0;
    while i < links.len()
        invariant
            i <= links.len(),
            keys_of(keys@) == agent_keys_of(links@.take(i as int)),
        decreases links.len() - i,
    {
        proof {
            assert(links@.take(i + 1).drop_last() == links@.take(i as int));
        }
        match links[i].target.agent_key() {
            Some(k) => {
                keys.push(k);
            },
            None => {},
        }
        i = i + 1;
        proof {
            assert(keys_of(keys@) =~= agent_keys_of(links@.take(i as int)));
        }
    }
    proof {
        assert(links@.take(links@.len() as int) == links@);
    }
    keys
}

/// The agent keys that a sequence of links points to, in order.
pub open spec fn agent_keys_of(links: Seq<LinkRecord>) -> Seq<Seq<u8>>
    decreases links.len(),
{
    if links.len() == 0 {
        Seq::empty()
    } else {
        let rest = agent_keys_of(links.drop_last());
        match target_agent(links.last().target) {
            Some(k) => rest.push(k),
            None => rest,
        }
    }
}


/// Every agent linked from an anchor is found again: when every link points to
/// an entry (which is how a link to an agent key is stored), the agents read
/// from the links are exactly their targets' keys, one per link, in link order.
pub proof fn law_linked_agents_are_found(links: Seq<LinkRecord>)
    requires
        forall|i: int| 0 <= i < links.len() ==> #[trigger] links[i].target is Entry,
    ensures
        agent_keys_of(links).len() == links.len(),
        forall|i: int| 0 <= i < links.len() ==> target_agent(links[i].target) == Some(#[trigger] agent_keys_of(links)[i]),
    decreases links.len(),
{
    if links.len() > 0 {
        let rest = links.drop_last();
        assert forall|i: int| 0 <= i < rest.len() implies #[trigger] rest[i].target is Entry by {
            assert(rest[i] == links[i]);
        }
        law_linked_agents_are_found(rest);
        assert(links.last().target is Entry);
        assert forall|i: int| 0 <= i < links.len() implies target_agent(links[i].target) == Some(#[trigger] agent_keys_of(links)[i]) by {
            if i < links.len() - 1 {
                assert(rest[i] == links[i]);
            }
        }
    }
}

/// Links that do not point to an entry name no agent: reading agents from
/// them and from the same links without them gives the same keys.
pub proof fn law_other_targets_are_skipped(links: Seq<LinkRecord>, other: LinkRecord)
    requires
        !(other.target is Entry),
    ensures
        agent_keys_of(links.push(other)) == agent_keys_of(links),
{
    assert(links.push(other).drop_last() == links);
}

} // verus!
