//! The requests the zome logic hands to the host, as plain values: zome calls,
//! capability grants, link writes and link deletions. Each is built by a
//! function whose contract fixes every field; the host items only send them.
use vstd::prelude::*;
use vstd::utf8::encode_utf8;

use crate::errors::CallPurpose;
use crate::hashes::{ActionHashValue, AgentKey, EntryHashValue, Linkable};
use crate::types::{CallTarget, ChainOrdering, LinkRecord, ScopedType};

verus! {

/// The bytes of a hash at one end of a link, whatever its kind.
pub open spec fn linkable_bytes(l: Linkable) -> Seq<u8> {
    match l {
        Linkable::Agent(k) => k@,
        Linkable::Action(h) => h@,
        Linkable::Entry(h) => h@,
    }
}

/// The MessagePack encoding of a string: a header that gives the length of its
/// UTF-8 form in the shortest of the four string formats (big-endian), then
/// that UTF-8 form.
pub open spec fn msgpack_str(s: Seq<char>) -> Seq<u8> {
    let b = encode_utf8(s);
    let n = b.len();
    if n < 32 {
        seq![(0xa0 + n) as u8] + b
    } else if n < 0x100 {
        seq![0xd9u8, n as u8] + b
    } else if n < 0x10000 {
        seq![0xdau8, (n / 0x100) as u8, (n % 0x100) as u8] + b
    } else {
        seq![0xdbu8, (n / 0x1000000) as u8, ((n / 0x10000) % 0x100) as u8, ((n / 0x100) % 0x100) as u8, (n % 0x100) as u8] + b
    }
}

/// The kind of hash at one end of a link.
pub enum EndKind {
    Agent,
    Action,
    Entry,
}

/// The kind of the hash at one end of a link.
pub open spec fn end_kind(l: Linkable) -> EndKind {
    match l {
        Linkable::Agent(_) => EndKind::Agent,
        Linkable::Action(_) => EndKind::Action,
        Linkable::Entry(_) => EndKind::Entry,
    }
}

/// A zome call: where it goes, which function of which zome it runs, with
/// which encoded payload, and under which purpose a failure is reported.
#[derive(Debug)]
pub struct CallRequest {
    pub target: CallTarget,
    pub zome: String,
    pub function: String,
    pub payload: Vec<u8>,
    pub purpose: CallPurpose,
}

/// A capability grant that opens the listed functions of one zome to every agent.
#[derive(Debug)]
pub struct GrantRequest {
    pub tag: String,
    pub zome: String,
    pub functions: Vec<&'static str>,
}

/// A query for the links of one type from a base.
#[derive(Debug)]
pub struct LinkQuery {
    pub base: Linkable,
    pub link_type: ScopedType,
}

/// A link to create.
#[derive(Debug)]
pub struct LinkWrite {
    pub base: Linkable,
    pub target: Linkable,
    pub link_type: ScopedType,
    pub tag: Vec<u8>,
    pub ordering: ChainOrdering,
}

/// A link to delete, named by the action that created it.
#[derive(Debug)]
pub struct LinkDeletion {
    pub address: ActionHashValue,
    pub ordering: ChainOrdering,
}

/// The call of `function` of `zome` at `target` with `payload`.
pub fn call_request(target: CallTarget, zome: &str, function: &str, payload: Vec<u8>, purpose: CallPurpose) -> (res: CallRequest)
    ensures
        res.target == target,
        res.zome@ == zome@,
        res.function@ == function@,
        res.payload == payload,
        res.purpose == purpose,
{
    CallRequest { target, zome: zome.to_owned(), function: function.to_owned(), payload, purpose }
}

/// The grant, under `tag`, of the listed functions of `zome`.
pub fn grant_request(tag: &str, zome: &str, functions: Vec<&'static str>) -> (res: GrantRequest)
    ensures
        res.tag@ == tag@,
        res.zome@ == zome@,
        res.functions == functions,
{
    GrantRequest { tag: tag.to_owned(), zome: zome.to_owned(), functions }
}

/// The query for the links of the scoped type from `base`.
pub fn link_query(base: Linkable, link_type: ScopedType) -> (res: LinkQuery)
    ensures
        res.base == base,
        res.link_type == link_type,
{
    LinkQuery { base, link_type }
}

/// The deletion of each of the given links, in order, at one chain-top ordering.
pub fn deletions_of(links: &Vec<LinkRecord>, ordering: ChainOrdering) -> (res: Vec<LinkDeletion>)
    ensures
        res@.len() == links@.len(),
        forall|i: int| 0 <= i < links@.len() ==> (#[trigger] res@[i]).address@ == links@[i].create_link_hash@
            && res@[i].ordering == ordering,
{
    let mut deletions: Vec<LinkDeletion> = Vec::new();
    let mut i: usize = 0;
    while i < links.len()
        invariant
            i <= links@.len(),
            deletions@.len() == i,
            forall|j: int| 0 <= j < i ==> (#[trigger] deletions@[j]).address@ == links@[j].create_link_hash@
                && deletions@[j].ordering == ordering,
        decreases links@.len() - i,
    {
        deletions.push(LinkDeletion { address: links[i].create_link_hash.duplicate(), ordering });
        i = i + 1;
    }
    deletions
}

/// The link from an anchor to an agent, with an empty tag.
pub fn agent_link(anchor: EntryHashValue, agent: AgentKey, link_type: ScopedType, ordering: ChainOrdering) -> (res: LinkWrite)
    ensures
        res.base is Entry && linkable_bytes(res.base) == anchor@,
        res.target is Agent && linkable_bytes(res.target) == agent@,
        res.link_type == link_type,
        res.tag@.len() == 0,
        res.ordering == ordering,
{
    LinkWrite { base: Linkable::Entry(anchor), target: Linkable::Agent(agent), link_type, tag: Vec::new(), ordering }
}

/// The link from an agent to itself that holds a text in its tag, with a
/// relaxed chain-top ordering.
pub fn text_link(agent: &AgentKey, tag: Vec<u8>, link_type: ScopedType) -> (res: LinkWrite)
    ensures
        res.base is Agent && linkable_bytes(res.base) == agent@,
        res.target is Agent && linkable_bytes(res.target) == agent@,
        res.link_type == link_type,
        res.tag == tag,
        res.ordering == ChainOrdering::Relaxed,
{
    LinkWrite {
        base: Linkable::Agent(agent.duplicate()),
        target: Linkable::Agent(agent.duplicate()),
        link_type,
        tag,
        ordering: ChainOrdering::Relaxed,
    }
}

} // verus!
