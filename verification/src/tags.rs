//! Registries that keep a piece of text per agent in the tag of a link from the
//! agent to itself (an email address, an FCM token).
use vstd::prelude::*;
use vstd::utf8::{decode_utf8, encode_utf8, valid_utf8};

use crate::errors::{GuestError, ZomeError};
use crate::hashes::{AgentKey, Linkable};
use crate::host;
use crate::effects::{added, extends, lemma_added_joins, lemma_nothing_added, lemma_one_added, lemma_whole};
use crate::host::{HostEvent, HostLog};
use crate::registry::{delete_links, deletes_run, get_links_of, links_run, scoped_answer, scoped_link_type};
use crate::requests::{linkable_bytes, text_link, EndKind};
use crate::types::{ChainOrdering, LinkRecord, TypeKey};

verus! {

/// The text a tag holds: its UTF-8 decoding, when it is valid UTF-8.
pub open spec fn tag_text(tag: Seq<u8>) -> Option<Seq<char>> {
    if valid_utf8(tag) {
        Some(decode_utf8(tag))
    } else {
        None
    }
}

/// The tag that holds a text: its UTF-8 bytes.
pub fn tag_of_text(text: &String) -> (res: Vec<u8>)
    ensures
        res@ == encode_utf8(text@),
{
    vstd::slice::slice_to_vec(text.as_str().as_bytes())
}

/// The text a tag holds; an error carrying the decoder's account when the tag
/// is not valid UTF-8.
pub fn text_of_tag(tag: Vec<u8>) -> (res: Result<String, ZomeError>)
    ensures
        tag_text(tag@) matches Some(t) ==> (res matches Ok(s) && s@ == t),
        tag_text(tag@) is None ==> res matches Err(ZomeError::Guest(GuestError::MalformedTag(_))),
{
    match host::utf8_string(tag) {
        Ok(s) => Ok(s),
        Err(account) => Err(ZomeError::Guest(GuestError::MalformedTag(account))),
    }
}

/// The text an agent registers is the text read back: the tag that
/// registration writes for a text (`tag_of_text`, its UTF-8 bytes) is valid
/// UTF-8 and decodes (`text_of_tag`, `first_tag_text`) to that same text.
pub proof fn law_registered_text_reads_back(text: Seq<char>)
    ensures
        tag_text(encode_utf8(text)) == Some(text),
{
    vstd::utf8::encode_utf8_valid_utf8(text);
    vstd::utf8::encode_utf8_decode_utf8(text);
}

/// What the first of the given links says of the registered text: nothing
/// when there is no link; the text of its tag when that tag is valid UTF-8; a
/// malformed-tag error otherwise.
pub open spec fn first_text(links: Seq<LinkRecord>, res: Result<Option<String>, ZomeError>) -> bool {
    &&& links.len() == 0 ==> res == Ok::<Option<String>, ZomeError>(None)
    &&& links.len() > 0 && tag_text(links[0].tag@) is Some ==> (res matches Ok(Some(s)) && tag_text(links[0].tag@) == Some(s@))
    &&& links.len() > 0 && tag_text(links[0].tag@) is None ==> res matches Err(ZomeError::Guest(GuestError::MalformedTag(_)))
}

/// The text held by the first of the given links (`first_text`).
pub fn first_tag_text(links: &Vec<LinkRecord>) -> (res: Result<Option<String>, ZomeError>)
    ensures
        first_text(links@, res),
{
    if links.len() == 0 {
        return Ok(None);
    }
    let tag = links[0].tag.clone();
    assert(tag@ == links@[0].tag@);
    let text = text_of_tag(tag)?;
    Ok(Some(text))
}

/// The events of writing an agent's text once its old links are deleted: the
/// link type lookup, then one `create_link` from the agent to itself with the
/// text's UTF-8 bytes as the tag, at a relaxed chain-top ordering.
pub open spec fn text_write_run(agent: Seq<u8>, text: Seq<char>, key: TypeKey, t: Seq<HostEvent>, res: Result<(), ZomeError>) -> bool {
    t.len() >= 1 && (t[0] matches HostEvent::ZomeInfo(a) && match scoped_answer(true, key, a) {
        Err(e) => t.len() == 1 && res == Err::<(), ZomeError>(e),
        Ok(ty) => t.len() == 2 && (t[1] matches HostEvent::CreateLink(w, linked) && w.base is Agent
            && linkable_bytes(w.base) == agent && w.target is Agent && linkable_bytes(w.target) == agent
            && w.link_type == ty && w.tag@ == encode_utf8(text) && w.ordering == ChainOrdering::Relaxed && match linked {
            Ok(_) => res is Ok,
            Err(x) => res == Err::<(), ZomeError>(ZomeError::Host(x)),
        }),
    })
}

/// A registered text is read back: when registering wrote the link that holds
/// `text`, and a later read finds a link with that tag first, the text read is
/// `text`.
pub proof fn law_registered_text_is_found(
    agent: Seq<u8>,
    text: Seq<char>,
    key: TypeKey,
    written: Seq<HostEvent>,
    links: Seq<LinkRecord>,
    res: Result<Option<String>, ZomeError>,
)
    requires
        text_write_run(agent, text, key, written, Ok(())),
        links.len() > 0,
        written[1] matches HostEvent::CreateLink(w, _) && links[0].tag@ == w.tag@,
        first_text(links, res),
    ensures
        res matches Ok(Some(s)) && s@ == text,
{
    law_registered_text_reads_back(text);
}

/// The events of registering `text` for `agent`: the reading of the agent's
/// links of the type (`links_run`), the deletion of each (`deletes_run`,
/// relaxed), then `text_write_run`; each failure ends it with its error.
pub open spec fn register_text_run(agent: Seq<u8>, text: Seq<char>, key: TypeKey, t: Seq<HostEvent>, res: Result<(), ZomeError>) -> bool {
    exists|k: int, r: Result<Vec<LinkRecord>, ZomeError>| 0 <= k <= t.len()
        && #[trigger] links_run(EndKind::Agent, agent, key, t.take(k), r) && match r {
        Err(e) => k == t.len() && res == Err::<(), ZomeError>(e),
        Ok(links) => {
            let rest = t.skip(k);
            ||| res matches Err(e) && deletes_run(links@, ChainOrdering::Relaxed, rest, Err(e))
            ||| rest.len() >= links@.len() && deletes_run(links@, ChainOrdering::Relaxed, rest.take(links@.len() as int), Ok(links@.len() as usize))
                && text_write_run(agent, text, key, rest.skip(links@.len() as int), res)
        },
    }
}

/// Keeps `text` as the agent's registered text: deletes every link of the type
/// from the agent, then links the agent to itself with the text's UTF-8 bytes
/// as the tag (`register_text_run`).
pub fn register_text_for_agent(agent: &AgentKey, text: &String, link_type: TypeKey, log: &mut HostLog) -> (res: Result<(), ZomeError>)
    ensures
        extends(old(log)@, final(log)@),
        register_text_run(agent@, text@, link_type, added(old(log)@, final(log)@), res),
{
    let ghost l0 = log@;
    let read = get_links_of(Linkable::Agent(agent.duplicate()), link_type, log);
    let ghost l1 = log@;
    let ghost t1 = added(l0, l1);
    proof {
        lemma_whole(t1);
        assert(links_run(EndKind::Agent, agent@, link_type, t1.take(t1.len() as int), read));
    }
    let links = match read {
        Ok(links) => links,
        Err(e) => {
            return Err(e);
        },
    };
    let deleted = delete_links(&links, ChainOrdering::Relaxed, log);
    let ghost l2 = log@;
    proof {
        lemma_added_joins(l0, l1, l2);
        lemma_whole(added(l1, l2));
        assert(links_run(EndKind::Agent, agent@, link_type, added(l0, l2).take(t1.len() as int), read));
    }
    if let Err(e) = deleted {
        return Err(e);
    }
    let scoped = scoped_link_type(link_type, log);
    let ghost l3 = log@;
    proof {
        lemma_nothing_added(l3);
    }
    let written = match scoped {
        Err(e) => Err(e),
        Ok(ty) => {
            let write = text_link(agent, tag_of_text(text), ty);
            let linked = host::create_link(&write, log);
            proof {
                lemma_one_added(l3, HostEvent::CreateLink(write, linked));
                lemma_added_joins(l2, l3, log@);
            }
            match linked {
                Ok(_) => Ok(()),
                Err(x) => Err(ZomeError::Host(x)),
            }
        },
    };
    proof {
        lemma_nothing_added(log@);
        lemma_added_joins(l0, l2, log@);
        lemma_added_joins(l1, l2, log@);
        lemma_added_joins(l0, l1, log@);
        let t = added(l0, log@);
        assert(links_run(EndKind::Agent, agent@, link_type, t.take(t1.len() as int), read));
        assert(t.skip(t1.len() as int) == added(l1, log@));
        assert(added(l1, log@).take(links@.len() as int) == added(l1, l2));
        assert(added(l1, log@).skip(links@.len() as int) == added(l2, log@));
    }
    written
}

/// The events of reading an agent's registered text: the reading of its links
/// of the type (`links_run`), which then give the text (`first_text`).
pub open spec fn text_run(agent: Seq<u8>, key: TypeKey, t: Seq<HostEvent>, res: Result<Option<String>, ZomeError>) -> bool {
    exists|r: Result<Vec<LinkRecord>, ZomeError>| #[trigger] links_run(EndKind::Agent, agent, key, t, r) && match r {
        Err(e) => res == Err::<Option<String>, ZomeError>(e),
        Ok(links) => first_text(links@, res),
    }
}

/// A text read for an agent is the text of the first link from that agent:
/// when reading gives a text, the events hold the `get_links` from the agent
/// and the links read, and the first link's tag decodes to that text.
pub proof fn law_read_text_is_the_first_links_tag(agent: Seq<u8>, key: TypeKey, t: Seq<HostEvent>, res: Result<Option<String>, ZomeError>)
    requires
        text_run(agent, key, t, res),
        res matches Ok(Some(_)),
    ensures
        t.len() == 3,
        t[1] matches HostEvent::GetLinks(q, _) && q.base is Agent && linkable_bytes(q.base) == agent,
        t[2] matches HostEvent::ReadLinks(_, recs) && recs@.len() > 0 && tag_text(recs@[0].tag@) == Some(res->Ok_0->Some_0@),
{
}

/// Registering a text, when it succeeds, replaces the agent's text: the events
/// hold the links read from the agent, a made deletion of each of them in
/// order, and last a made link from the agent to itself whose tag is the
/// text's UTF-8 bytes.
pub proof fn law_registering_replaces_the_text(agent: Seq<u8>, text: Seq<char>, key: TypeKey, t: Seq<HostEvent>, res: Result<(), ZomeError>)
    requires
        register_text_run(agent, text, key, t, res),
        res is Ok,
    ensures
        t.len() >= 5,
        t[2] matches HostEvent::ReadLinks(_, recs) && t.len() == recs@.len() + 5
            && forall|i: int| 0 <= i < recs@.len() ==> (#[trigger] t.skip(3)[i] matches HostEvent::DeleteLink(d, Ok(_))
                && d.address@ == recs@[i].create_link_hash@),
        t[t.len() - 1] matches HostEvent::CreateLink(w, Ok(_)) && w.base is Agent && linkable_bytes(w.base) == agent
            && w.target is Agent && linkable_bytes(w.target) == agent && w.tag@ == encode_utf8(text),
{
    let (k, r) = choose|k: int, r: Result<Vec<LinkRecord>, ZomeError>| 0 <= k <= t.len()
        && #[trigger] links_run(EndKind::Agent, agent, key, t.take(k), r) && match r {
        Err(e) => k == t.len() && res == Err::<(), ZomeError>(e),
        Ok(links) => {
            let rest = t.skip(k);
            ||| res matches Err(e) && deletes_run(links@, ChainOrdering::Relaxed, rest, Err(e))
            ||| rest.len() >= links@.len() && deletes_run(links@, ChainOrdering::Relaxed, rest.take(links@.len() as int), Ok(links@.len() as usize))
                && text_write_run(agent, text, key, rest.skip(links@.len() as int), res)
        },
    };
    if let Ok(links) = r {
        assert(k == 3);
        assert(t.take(3)[2] == t[2]);
        let rest = t.skip(3);
        let n = links@.len() as int;
        assert forall|i: int| 0 <= i < n implies (#[trigger] t.skip(3)[i] matches HostEvent::DeleteLink(d, Ok(_))
            && d.address@ == links@[i].create_link_hash@) by {
            assert(rest.take(n)[i] == rest[i]);
        }
        let w = rest.skip(n);
        assert(t[t.len() - 1] == w[1]);
    }
}

/// The agent's registered text: the text in the tag of the first link of the
/// type from the agent, if there is one (`text_run`).
pub fn text_for_agent(agent: &AgentKey, link_type: TypeKey, log: &mut HostLog) -> (res: Result<Option<String>, ZomeError>)
    ensures
        extends(old(log)@, final(log)@),
        text_run(agent@, link_type, added(old(log)@, final(log)@), res),
{
    let read = get_links_of(Linkable::Agent(agent.duplicate()), link_type, log);
    match read {
        Err(e) => Err(e),
        Ok(links) => first_tag_text(&links),
    }
}

} // verus!
