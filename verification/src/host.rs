//! The calls into the Holochain host that the zome logic makes. Each item here
//! makes one call through `hdk` and converts its arguments and result between
//! the library's plain values and `hdk`'s types; nothing here is proved.
//!
//! The items that reach the host, or read what it answered, also add one
//! event to a `HostLog`: a ghost record, kept by this library, of the requests
//! made and the answers given, in order. Only the items of this module add to
//! it, so the contracts of the zome logic can say which requests it made and
//! how its result follows from the answers.
use vstd::prelude::*;

use hdk::prelude::{
    ActionHash, AgentPubKey, AnyDhtHash, AnyLinkableHash, AnyLinkableHashPrimitive, AppEntryBytes,
    CallTargetCell, CapAccess, ChainTopOrdering, CreateInput, CreateLinkInput, DeleteLinkInput,
    EntryDefIndex, EntryHash, EntryVisibility, ExternIO, FunctionName, GetLinksInputBuilder,
    GetOptions, GrantedFunctions, Link, LinkTag, LinkType, LinkTypeFilter, ScopedEntryDefIndex,
    SerializedBytesError, WasmError, ZomeCallCapGrant, ZomeCallResponse, ZomeIndex, ZomeName,
    HDK,
};

use crate::hashes::{
    ActionHashValue, AgentKey, DhtHash, EntryHashValue, ExternalHashValue, HashCore, LinkTarget,
    Linkable,
};
use crate::requests::{msgpack_str, CallRequest, GrantRequest, LinkDeletion, LinkQuery, LinkWrite};
use vstd::utf8::encode_utf8;
use crate::types::{
    CallOutcome, CallTarget, ChainOrdering, LinkRecord, RecordEntryView, ScopedType, ZomeInfoView,
    ZomeTypes,
};

verus! {

/// The hash of the entry of the `Path` made from a string: what
/// `hdi`'s `Path::from(path).path_entry_hash()` computes, which depends on the
/// string alone.
pub uninterp spec fn path_entry_hash_of(path: Seq<char>) -> Seq<u8>;

/// One exchange with the host: what was asked and what came back.
pub enum HostEvent {
    /// `agent_info`, and the agent's current key.
    AgentInfo(Result<AgentKey, WasmError>),
    /// `call_info`, and the provenance of the running call.
    CallInfo(Result<AgentKey, WasmError>),
    /// `zome_info`, and what the zome knows of itself.
    ZomeInfo(Result<ZomeInfoView, WasmError>),
    /// `get_links` of a query, and the links found.
    GetLinks(LinkQuery, Result<Vec<Link>, WasmError>),
    /// The reading of links, and the records read from them, one for one.
    ReadLinks(Vec<Link>, Vec<LinkRecord>),
    /// `delete_link` of a deletion, and whether it was made.
    DeleteLink(LinkDeletion, Result<(), WasmError>),
    /// `create_link` of a link, and whether it was made.
    CreateLink(LinkWrite, Result<(), WasmError>),
    /// `create` of an app entry of a scoped type, and the creating action.
    CreateEntry(ScopedType, AppEntryBytes, Result<ActionHashValue, WasmError>),
    /// `get` at a DHT address, and the entry data of the record found.
    GetEntry(DhtHash, Result<Option<RecordEntryView>, WasmError>),
    /// `get` at an action, and the record found, in its encoded form.
    GetRecord(ActionHashValue, Result<Option<Result<Vec<u8>, SerializedBytesError>>, WasmError>),
    /// `create_cap_grant` of a grant, and whether it was made.
    Grant(GrantRequest, Result<(), WasmError>),
    /// `call` of a request, and the responses.
    Call(CallRequest, Result<Vec<ZomeCallResponse>, WasmError>),
    /// The reading of a response, and what it says.
    ReadResponse(ZomeCallResponse, CallOutcome),
}

/// The exchanges with the host made so far, oldest first. Its view is the
/// sequence of events; only this module adds to it.
pub struct HostLog {
    events: Ghost<Seq<HostEvent>>,
}

impl View for HostLog {
    type V = Seq<HostEvent>;

    closed spec fn view(&self) -> Seq<HostEvent> {
        self.events@
    }
}

impl HostLog {
    /// A log with no exchange in it.
    pub fn new() -> (res: HostLog)
        ensures
            res@ == Seq::<HostEvent>::empty(),
    {
        HostLog { events: Ghost(Seq::empty()) }
    }
}

/// `hdk::prelude::agent_info`, keeping the field `agent_latest_pubkey`: the key
/// the calling agent signs with now. Claims nothing of which key that is.
/// Adds the exchange to `log`.
#[verifier::external_body]
pub(crate) fn agent_latest_pubkey(log: &mut HostLog) -> (res: Result<AgentKey, WasmError>)
    ensures
        final(log)@ == old(log)@.push(HostEvent::AgentInfo(res)),
{
    hdk::prelude::agent_info().map(
        |info| AgentKey { core: HashCore { bytes: info.agent_latest_pubkey.get_raw_36().to_vec() } },
    )
}

/// `hdk::prelude::call_info`, keeping the field `provenance`: the agent on whose
/// behalf the running zome call executes. Claims nothing of which agent that is.
/// Adds the exchange to `log`.
#[verifier::external_body]
pub(crate) fn call_provenance(log: &mut HostLog) -> (res: Result<AgentKey, WasmError>)
    ensures
        final(log)@ == old(log)@.push(HostEvent::CallInfo(res)),
{
    hdk::prelude::call_info().map(
        |info| AgentKey { core: HashCore { bytes: info.provenance.get_raw_36().to_vec() } },
    )
}

/// `hdk::prelude::zome_info`, keeping the zome's name and the link and entry
/// types in scope (`zome_types.links` and `zome_types.entries`) as plain
/// numbers. Claims nothing of their values, which the DNA decides.
/// Adds the exchange to `log`.
#[verifier::external_body]
pub(crate) fn current_zome_info(log: &mut HostLog) -> (res: Result<ZomeInfoView, WasmError>)
    ensures
        final(log)@ == old(log)@.push(HostEvent::ZomeInfo(res)),
{
    hdk::prelude::zome_info().map(|info| ZomeInfoView {
        name: info.name.0.to_string(),
        link_types: info.zome_types.links.0.iter().map(
            |(z, ts)| ZomeTypes { zome_index: z.0, types: ts.iter().map(|t| t.0).collect() },
        ).collect(),
        entry_types: info.zome_types.entries.0.iter().map(
            |(z, ts)| ZomeTypes { zome_index: z.0, types: ts.iter().map(|t| t.0).collect() },
        ).collect(),
    })
}

/// `Path::path_entry_hash` of `Path::from(path)`, from `hdi`: on success the
/// hash is `path_entry_hash_of(path)`, the same for the same string. The call
/// hashes through the host and fails when the host does. A path without `#`
/// holds no shard prefix, so `Path::from` only splits it at its dots (a shard
/// prefix can overflow in `hdi` and panic). (`hash_entry` assumes that the
/// host answers an entry with an entry hash.)
#[verifier::external_body]
pub(crate) fn path_entry_hash(path: &str) -> (res: Result<EntryHashValue, WasmError>)
    requires
        !path@.contains('#'),
    ensures
        res matches Ok(h) ==> h@ == path_entry_hash_of(path@),
{
    hdk::prelude::Path::from(path).path_entry_hash().map(
        |h| EntryHashValue { core: HashCore { bytes: h.get_raw_36().to_vec() } },
    )
}

/// `hdk::prelude::get_links` on the links of the query's scoped type from its
/// base, with the filter `LinkTypeFilter::single_type` and no tag prefix.
/// Claims nothing of which links come back: the DHT decides.
/// Adds the exchange to `log`.
#[verifier::external_body]
pub(crate) fn get_links(query: &LinkQuery, log: &mut HostLog) -> (res: Result<Vec<Link>, WasmError>)
    ensures
        final(log)@ == old(log)@.push(HostEvent::GetLinks(*query, res)),
{
    let base: AnyLinkableHash = match &query.base {
        Linkable::Agent(k) => AgentPubKey::from_raw_36(k.core.bytes.clone()).into(),
        Linkable::Action(h) => ActionHash::from_raw_36(h.core.bytes.clone()).into(),
        Linkable::Entry(h) => EntryHash::from_raw_36(h.core.bytes.clone()).into(),
    };
    let filter = LinkTypeFilter::single_type(ZomeIndex(query.link_type.zome_index), LinkType(query.link_type.type_index));
    hdk::prelude::get_links(GetLinksInputBuilder::try_new(base, filter)?.build())
}

/// The fields of each `hdk` `Link` that the logic reads, one record per link
/// and in order: the target, split by `AnyLinkableHash::into_primitive` into
/// its kind; the hash of the creating action; the tag's bytes. Claims nothing
/// of the fields: a link is opaque here.
/// Adds the exchange to `log`.
#[verifier::external_body]
pub(crate) fn link_records(links: &Vec<Link>, log: &mut HostLog) -> (res: Vec<LinkRecord>)
    ensures
        res@.len() == links@.len(),
        final(log)@ == old(log)@.push(HostEvent::ReadLinks(*links, res)),
{
    links.iter().map(|link| {
        let target = match link.target.clone().into_primitive() {
            AnyLinkableHashPrimitive::Action(h) => LinkTarget::Action(ActionHashValue { core: HashCore { bytes: h.get_raw_36().to_vec() } }),
            AnyLinkableHashPrimitive::Entry(h) => LinkTarget::Entry(EntryHashValue { core: HashCore { bytes: h.get_raw_36().to_vec() } }),
            AnyLinkableHashPrimitive::External(h) => LinkTarget::External(ExternalHashValue { core: HashCore { bytes: h.get_raw_36().to_vec() } }),
        };
        let create_link_hash = ActionHashValue { core: HashCore { bytes: link.create_link_hash.get_raw_36().to_vec() } };
        LinkRecord { target, create_link_hash, tag: link.tag.0.clone() }
    }).collect()
}

/// `HdkT::delete_link` with a `DeleteLinkInput` for the link created by the
/// deletion's address, at its chain-top ordering. Keeps only whether the host
/// succeeded.
/// Adds the exchange to `log`.
#[verifier::external_body]
pub(crate) fn delete_link(deletion: &LinkDeletion, log: &mut HostLog) -> (res: Result<(), WasmError>)
    ensures
        final(log)@ == old(log)@.push(HostEvent::DeleteLink(*deletion, res)),
{
    let ordering = match deletion.ordering { ChainOrdering::Strict => ChainTopOrdering::Strict, ChainOrdering::Relaxed => ChainTopOrdering::Relaxed };
    let address = ActionHash::from_raw_36(deletion.address.core.bytes.clone());
    HDK.with(|h| h.borrow().delete_link(DeleteLinkInput::new(address, ordering))).map(|_| ())
}

/// `HdkT::create_link` with a `CreateLinkInput` holding the write's base,
/// target, scoped link type, tag and chain-top ordering. An agent key is linked
/// as the entry that holds it. Keeps only whether the host succeeded.
/// Adds the exchange to `log`.
#[verifier::external_body]
pub(crate) fn create_link(write: &LinkWrite, log: &mut HostLog) -> (res: Result<(), WasmError>)
    ensures
        final(log)@ == old(log)@.push(HostEvent::CreateLink(*write, res)),
{
    let [base, target] = [&write.base, &write.target].map(|l| -> AnyLinkableHash { match l {
        Linkable::Agent(k) => AgentPubKey::from_raw_36(k.core.bytes.clone()).into(),
        Linkable::Action(h) => ActionHash::from_raw_36(h.core.bytes.clone()).into(),
        Linkable::Entry(h) => EntryHash::from_raw_36(h.core.bytes.clone()).into(),
    } });
    let input = CreateLinkInput::new(base, target, ZomeIndex(write.link_type.zome_index), LinkType(write.link_type.type_index), LinkTag(write.tag.clone()),
        match write.ordering { ChainOrdering::Strict => ChainTopOrdering::Strict, _ => ChainTopOrdering::Relaxed });
    HDK.with(|h| h.borrow().create_link(input)).map(|_| ())
}

/// `HdkT::create` with a public app entry of the scoped entry type, holding the
/// given bytes, at the default (strict) chain-top ordering: what
/// `hdk::prelude::create_entry` does for an app entry type. Claims nothing of the
/// hash that comes back.
/// Adds the exchange to `log`.
#[verifier::external_body]
pub(crate) fn create_app_entry(entry_type: ScopedType, entry: AppEntryBytes, log: &mut HostLog) -> (res: Result<ActionHashValue, WasmError>)
    ensures
        final(log)@ == old(log)@.push(HostEvent::CreateEntry(entry_type, entry, res)),
{
    let location = ScopedEntryDefIndex { zome_index: ZomeIndex(entry_type.zome_index), zome_type: EntryDefIndex(entry_type.type_index) };
    let input = CreateInput::new(location, EntryVisibility::Public, hdk::prelude::Entry::App(entry), ChainTopOrdering::default());
    HDK.with(|h| h.borrow().create(input)).map(|h| ActionHashValue { core: HashCore { bytes: h.get_raw_36().to_vec() } })
}

/// `hdk::prelude::get` of the record at `address`, with default options, and of
/// that record the entry data (`Record::entry().as_option()`): app bytes (also of
/// a countersigned entry), other entry data, or none. Claims nothing of the
/// record: the DHT decides. (`get` itself assumes the host answers each request.)
/// Adds the exchange to `log`.
#[verifier::external_body]
pub(crate) fn get_record_entry(address: &DhtHash, log: &mut HostLog) -> (res: Result<Option<RecordEntryView>, WasmError>)
    ensures
        final(log)@ == old(log)@.push(HostEvent::GetEntry(*address, res)),
{
    let hash: AnyDhtHash = match address {
        DhtHash::Action(h) => ActionHash::from_raw_36(h.core.bytes.clone()).into(),
        DhtHash::Entry(h) => EntryHash::from_raw_36(h.core.bytes.clone()).into(),
    };
    hdk::prelude::get(hash, GetOptions::default()).map(|r| r.map(|record| match record.entry().as_option() {
        None => RecordEntryView::Absent,
        Some(hdk::prelude::Entry::App(b)) => RecordEntryView::App(b.clone()),
        Some(hdk::prelude::Entry::CounterSign(_, b)) => RecordEntryView::App(b.clone()),
        Some(_) => RecordEntryView::NotApp,
    }))
}

/// `hdk::prelude::get` of the record created by the action at `address`, with
/// default options, handed on encoded by `ExternIO::encode` (MessagePack), so
/// that it crosses as bytes. Claims nothing of the record: the DHT decides.
/// (`get` itself assumes the host answers each request.)
/// Adds the exchange to `log`.
#[verifier::external_body]
pub(crate) fn get_record(address: &ActionHashValue, log: &mut HostLog) -> (res: Result<Option<Result<Vec<u8>, SerializedBytesError>>, WasmError>)
    ensures
        final(log)@ == old(log)@.push(HostEvent::GetRecord(*address, res)),
{
    let hash = ActionHash::from_raw_36(address.core.bytes.clone());
    hdk::prelude::get(hash, GetOptions::default()).map(|r| r.map(|record| ExternIO::encode(record).map(|io| io.0)))
}

/// `hdk::prelude::create_cap_grant` of an unrestricted `ZomeCallCapGrant` with
/// the request's tag, listing the named functions of the named zome. Keeps only
/// whether the host succeeded.
/// Adds the exchange to `log`.
#[verifier::external_body]
pub(crate) fn create_cap_grant(grant: &GrantRequest, log: &mut HostLog) -> (res: Result<(), WasmError>)
    ensures
        final(log)@ == old(log)@.push(HostEvent::Grant(*grant, res)),
{
    let functions = grant.functions.iter().map(|f| (ZomeName::from(grant.zome.as_str()), FunctionName::from(*f))).collect();
    let grant = ZomeCallCapGrant { tag: grant.tag.clone(), access: CapAccess::Unrestricted, functions: GrantedFunctions::Listed(functions) };
    hdk::prelude::create_cap_grant(grant).map(|_| ())
}

/// `HdkT::call` with one `Call` of the request's function of its zome at its
/// target, with no capability secret and the request's encoded payload: an
/// agent is reached over the network, a role or the local cell through the
/// conductor. Claims nothing of the responses that come back: the callee decides.
/// Adds the exchange to `log`.
#[verifier::external_body]
pub(crate) fn call(request: &CallRequest, log: &mut HostLog) -> (res: Result<Vec<ZomeCallResponse>, WasmError>)
    ensures
        final(log)@ == old(log)@.push(HostEvent::Call(*request, res)),
{
    let target = match &request.target {
        CallTarget::Agent(k) => hdk::prelude::CallTarget::NetworkAgent(AgentPubKey::from_raw_36(k.core.bytes.clone())),
        CallTarget::OtherRole(role) => hdk::prelude::CallTarget::ConductorCell(CallTargetCell::OtherRole(role.to_string())),
        CallTarget::Local => hdk::prelude::CallTarget::ConductorCell(CallTargetCell::Local),
    };
    let (zome, function) = (ZomeName::from(request.zome.as_str()), FunctionName::from(request.function.as_str()));
    let call = hdk::prelude::Call::new(target, zome, function, None, ExternIO(request.payload.clone()));
    HDK.with(|h| h.borrow().call(vec![call]))
}

/// The variant of a `ZomeCallResponse`, with the returned bytes of
/// `ZomeCallResponse::Ok`. Claims nothing: the response is opaque here.
/// Adds the exchange to `log`.
#[verifier::external_body]
pub(crate) fn call_outcome(response: &ZomeCallResponse, log: &mut HostLog) -> (res: CallOutcome)
    ensures
        final(log)@ == old(log)@.push(HostEvent::ReadResponse(*response, res)),
{
    match response {
        ZomeCallResponse::Ok(io) => CallOutcome::Answered(io.0.clone()),
        ZomeCallResponse::Unauthorized(..) => CallOutcome::Unauthorized,
        ZomeCallResponse::NetworkError(_) => CallOutcome::NetworkError,
        ZomeCallResponse::CountersigningSession(_) => CallOutcome::CountersigningSession,
    }
}

/// `ExternIO::encode(())`: the unit value as a call payload. `rmp_serde`
/// writes the unit value as MessagePack's nil, the single byte `0xc0`.
#[verifier::external_body]
pub(crate) fn encode_unit() -> (res: Result<Vec<u8>, SerializedBytesError>)
    ensures
        res matches Ok(b) ==> b@ == seq![0xc0u8],
{
    ExternIO::encode(()).map(|io| io.0)
}

/// `ExternIO::encode` of a string: `rmp_serde` writes a MessagePack string,
/// `msgpack_str`, whose header holds the byte length as a `u32`; the clause is
/// stated for strings whose UTF-8 form is shorter than 2^32 bytes.
#[verifier::external_body]
pub(crate) fn encode_string(s: &String) -> (res: Result<Vec<u8>, SerializedBytesError>)
    ensures
        encode_utf8(s@).len() < 0x1_0000_0000 ==> (res matches Ok(b) ==> b@ == msgpack_str(s@)),
{
    ExternIO::encode(s).map(|io| io.0)
}

/// What `ExternIO::decode` makes of bytes read as an optional byte string
/// (`Option<ExternIO>`, whose inner value is a MessagePack binary): `None` when
/// they do not decode, otherwise the decoded option. It depends on the bytes alone.
pub uninterp spec fn decoded_optional_bytes(bytes: Seq<u8>) -> Option<Option<Seq<u8>>>;

/// `ExternIO::decode` of returned bytes as an `Option<ExternIO>`: succeeds
/// exactly when `decoded_optional_bytes` of the bytes is some value, and then
/// gives that value. Nothing is read into the bytes: checking them is left to
/// the caller.
#[verifier::external_body]
pub(crate) fn decode_optional_bytes(bytes: Vec<u8>) -> (res: Result<Option<Vec<u8>>, SerializedBytesError>)
    ensures
        res is Ok <==> decoded_optional_bytes(bytes@) is Some,
        res matches Ok(Some(b)) ==> decoded_optional_bytes(bytes@) == Some(Some(b@)),
        res matches Ok(None) ==> decoded_optional_bytes(bytes@) == Some(None::<Seq<u8>>),
{
    ExternIO(bytes).decode::<Option<ExternIO>>().map(|o| o.map(|io| io.0))
}

/// `String::from_utf8`: as its documentation says, the bytes become a string
/// when they are valid UTF-8, and the string holds exactly those bytes;
/// otherwise it fails. The failure is given as its `Debug` text.
#[verifier::external_body]
pub(crate) fn utf8_string(bytes: Vec<u8>) -> (res: Result<String, String>)
    ensures
        res is Ok <==> vstd::utf8::valid_utf8(bytes@),
        res matches Ok(s) ==> s@ == vstd::utf8::decode_utf8(bytes@),
{
    String::from_utf8(bytes).map_err(|e| format!("{:?}", e))
}

} // verus!
