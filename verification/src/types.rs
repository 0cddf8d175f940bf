//! Plain values that the zome logic reads from, and hands to, the host.
use vstd::prelude::*;

use crate::hashes::{ActionHashValue, AgentKey, LinkTarget};

verus! {

#[verifier::external_type_specification]
#[verifier::external_body]
pub struct ExWasmError(hdk::prelude::WasmError);

#[verifier::external_type_specification]
#[verifier::external_body]
pub struct ExSerializedBytesError(hdk::prelude::SerializedBytesError);

#[verifier::external_type_specification]
#[verifier::external_body]
pub struct ExSerializedBytes(hdk::prelude::SerializedBytes);

#[verifier::external_type_specification]
#[verifier::external_body]
pub struct ExAppEntryBytes(hdk::prelude::AppEntryBytes);

#[verifier::external_type_specification]
#[verifier::external_body]
pub struct ExExternIO(hdk::prelude::ExternIO);

#[verifier::external_type_specification]
#[verifier::external_body]
pub struct ExLink(hdk::prelude::Link);

#[verifier::external_type_specification]
#[verifier::external_body]
pub struct ExZomeCallResponse(hdk::prelude::ZomeCallResponse);

/// A link as the zome logic reads it.
#[derive(Debug)]
pub struct LinkRecord {
    /// What the link points to.
    pub target: LinkTarget,
    /// The hash of the action that created the link; deleting the link names it.
    pub create_link_hash: ActionHashValue,
    /// The link's tag.
    pub tag: Vec<u8>,
}

/// The types of one zome in scope for the calling zome: the zome's index in the
/// DNA and, in declaration order, the index of each of its types.
#[derive(Debug)]
pub struct ZomeTypes {
    pub zome_index: u8,
    pub types: Vec<u8>,
}

/// A type declared by an integrity zome, scoped to the zome that declares it.
#[derive(Debug, Clone, Copy, PartialEq, Eq)]
pub struct ScopedType {
    pub zome_index: u8,
    pub type_index: u8,
}

/// A type named by its declaring zome's position among the calling zome's
/// dependencies and its position within that zome's declaration.
#[derive(Debug, Clone, Copy, PartialEq, Eq)]
pub struct TypeKey {
    pub dependency: u8,
    pub type_index: u8,
}

/// What the calling zome knows about itself.
#[derive(Debug)]
pub struct ZomeInfoView {
    /// The zome's name.
    pub name: String,
    /// The link types in scope, by dependency.
    pub link_types: Vec<ZomeTypes>,
    /// The entry types in scope, by dependency.
    pub entry_types: Vec<ZomeTypes>,
}

/// How a write is placed against the top of the source chain.
#[derive(Debug, Clone, Copy, PartialEq, Eq)]
pub enum ChainOrdering {
    /// The write fails if another write moved the chain top meanwhile.
    Strict,
    /// The write is rebased onto whatever the chain top is when it commits.
    Relaxed,
}

/// Where a zome call goes.
#[derive(Debug)]
pub enum CallTarget {
    /// Another agent, over the network.
    Agent(AgentKey),
    /// A cell of the calling agent's own app, named by its role.
    OtherRole(&'static str),
    /// The calling cell itself.
    Local,
}

/// How a zome call was answered.
#[derive(Debug)]
pub enum CallOutcome {
    /// The function ran; its encoded return value.
    Answered(Vec<u8>),
    /// The callee holds no capability grant that admits the call.
    Unauthorized,
    /// The network failed to carry the call.
    NetworkError,
    /// A countersigning session failed to start.
    CountersigningSession,
}

/// The entry data of a fetched record.
#[derive(Debug)]
pub enum RecordEntryView {
    /// The record carries no entry data.
    Absent,
    /// The record carries an app entry (possibly one under countersigning).
    App(hdk::prelude::AppEntryBytes),
    /// The record carries entry data that is not an app entry (an agent key, a
    /// capability grant or claim).
    NotApp,
}

} // verus!
