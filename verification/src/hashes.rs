//! Holochain hashes held as plain values: the 36 bytes that follow a hash's
//! three-byte type prefix (a 32-byte digest and a 4-byte DHT location). The
//! kind of a hash is carried by the Rust type that holds the bytes.
use vstd::prelude::*;

verus! {

/// Number of bytes of a hash without its type prefix.
pub const HASH_CORE_LEN: usize = 36;

/// The prefix-free bytes of a Holochain hash; always exactly 36 bytes long.
#[derive(Debug)]
pub struct HashCore {
    pub(crate) bytes: Vec<u8>,
}

impl View for HashCore {
    type V = Seq<u8>;

    closed spec fn view(&self) -> Seq<u8> {
        self.bytes@
    }
}

impl HashCore {
    #[verifier::type_invariant]
    spec fn has_core_length(self) -> bool {
        self.bytes@.len() == 36
    }

    /// Builds a hash core from its bytes; `None` unless there are exactly 36 of them.
    pub fn from_bytes(bytes: Vec<u8>) -> (res: Option<HashCore>)
        ensures
            res is Some <==> bytes@.len() == 36,
            res matches Some(h) ==> h@ == bytes@,
    {
        if bytes.len() == HASH_CORE_LEN {
            Some(HashCore { bytes })
        } else {
            None
        }
    }

    /// The 36 bytes of this hash core.
    pub fn to_bytes(&self) -> (res: Vec<u8>)
        ensures
            res@ == self@,
            res@.len() == 36,
    {
        proof {
            use_type_invariant(self);
        }
        self.bytes.clone()
    }

    /// A copy of this hash core.
    pub fn duplicate(&self) -> (res: HashCore)
        ensures
            res@ == self@,
    {
        proof {
            use_type_invariant(self);
        }
        HashCore { bytes: self.bytes.clone() }
    }

    /// Whether two hash cores hold the same bytes.
    pub fn same_as(&self, other: &HashCore) -> (res: bool)
        ensures
            res == (self@ == other@),
    {
        proof {
            use_type_invariant(self);
            use_type_invariant(other);
        }
        let mut i: usize = 0;
        while i < HASH_CORE_LEN
            invariant
                self.bytes@.len() == 36,
                other.bytes@.len() == 36,
                0 <= i <= 36,
                forall|j: int| 0 <= j < i ==> self.bytes@[j] == other.bytes@[j],
            decreases 36 - i,
        {
            if self.bytes[i] != other.bytes[i] {
                return false;
            }
            i = i + 1;
        }
        assert(self.bytes@ =~= other.bytes@);
        true
    }
}

/// An agent's public key.
#[derive(Debug)]
pub struct AgentKey {
    pub core: HashCore,
}

/// The hash of an action on a source chain.
#[derive(Debug)]
pub struct ActionHashValue {
    pub core: HashCore,
}

/// The hash of an entry.
#[derive(Debug)]
pub struct EntryHashValue {
    pub core: HashCore,
}

/// The hash of a DNA.
#[derive(Debug)]
pub struct DnaHashValue {
    pub core: HashCore,
}

impl View for DnaHashValue {
    type V = Seq<u8>;

    open spec fn view(&self) -> Seq<u8> {
        self.core@
    }
}

/// The hash of something that lives outside the DHT.
#[derive(Debug)]
pub struct ExternalHashValue {
    pub core: HashCore,
}

impl View for AgentKey {
    type V = Seq<u8>;

    open spec fn view(&self) -> Seq<u8> {
        self.core@
    }
}

impl View for ActionHashValue {
    type V = Seq<u8>;

    open spec fn view(&self) -> Seq<u8> {
        self.core@
    }
}

impl View for EntryHashValue {
    type V = Seq<u8>;

    open spec fn view(&self) -> Seq<u8> {
        self.core@
    }
}

impl View for ExternalHashValue {
    type V = Seq<u8>;

    open spec fn view(&self) -> Seq<u8> {
        self.core@
    }
}

/// The bytes that open an agent key in its full 39-byte form, before the 36
/// bytes of its core.
pub open spec fn agent_prefix() -> Seq<u8> {
    seq![0x84u8, 0x20u8, 0x24u8]
}

/// The core of an agent key given in its full form: the 36 bytes after the
/// prefix, when there are 39 bytes and the first three are the agent prefix.
pub open spec fn agent_core_of(full: Seq<u8>) -> Option<Seq<u8>> {
    if full.len() == 39 && full.subrange(0, 3) == agent_prefix() {
        Some(full.subrange(3, 39))
    } else {
        None
    }
}

impl AgentKey {
    /// The agent key held by a hash in its full form (prefix, digest and
    /// location); `None` unless it is 39 bytes long and has the agent prefix.
    pub fn from_full_bytes(full: &Vec<u8>) -> (res: Option<AgentKey>)
        ensures
            res is Some <==> agent_core_of(full@) is Some,
            res matches Some(k) ==> agent_core_of(full@) == Some(k@),
    {
        if full.len() != 39 || full[0] != 0x84u8 || full[1] != 0x20u8 || full[2] != 0x24u8 {
            proof {
                if full@.len() == 39 {
                    assert(full@.subrange(0, 3)[0] == full@[0]);
                    assert(full@.subrange(0, 3)[1] == full@[1]);
                    assert(full@.subrange(0, 3)[2] == full@[2]);
                }
            }
            return None;
        }
        assert(full@.subrange(0, 3) =~= agent_prefix());
        let mut bytes: Vec<u8> = Vec::new();
        let mut i: usize = 3;
        while i < 39
            invariant
                full@.len() == 39,
                3 <= i <= 39,
                bytes@ == full@.subrange(3, i as int),
            decreases 39 - i,
        {
            bytes.push(full[i]);
            i = i + 1;
            assert(bytes@ =~= full@.subrange(3, i as int));
        }
        match HashCore::from_bytes(bytes) {
            Some(core) => Some(AgentKey { core }),
            None => None,
        }
    }

    /// A copy of this key.
    pub fn duplicate(&self) -> (res: AgentKey)
        ensures
            res@ == self@,
    {
        AgentKey { core: self.core.duplicate() }
    }
}

impl ActionHashValue {
    /// A copy of this hash.
    pub fn duplicate(&self) -> (res: ActionHashValue)
        ensures
            res@ == self@,
    {
        ActionHashValue { core: self.core.duplicate() }
    }
}

impl EntryHashValue {
    /// A copy of this hash.
    pub fn duplicate(&self) -> (res: EntryHashValue)
        ensures
            res@ == self@,
    {
        EntryHashValue { core: self.core.duplicate() }
    }
}

/// What a link can point to, told apart by the kind of hash.
#[derive(Debug)]
pub enum LinkTarget {
    Action(ActionHashValue),
    Entry(EntryHashValue),
    External(ExternalHashValue),
}

/// A hash that addresses data held in the DHT.
#[derive(Debug)]
pub enum DhtHash {
    Action(ActionHashValue),
    Entry(EntryHashValue),
}

/// A hash that can stand at either end of a new link. An agent key stands there
/// as the entry that holds the key.
#[derive(Debug)]
pub enum Linkable {
    Agent(AgentKey),
    Action(ActionHashValue),
    Entry(EntryHashValue),
}

/// The agent key that a link target names: an entry-typed target read as an agent key.
pub open spec fn target_agent(t: LinkTarget) -> Option<Seq<u8>> {
    match t {
        LinkTarget::Entry(h) => Some(h@),
        _ => None,
    }
}

/// The DHT address that a link target names: any target but an external one.
pub open spec fn target_dht(t: LinkTarget) -> Option<DhtHash> {
    match t {
        LinkTarget::Action(h) => Some(DhtHash::Action(h)),
        LinkTarget::Entry(h) => Some(DhtHash::Entry(h)),
        LinkTarget::External(_) => None,
    }
}

/// The action hash that a link target names, if it names an action.
pub open spec fn target_action(t: LinkTarget) -> Option<Seq<u8>> {
    match t {
        LinkTarget::Action(h) => Some(h@),
        _ => None,
    }
}

impl LinkTarget {
    /// The agent key this target names: an entry-typed target re-read as an agent key,
    /// keeping its bytes, as `AnyLinkableHash::into_agent_pub_key` does.
    pub fn agent_key(&self) -> (res: Option<AgentKey>)
        ensures
            res matches Some(k) ==> target_agent(*self) == Some(k@),
            res is None ==> target_agent(*self) is None,
    {
        match self {
            LinkTarget::Entry(h) => Some(AgentKey { core: h.core.duplicate() }),
            _ => None,
        }
    }

    /// The DHT address this target names, as `AnyLinkableHash::into_any_dht_hash` does.
    pub fn dht_hash(&self) -> (res: Option<DhtHash>)
        ensures
            res is Some <==> target_dht(*self) is Some,
            res matches Some(DhtHash::Action(h)) ==> *self matches LinkTarget::Action(g) && h@ == g@,
            res matches Some(DhtHash::Entry(h)) ==> *self matches LinkTarget::Entry(g) && h@ == g@,
    {
        match self {
            LinkTarget::Action(h) => Some(DhtHash::Action(h.duplicate())),
            LinkTarget::Entry(h) => Some(DhtHash::Entry(h.duplicate())),
            LinkTarget::External(_) => None,
        }
    }

    /// The action hash this target names, as `AnyLinkableHash::into_action_hash` does.
    pub fn action_hash(&self) -> (res: Option<ActionHashValue>)
        ensures
            res matches Some(h) ==> target_action(*self) == Some(h@),
            res is None ==> target_action(*self) is None,
    {
        match self {
            LinkTarget::Action(h) => Some(h.duplicate()),
            _ => None,
        }
    }
}

} // verus!
