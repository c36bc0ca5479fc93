//! Decisions of the peer-to-peer layer: which bus messages go out on the gossip
//! topic, and how the swarm answers each network event (it remembers every peer
//! that gossiped to it, drops packets the neural filter marks as threats, and
//! forwards what decrypts to the internal bus).

use vstd::prelude::*;
use crate::text::text_eq;

verus! {

/// Gossip topic of the mesh node.
pub open spec fn mesh_topic() -> Seq<char> {
    "pappap-snn-v0.4"@
}

/// Gossip topic of the swarm.
pub open spec fn swarm_topic() -> Seq<char> {
    "pappap-ai-chain-snn-2025"@
}

/// Bus target of messages that the swarm forwards from the network.
pub open spec fn gossip_target() -> Seq<char> {
    "gossip"@
}

/// The gossip topic of the mesh node.
pub fn mesh_topic_name() -> (s: String)
    ensures
        s@ == mesh_topic(),
{
    "pappap-snn-v0.4".to_owned()
}

/// The gossip topic of the swarm.
pub fn swarm_topic_name() -> (s: String)
    ensures
        s@ == swarm_topic(),
{
    "pappap-ai-chain-snn-2025".to_owned()
}

/// Whether the mesh node publishes a bus message with this target: targets `global`
/// and `all` go out.
pub fn node_publishes(target: &str) -> (r: bool)
    ensures
        r == (target@ == "global"@ || target@ == "all"@),
{
    text_eq(target, "global") || text_eq(target, "all")
}

/// Whether the swarm publishes a bus message with this target: targets `gossip`
/// and `all` go out, sealed.
pub fn swarm_publishes(target: &str) -> (r: bool)
    ensures
        r == (target@ == gossip_target() || target@ == "all"@),
        r == (target@ == "gossip"@ || target@ == "all"@),
{
    text_eq(target, "gossip") || text_eq(target, "all")
}

/// Whether two byte strings are equal.
pub fn bytes_eq(a: &[u8], b: &[u8]) -> (r: bool)
    ensures
        r == (a@ == b@),
{
    if a.len() != b.len() {
        return false;
    }
    let n = a.len();
    for i in 0..n
        invariant
            n == a@.len(),
            n == b@.len(),
            forall|j: int| 0 <= j < i ==> a@[j] == b@[j],
    {
        if a[i] != b[i] {
            return false;
        }
    }
    assert(a@ =~= b@);
    true
}

/// An event of the swarm's loop, with peers given by the bytes of their identity.
pub enum SwarmInput {
    /// A message from the internal bus.
    FromBus { target: String, data: Vec<u8> },
    /// A gossip message from the network, relayed by `peer`; `threat` tells whether
    /// the neural filter scored the packet above its threat threshold.
    Gossip { peer: Vec<u8>, data: Vec<u8>, threat: bool },
    /// The result of decrypting the gossip message relayed by `peer`.
    Decrypted { peer: Vec<u8>, plain: Option<Vec<u8>> },
    /// Any other network event (a new listen address, a connection opened or closed).
    Other,
}

/// What the swarm does in answer to an event.
pub enum SwarmAction {
    /// Seal `data` and publish it on the swarm topic.
    Publish { data: Vec<u8> },
    /// Drop the packet of `peer`: it is a threat.
    DropThreat { peer: Vec<u8> },
    /// Decrypt `data` from `peer`.
    Decrypt { peer: Vec<u8>, data: Vec<u8> },
    /// Send `data` to the internal bus under `target`.
    Forward { target: String, data: Vec<u8> },
    /// Decryption of the packet of `peer` failed.
    DecryptFailed { peer: Vec<u8> },
    /// Nothing to do beyond logging.
    Ignore,
}

/// The action for an event (the peer bookkeeping aside).
pub open spec fn swarm_action_ok(input: SwarmInput, action: SwarmAction) -> bool {
    match input {
        SwarmInput::FromBus { target, data } => if target@ == gossip_target() || target@ == "all"@ {
            action matches SwarmAction::Publish { data: d } && d@ == data@
        } else {
            action is Ignore
        },
        SwarmInput::Gossip { peer, data, threat } => if threat {
            action matches SwarmAction::DropThreat { peer: p } && p@ == peer@
        } else {
            action matches SwarmAction::Decrypt { peer: p, data: d } && p@ == peer@ && d@ == data@
        },
        SwarmInput::Decrypted { peer, plain } => match plain {
            Some(pl) => action matches SwarmAction::Forward { target: t, data: d } && t@
                == gossip_target() && d@ == pl@,
            None => action matches SwarmAction::DecryptFailed { peer: p } && p@ == peer@,
        },
        SwarmInput::Other => action is Ignore,
    }
}

/// The peers known after an event: a gossip message makes its relaying peer known.
pub open spec fn peers_after(known: Set<Seq<u8>>, input: SwarmInput) -> Set<Seq<u8>> {
    match input {
        SwarmInput::Gossip { peer, .. } => known.insert(peer@),
        _ => known,
    }
}

/// The swarm's memory: the peers that have gossiped to it, each once.
pub struct SwarmState {
    known_peers: Vec<Vec<u8>>,
}

impl SwarmState {
    closed spec fn peer_seq(self) -> Seq<Seq<u8>> {
        self.known_peers@.map_values(|p: Vec<u8>| p@)
    }

    #[verifier::type_invariant]
    closed spec fn wf(self) -> bool {
        self.peer_seq().no_duplicates()
    }

    /// The peers known so far.
    pub closed spec fn known(&self) -> Set<Seq<u8>> {
        self.peer_seq().to_set()
    }

    /// A swarm that knows no peer.
    pub fn new() -> (s: SwarmState)
        ensures
            s.known() == Set::<Seq<u8>>::empty(),
    {
        let s = SwarmState { known_peers: Vec::new() };
        assert(s.peer_seq() =~= Seq::<Seq<u8>>::empty());
        assert(s.known() =~= Set::<Seq<u8>>::empty());
        s
    }

    /// The number of peers known so far.
    pub fn known_count(&self) -> (n: usize)
        ensures
            n == self.known().len(),
    {
        proof {
            use_type_invariant(self);
            self.peer_seq().unique_seq_to_set();
        }
        self.known_peers.len()
    }

    /// Whether `peer` is known.
    pub fn is_known(&self, peer: &[u8]) -> (r: bool)
        ensures
            r == self.known().contains(peer@),
    {
        let n = self.known_peers.len();
        for i in 0..n
            invariant
                n == self.known_peers@.len(),
                forall|j: int| 0 <= j < i ==> self.peer_seq()[j] != peer@,
        {
            if bytes_eq(self.known_peers[i].as_slice(), peer) {
                assert(self.peer_seq()[i as int] == peer@);
                return true;
            }
        }
        false
    }

    /// Makes `peer` known.
    pub fn remember(&mut self, peer: &[u8])
        ensures
            final(self).known() == old(self).known().insert(peer@),
    {
        if !self.is_known(peer) {
            proof {
                use_type_invariant(&*self);
            }
            let ghost before = self.peer_seq();
            let mut peers: Vec<Vec<u8>> = Vec::new();
            std::mem::swap(&mut peers, &mut self.known_peers);
            peers.push(vstd::slice::slice_to_vec(peer));
            proof {
                let after = peers@.map_values(|p: Vec<u8>| p@);
                assert(after =~= before.push(peer@));
                assert(!before.contains(peer@));
                before.lemma_push_to_set_commute(peer@);
            }
            self.known_peers = peers;
        } else {
            assert(old(self).known().insert(peer@) =~= old(self).known());
        }
    }

    /// Answers one event of the swarm's loop.
    pub fn step(&mut self, input: SwarmInput) -> (action: SwarmAction)
        ensures
            swarm_action_ok(input, action),
            final(self).known() == peers_after(old(self).known(), input),
            input matches SwarmInput::FromBus { target, data } ==> if target@ == "gossip"@
                || target@ == "all"@ {
                action matches SwarmAction::Publish { data: d } && d@ == data@
            } else {
                action is Ignore
            },
    {
        match input {
            SwarmInput::FromBus { target, data } => {
                if swarm_publishes(target.as_str()) {
                    SwarmAction::Publish { data }
                } else {
                    SwarmAction::Ignore
                }
            },
            SwarmInput::Gossip { peer, data, threat } => {
                self.remember(peer.as_slice());
                if threat {
                    SwarmAction::DropThreat { peer }
                } else {
                    SwarmAction::Decrypt { peer, data }
                }
            },
            SwarmInput::Decrypted { peer, plain } => match plain {
                Some(pl) => SwarmAction::Forward { target: "gossip".to_owned(), data: pl },
                None => SwarmAction::DecryptFailed { peer },
            },
            SwarmInput::Other => SwarmAction::Ignore,
        }
    }
}

/// Known peers are never forgotten: after any event, every peer known before is still
/// known, and a peer that gossiped is known.
pub proof fn known_peers_only_grow(known: Set<Seq<u8>>, input: SwarmInput, p: Seq<u8>)
    ensures
        known.contains(p) ==> peers_after(known, input).contains(p),
        input matches SwarmInput::Gossip { peer, .. } ==> peers_after(known, input).contains(peer@),
{
}

/// A gossip message reaches the bus once, and only when it is safe and opens: a
/// threat is dropped without decryption; otherwise its data goes to decryption, and
/// the decryption result is forwarded to the gossip target when there is a
/// plaintext, and reported as a failure (with nothing forwarded) when there is none.
pub proof fn gossip_forwarded_only_when_safe_and_opened(
    peer: Vec<u8>,
    data: Vec<u8>,
    threat: bool,
    first: SwarmAction,
    plain: Option<Vec<u8>>,
    second: SwarmAction,
)
    requires
        swarm_action_ok(SwarmInput::Gossip { peer, data, threat }, first),
        first matches SwarmAction::Decrypt { peer: p, .. } ==> swarm_action_ok(
            SwarmInput::Decrypted { peer: p, plain },
            second,
        ),
    ensures
        threat ==> first is DropThreat,
        !threat ==> (first matches SwarmAction::Decrypt { peer: p, data: d } && p@ == peer@ && d@
            == data@),
        !threat ==> (second is Forward <==> plain is Some),
        !threat && plain is Some ==> (second matches SwarmAction::Forward { target, data: d }
            && target@ == gossip_target() && d@ == plain->0@),
        !threat && plain is None ==> second is DecryptFailed,
{
}

/// The swarm publishes exactly the bus messages addressed to `gossip` or `all`, with
/// their data unchanged, and ignores every other bus message (such as one for
/// `global`, which the mesh node publishes, or `block_finalized`).
pub proof fn swarm_publishes_gossip_and_all_only(target: String, data: Vec<u8>, action: SwarmAction)
    requires
        swarm_action_ok(SwarmInput::FromBus { target, data }, action),
    ensures
        (target@ == "gossip"@ || target@ == "all"@) ==> (action matches SwarmAction::Publish {
            data: d,
        } && d@ == data@),
        !(target@ == "gossip"@ || target@ == "all"@) ==> action is Ignore,
        target@ == "global"@ ==> action is Ignore,
        target@ == "block_finalized"@ ==> action is Ignore,
{
    reveal_strlit("global");
    reveal_strlit("gossip");
    reveal_strlit("all");
    reveal_strlit("block_finalized");
    assert("global"@[1] != "gossip"@[1]);
    assert("global"@.len() != "all"@.len());
    assert("block_finalized"@.len() != "gossip"@.len());
    assert("block_finalized"@.len() != "all"@.len());
}

} // verus!
