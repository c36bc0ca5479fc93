//! Decisions of the node's managers on the messages of the internal bus: the
//! consensus engine finalizes approved block proposals, the storage manager names
//! the file of each finalized block, the security manager counts anomalies per peer
//! and bans from the fourth on, and the transaction manager beats at a fixed period.

use vstd::prelude::*;
use crate::text::{text_eq, decimal_text, decimal_text_injective, i64_to_text};
use vstd::string::StringExecFns;

verus! {

/// Bus target of block proposals, read by the consensus engine.
pub open spec fn proposal_target() -> Seq<char> {
    "block_proposal"@
}

/// Bus target of finalized blocks, sent by the consensus engine and read by storage.
pub open spec fn finalized_target() -> Seq<char> {
    "block_finalized"@
}

/// Seconds between two heartbeats of the transaction manager.
pub const HEARTBEAT_SECS: u64 = 8;

// ---------------------------------------------------------------- consensus

/// Whether the consensus engine takes up a bus message with this target.
pub fn is_block_proposal(target: &str) -> (r: bool)
    ensures
        r == (target@ == proposal_target()),
{
    text_eq(target, "block_proposal")
}

/// The consensus verdict on a proposal whose neural vote came out `approved`: an
/// approved block is sent on, unchanged, to the finalized-block target; a rejected
/// one is sent nowhere.
pub fn consensus_decide(approved: bool, data: Vec<u8>) -> (out: Option<(String, Vec<u8>)>)
    ensures
        approved ==> (out matches Some((t, d)) && t@ == finalized_target() && d@ == data@),
        !approved ==> out is None,
{
    if approved {
        Some(("block_finalized".to_owned(), data))
    } else {
        None
    }
}

// ---------------------------------------------------------------- storage

/// Whether the storage manager takes up a bus message with this target.
pub fn is_finalized_block(target: &str) -> (r: bool)
    ensures
        r == (target@ == finalized_target()),
{
    text_eq(target, "block_finalized")
}

/// Path of the file that stores a block finalized at Unix time `timestamp`.
pub open spec fn block_file_path(timestamp: int) -> Seq<char> {
    "chaindata/blocks/block_"@ + decimal_text(timestamp) + ".blk"@
}

/// `chaindata/blocks/block_{timestamp}.blk`.
pub fn block_file_name(timestamp: i64) -> (path: String)
    ensures
        path@ == block_file_path(timestamp as int),
{
    let prefix = "chaindata/blocks/block_".to_owned();
    let digits = i64_to_text(timestamp);
    prefix.concat(digits.as_str()).concat(".blk")
}

/// The storage manager's plan for a bus message received at Unix time `now`: for a
/// finalized block, the file named after `now`; for any other target, nothing.
pub fn storage_plan_at(target: &str, now: i64) -> (path: Option<String>)
    ensures
        target@ == finalized_target() ==> (path matches Some(p) && p@ == block_file_path(now as int)),
        target@ != finalized_target() ==> path is None,
{
    if is_finalized_block(target) {
        Some(block_file_name(now))
    } else {
        None
    }
}

/// Blocks stored at different seconds go to different files, and each file name
/// gives back its second: the block path is one-to-one in the timestamp.
pub proof fn block_paths_distinct(t1: int, t2: int)
    ensures
        t1 != t2 ==> block_file_path(t1) != block_file_path(t2),
{
    if block_file_path(t1) == block_file_path(t2) {
        let prefix = "chaindata/blocks/block_"@;
        let suffix = ".blk"@;
        let p1 = block_file_path(t1);
        assert(decimal_text(t1) =~= p1.subrange(prefix.len() as int, p1.len() - suffix.len()));
        assert(decimal_text(t2) =~= p1.subrange(prefix.len() as int, p1.len() - suffix.len()));
        decimal_text_injective(t1, t2);
    }
}

/// The current Unix time in seconds (`chrono::Utc::now().timestamp()`). Nothing is
/// stated of it: it is the clock's reading.
#[verifier::external_body]
fn unix_now() -> i64 {
    chrono::Utc::now().timestamp()
}

/// The storage manager's plan for a bus message: for a finalized block, the file to
/// write it to, named after the current time; for any other target, nothing.
pub fn storage_plan_now(target: &str) -> (path: Option<String>)
    ensures
        path is Some <==> target@ == finalized_target(),
        path matches Some(p) ==> exists|t: i64| #[trigger] block_file_path(t as int) == p@,
{
    if is_finalized_block(target) {
        let now = unix_now();
        let planned = storage_plan_at(target, now);
        assert(planned matches Some(p) && block_file_path(now as int) == p@);
        planned
    } else {
        None
    }
}

/// A finalized block is taken up by storage and not by consensus again: the target
/// that consensus sends approved blocks to is the one storage reads, and it is not
/// the proposal target.
pub proof fn finalized_target_differs_from_proposals()
    ensures
        finalized_target() != proposal_target(),
{
    assert(finalized_target().len() != proposal_target().len()) by {
        reveal_strlit("block_finalized");
        reveal_strlit("block_proposal");
    }
}

// ---------------------------------------------------------------- security

/// Violations at which a peer is banned.
pub const BAN_THRESHOLD: u8 = 4;

/// The peer that anomalies are charged to while the sender is not known.
pub open spec fn anomaly_peer() -> Seq<char> {
    "unknown_peer"@
}

/// The name under which the security manager records anomalies.
pub fn anomaly_peer_name() -> (s: String)
    ensures
        s@ == anomaly_peer(),
{
    "unknown_peer".to_owned()
}

/// The map from peer to count that a list of distinct entries stands for.
pub open spec fn entries_map(s: Seq<(Seq<char>, u8)>) -> Map<Seq<char>, u8>
    decreases s.len(),
{
    if s.len() == 0 {
        Map::empty()
    } else {
        entries_map(s.drop_last()).insert(s.last().0, s.last().1)
    }
}

/// No peer occurs twice in the entries.
pub open spec fn distinct_keys(s: Seq<(Seq<char>, u8)>) -> bool {
    forall|i: int, j: int| 0 <= i < s.len() && 0 <= j < s.len() && i != j ==> s[i].0 != s[j].0
}

/// The violations recorded against `peer` in `m` (none if absent).
pub open spec fn violations_of(m: Map<Seq<char>, u8>, peer: Seq<char>) -> int {
    if m.dom().contains(peer) {
        m[peer] as int
    } else {
        0
    }
}

/// `m` after one more violation of `peer`.
pub open spec fn after_violation(m: Map<Seq<char>, u8>, peer: Seq<char>) -> Map<Seq<char>, u8> {
    m.insert(peer, (violations_of(m, peer) + 1) as u8)
}

/// What the security manager concludes from a peer's violation count.
pub enum Verdict {
    /// The peer is banned for good; it has this many violations.
    Banned { violations: u8 },
    /// The peer is warned; it has this many violations, fewer than the threshold.
    Warned { violations: u8 },
}

/// The verdict for a peer with `count` violations.
pub open spec fn verdict_for(count: u8) -> Verdict {
    if count >= BAN_THRESHOLD {
        Verdict::Banned { violations: count }
    } else {
        Verdict::Warned { violations: count }
    }
}

proof fn lemma_entries_map_lookup(s: Seq<(Seq<char>, u8)>, i: int)
    requires
        distinct_keys(s),
        0 <= i < s.len(),
    ensures
        entries_map(s).dom().contains(s[i].0),
        entries_map(s)[s[i].0] == s[i].1,
    decreases s.len(),
{
    if i < s.len() - 1 {
        lemma_entries_map_lookup(s.drop_last(), i);
    }
}

proof fn lemma_entries_map_absent(s: Seq<(Seq<char>, u8)>, k: Seq<char>)
    requires
        forall|i: int| 0 <= i < s.len() ==> s[i].0 != k,
    ensures
        !entries_map(s).dom().contains(k),
    decreases s.len(),
{
    if s.len() > 0 {
        lemma_entries_map_absent(s.drop_last(), k);
    }
}

proof fn lemma_entries_map_update(s: Seq<(Seq<char>, u8)>, i: int, v: u8)
    requires
        distinct_keys(s),
        0 <= i < s.len(),
    ensures
        entries_map(s.update(i, (s[i].0, v))) == entries_map(s).insert(s[i].0, v),
    decreases s.len(),
{
    let t = s.update(i, (s[i].0, v));
    if i == s.len() - 1 {
        assert(t.drop_last() =~= s.drop_last());
        lemma_entries_map_absent(s.drop_last(), s[i].0);
        assert(entries_map(t) =~= entries_map(s).insert(s[i].0, v));
    } else {
        assert(t.drop_last() =~= s.drop_last().update(i, (s[i].0, v)));
        lemma_entries_map_update(s.drop_last(), i, v);
        assert(entries_map(t) =~= entries_map(s).insert(s[i].0, v));
    }
}

/// Per-peer violation counts of the security manager.
pub struct ViolationLog {
    entries: Vec<(String, u8)>,
}

impl ViolationLog {
    /// The entries as peer texts and counts.
    closed spec fn key_seq(self) -> Seq<(Seq<char>, u8)> {
        self.entries@.map_values(|e: (String, u8)| (e.0@, e.1))
    }

    #[verifier::type_invariant]
    closed spec fn wf(self) -> bool {
        distinct_keys(self.key_seq())
    }

    /// The counts, by peer.
    pub closed spec fn counts(&self) -> Map<Seq<char>, u8> {
        entries_map(self.key_seq())
    }

    /// A log with no violations.
    pub fn new() -> (log: ViolationLog)
        ensures
            log.counts() == Map::<Seq<char>, u8>::empty(),
    {
        let log = ViolationLog { entries: Vec::new() };
        assert(log.key_seq() =~= Seq::<(Seq<char>, u8)>::empty());
        log
    }

    /// Where `peer` stands in the entries, if it has any.
    fn find(&self, peer: &str) -> (r: Option<usize>)
        ensures
            r matches Some(i) ==> i < self.key_seq().len() && self.key_seq()[i as int].0 == peer@,
            r is None ==> forall|i: int| 0 <= i < self.key_seq().len() ==> self.key_seq()[i].0 != peer@,
    {
        let n = self.entries.len();
        for i in 0..n
            invariant
                n == self.entries@.len(),
                self.key_seq().len() == n,
                forall|j: int| 0 <= j < i ==> self.key_seq()[j].0 != peer@,
        {
            if text_eq(self.entries[i].0.as_str(), peer) {
                return Some(i);
            }
        }
        None
    }

    /// The number of violations recorded against `peer`.
    pub fn violations(&self, peer: &str) -> (n: u8)
        ensures
            n == violations_of(self.counts(), peer@),
    {
        proof {
            use_type_invariant(self);
        }
        match self.find(peer) {
            Some(i) => {
                proof {
                    lemma_entries_map_lookup(self.key_seq(), i as int);
                }
                self.entries[i].1
            },
            None => {
                proof {
                    lemma_entries_map_absent(self.key_seq(), peer@);
                }
                0
            },
        }
    }

    /// Records one more violation of `peer` and returns the verdict on it: banned from
    /// `BAN_THRESHOLD` violations on, warned below. The count is a `u8`, so a peer
    /// with 255 violations cannot take another (`requires`).
    pub fn record_violation(&mut self, peer: &str) -> (v: Verdict)
        requires
            violations_of(old(self).counts(), peer@) < 255,
        ensures
            final(self).counts() == after_violation(old(self).counts(), peer@),
            v == verdict_for((violations_of(old(self).counts(), peer@) + 1) as u8),
    {
        proof {
            use_type_invariant(&*self);
        }
        let ghost before = self.key_seq();
        let count: u8;
        match self.find(peer) {
            Some(i) => {
                proof {
                    lemma_entries_map_lookup(before, i as int);
                }
                let c = self.entries[i].1 + 1;
                let name = self.entries[i].0.clone();
                let mut entries: Vec<(String, u8)> = Vec::new();
                std::mem::swap(&mut entries, &mut self.entries);
                entries.set(i, (name, c));
                proof {
                    lemma_entries_map_update(before, i as int, c);
                    assert(entries@.map_values(|e: (String, u8)| (e.0@, e.1)) =~= before.update(
                        i as int,
                        (before[i as int].0, c),
                    ));
                }
                self.entries = entries;
                count = c;
            },
            None => {
                proof {
                    lemma_entries_map_absent(before, peer@);
                }
                let mut entries: Vec<(String, u8)> = Vec::new();
                std::mem::swap(&mut entries, &mut self.entries);
                entries.push((peer.to_owned(), 1u8));
                proof {
                    let after = entries@.map_values(|e: (String, u8)| (e.0@, e.1));
                    assert(after =~= before.push((peer@, 1u8)));
                    assert(after.drop_last() =~= before);
                }
                self.entries = entries;
                count = 1;
            },
        }
        if count >= BAN_THRESHOLD {
            Verdict::Banned { violations: count }
        } else {
            Verdict::Warned { violations: count }
        }
    }
}

/// A ban is for good: recording a violation of any peer never lowers the count of
/// any peer, so a peer at or over the threshold stays there.
pub proof fn violations_never_decrease(m: Map<Seq<char>, u8>, charged: Seq<char>, other: Seq<char>)
    requires
        violations_of(m, charged) < 255,
    ensures
        violations_of(after_violation(m, charged), other) >= violations_of(m, other),
        violations_of(m, other) >= BAN_THRESHOLD ==> violations_of(after_violation(m, charged), other)
            >= BAN_THRESHOLD,
{
}

/// Recording a violation adds exactly one to the charged peer and leaves every other
/// peer's count as it was.
pub proof fn violation_counts_one(m: Map<Seq<char>, u8>, charged: Seq<char>, other: Seq<char>)
    requires
        violations_of(m, charged) < 255,
    ensures
        violations_of(after_violation(m, charged), charged) == violations_of(m, charged) + 1,
        other != charged ==> violations_of(after_violation(m, charged), other) == violations_of(m, other),
{
}

/// The counts after `n` violations of `peer`, starting from `m`.
pub open spec fn after_violations(m: Map<Seq<char>, u8>, peer: Seq<char>, n: nat) -> Map<Seq<char>, u8>
    decreases n,
{
    if n == 0 {
        m
    } else {
        after_violation(after_violations(m, peer, (n - 1) as nat), peer)
    }
}

/// Every anomaly is charged to one peer: starting from an empty log, `n` violations
/// of `peer` (at most 255, the most a count holds) leave exactly that peer with count
/// `n`, and the `k`-th of them is answered with a ban exactly when `k` is at least
/// the threshold.
pub proof fn repeated_violations_of_one_peer(peer: Seq<char>, n: nat)
    requires
        n <= 255,
    ensures
        n == 0 ==> after_violations(Map::empty(), peer, n) == Map::<Seq<char>, u8>::empty(),
        n > 0 ==> after_violations(Map::empty(), peer, n) == Map::<Seq<char>, u8>::empty().insert(
            peer,
            n as u8,
        ),
        violations_of(after_violations(Map::empty(), peer, n), peer) == n,
        n > 0 ==> (verdict_for(n as u8) is Banned <==> n >= BAN_THRESHOLD),
    decreases n,
{
    if n > 1 {
        repeated_violations_of_one_peer(peer, (n - 1) as nat);
        assert(after_violations(Map::empty(), peer, n) =~= Map::<Seq<char>, u8>::empty().insert(
            peer,
            n as u8,
        ));
    } else if n == 1 {
        assert(after_violations(Map::empty(), peer, 0) == Map::<Seq<char>, u8>::empty());
        assert(after_violations(Map::empty(), peer, n) =~= Map::<Seq<char>, u8>::empty().insert(
            peer,
            n as u8,
        ));
    }
}

} // verus!
