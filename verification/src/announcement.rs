//! Since when each peer has announced each prefix.

use vstd::prelude::*;
use vstd::set_lib::lemma_set_empty_equivalency_len;
use std::collections::BTreeMap;
use crate::address::{is_address, peer_prefix_key, IpAddress, NetworkPrefix, PeerPrefixKey};
use crate::timestamp::Timestamp;

verus! {

/// A prefix as one peer announces it.
struct PeerPrefix {
    peer_ip: IpAddress,
    prefix: NetworkPrefix,
}

impl PeerPrefix {
    fn new(peer_ip: IpAddress, prefix: NetworkPrefix) -> (p: PeerPrefix)
        ensures
            p.peer_ip == peer_ip,
            p.prefix == prefix,
    {
        PeerPrefix { peer_ip, prefix }
    }

    fn to_key(&self) -> (k: PeerPrefixKey)
        ensures
            k == peer_prefix_key(self.peer_ip, self.prefix),
            is_peer_prefix_key(k),
    {
        let (peer_family, peer_bits) = self.peer_ip.parts();
        let (family, bits, prefix_len, path_id) = self.prefix.to_key();
        (peer_family, peer_bits, family, bits, prefix_len, path_id)
    }
}

/// `key` is the key of a peer's address and a prefix.
pub open spec fn is_peer_prefix_key(key: PeerPrefixKey) -> bool {
    is_address(key.0, key.1) && is_address(key.2, key.3)
}

/// The runs by peer and prefix, where the map holds them by the keys of
/// the two.
pub open spec fn runs_by_peer_and_prefix(runs: Map<PeerPrefixKey, Timestamp>) -> Map<
    (IpAddress, NetworkPrefix),
    Timestamp,
> {
    Map::new(
        |of: (IpAddress, NetworkPrefix)| runs.contains_key(peer_prefix_key(of.0, of.1)),
        |of: (IpAddress, NetworkPrefix)| runs[peer_prefix_key(of.0, of.1)],
    )
}

/// Remembers, for each prefix that a peer announces, since when.
///
/// A run starts with an announcement and ends with the withdrawal of the
/// same prefix by the same peer. What happens to the peer's session in
/// between does not touch it.
pub struct AnnouncementTracker {
    announcement_start: BTreeMap<PeerPrefixKey, Timestamp>,
}

impl View for AnnouncementTracker {
    type V = Map<(IpAddress, NetworkPrefix), Timestamp>;

    /// The start of each run that is going on, by peer and prefix.
    closed spec fn view(&self) -> Map<(IpAddress, NetworkPrefix), Timestamp> {
        runs_by_peer_and_prefix(self.announcement_start@)
    }
}

impl Default for AnnouncementTracker {
    /// A tracker without runs.
    fn default() -> (tracker: AnnouncementTracker)
        ensures
            tracker@ == Map::<(IpAddress, NetworkPrefix), Timestamp>::empty(),
    {
        AnnouncementTracker { announcement_start: BTreeMap::new() }
    }
}

impl AnnouncementTracker {
    /// Every key of the map is the key of a peer's address and a prefix.
    #[verifier::type_invariant]
    spec fn keys_are_peer_prefixes(self) -> bool {
        forall|key: PeerPrefixKey|
            self.announcement_start@.contains_key(key) ==> is_peer_prefix_key(key)
    }

    /// Notes that `peer_ip` announced `prefix` at `ts`, and returns the
    /// start that was noted for the two before, if any. The start that is
    /// kept from now on is `ts` in either case.
    pub fn add_announcement(
        &mut self,
        peer_ip: IpAddress,
        prefix: NetworkPrefix,
        ts: Timestamp,
    ) -> (initial: Option<Timestamp>)
        ensures
            initial == old(self)@.get((peer_ip, prefix)),
            final(self)@ == old(self)@.insert((peer_ip, prefix), ts),
    {
        proof {
            use_type_invariant(&*self);
        }
        let key = PeerPrefix::new(peer_ip, prefix).to_key();
        let mut runs = BTreeMap::new();
        core::mem::swap(&mut self.announcement_start, &mut runs);
        let ghost before = runs@;
        let initial = runs.insert(key, ts);
        assert(runs_by_peer_and_prefix(runs@) =~= runs_by_peer_and_prefix(before).insert(
            (peer_ip, prefix),
            ts,
        ));
        core::mem::swap(&mut self.announcement_start, &mut runs);
        initial
    }

    /// Ends the run of `prefix` from `peer_ip` and returns its start, if
    /// one was going on.
    pub fn withdraw_announcement(
        &mut self,
        peer_ip: IpAddress,
        prefix: NetworkPrefix,
    ) -> (start: Option<Timestamp>)
        ensures
            start == old(self)@.get((peer_ip, prefix)),
            final(self)@ == old(self)@.remove((peer_ip, prefix)),
    {
        proof {
            use_type_invariant(&*self);
        }
        let key = PeerPrefix::new(peer_ip, prefix).to_key();
        let mut runs = BTreeMap::new();
        core::mem::swap(&mut self.announcement_start, &mut runs);
        let ghost before = runs@;
        let start = runs.remove(&key);
        assert(runs_by_peer_and_prefix(runs@) =~= runs_by_peer_and_prefix(before).remove(
            (peer_ip, prefix),
        ));
        core::mem::swap(&mut self.announcement_start, &mut runs);
        start
    }

    /// The start of the run of `prefix` from `peer_ip`, if one is going on.
    pub fn start_of(&self, peer_ip: IpAddress, prefix: NetworkPrefix) -> (start: Option<Timestamp>)
        ensures
            start == self@.get((peer_ip, prefix)),
    {
        let key = PeerPrefix::new(peer_ip, prefix).to_key();
        match self.announcement_start.get(&key) {
            Some(start) => Some(*start),
            None => None,
        }
    }

    /// Whether no run is going on.
    pub fn is_empty(&self) -> (b: bool)
        ensures
            b == (self@ == Map::<(IpAddress, NetworkPrefix), Timestamp>::empty()),
    {
        let b = self.announcement_start.is_empty();
        proof {
            use_type_invariant(self);
            if b {
                assert(self@ =~= Map::<(IpAddress, NetworkPrefix), Timestamp>::empty());
            } else {
                let keys = self.announcement_start@.dom();
                lemma_set_empty_equivalency_len(keys);
                let key = choose|key: PeerPrefixKey| keys.contains(key);
                let peer_ip = IpAddress::of_parts(key.0, key.1);
                let prefix = NetworkPrefix::of_key((key.2, key.3, key.4, key.5));
                assert(is_peer_prefix_key(key));
                assert(self@.contains_key((peer_ip, prefix)));
            }
        }
        b
    }
}

/// A withdrawal after an announcement returns the time of that
/// announcement, whatever was noted before, and leaves no run behind.
pub proof fn lemma_withdrawal_returns_latest_start(
    runs: Map<(IpAddress, NetworkPrefix), Timestamp>,
    peer_ip: IpAddress,
    prefix: NetworkPrefix,
    ts: Timestamp,
)
    ensures
        runs.insert((peer_ip, prefix), ts).get((peer_ip, prefix)) == Some(ts),
        !runs.insert((peer_ip, prefix), ts).remove((peer_ip, prefix)).contains_key(
            (peer_ip, prefix),
        ),
{
}

/// Of a peer and prefix that no run was begun for, a withdrawal returns
/// nothing and changes nothing.
pub proof fn lemma_withdrawal_without_run(
    runs: Map<(IpAddress, NetworkPrefix), Timestamp>,
    peer_ip: IpAddress,
    prefix: NetworkPrefix,
)
    requires
        !runs.contains_key((peer_ip, prefix)),
    ensures
        runs.get((peer_ip, prefix)) == None::<Timestamp>,
        runs.remove((peer_ip, prefix)) == runs,
{
}

/// An announcement or a withdrawal touches the run of its own peer and
/// prefix and no other.
pub proof fn lemma_runs_are_independent(
    runs: Map<(IpAddress, NetworkPrefix), Timestamp>,
    peer_ip: IpAddress,
    prefix: NetworkPrefix,
    ts: Timestamp,
    other_peer: IpAddress,
    other_prefix: NetworkPrefix,
)
    requires
        peer_ip != other_peer || prefix != other_prefix,
    ensures
        runs.insert((peer_ip, prefix), ts).get((other_peer, other_prefix)) == runs.get(
            (other_peer, other_prefix),
        ),
        runs.remove((peer_ip, prefix)).get((other_peer, other_prefix)) == runs.get(
            (other_peer, other_prefix),
        ),
{
}

/// Two keys are the same only where peer and prefix are.
pub proof fn lemma_peer_prefix_key_is_injective(
    peer_a: IpAddress,
    prefix_a: NetworkPrefix,
    peer_b: IpAddress,
    prefix_b: NetworkPrefix,
)
    requires
        peer_prefix_key(peer_a, prefix_a) == peer_prefix_key(peer_b, prefix_b),
    ensures
        peer_a == peer_b,
        prefix_a == prefix_b,
{
}

} // verus!
