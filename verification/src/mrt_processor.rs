//! The processor: the sessions of all peers, a table dump to start from,
//! update files to apply, and the hold-timer check after each of them.

use vstd::prelude::*;
use std::collections::BTreeMap;
use vstd::relations::injective_on;
use vstd::set_lib::lemma_map_size;
use vstd::std_specs::iter::IteratorSpec;
use crate::address::{is_peer_key, IpAddress, PeerKey};
use crate::bgp_state::{BgpKitStateExt, ConnectionState, PeerSession, PeerSessionView};
use crate::error::ProcessError;
use crate::models::{Bgp4MpEnum, BgpElem, BgpMessage, MrtMessage, MrtRecord};
use crate::timestamp::{advance, Timestamp};
use crate::util::mrt_record_ts;

verus! {

/// Who a session is with: the peer's address and the number of its
/// autonomous system.
#[derive(Debug, Clone, Copy, PartialEq, Eq, Hash, Structural)]
pub struct BgpPeer {
    /// IP address of the peer
    pub address: IpAddress,
    /// AS-number in 4 bytes
    pub peer_as: u32,
}

impl BgpPeer {
    /// The key under which the processor holds the peer's session.
    pub open spec fn key(self) -> PeerKey {
        (self.address.family(), self.address.bits(), self.peer_as)
    }

    /// The peer whose session the processor holds under `key`, where `key`
    /// is the key of a peer.
    pub open spec fn of_key(key: PeerKey) -> BgpPeer {
        BgpPeer { address: IpAddress::of_parts(key.0, key.1), peer_as: key.2 }
    }

    /// The peer that sent `elem`.
    pub fn from_elem(elem: &BgpElem) -> (peer: BgpPeer)
        ensures
            peer == (BgpPeer { address: elem.peer_ip, peer_as: elem.peer_asn }),
    {
        BgpPeer { address: elem.peer_ip, peer_as: elem.peer_asn }
    }

    /// The key under which the processor holds the peer's session.
    pub fn to_key(&self) -> (k: PeerKey)
        ensures
            k == self.key(),
            is_peer_key(k),
    {
        let (family, bits) = self.address.parts();
        (family, bits, self.peer_as)
    }

    /// The peer whose session the processor holds under `key`, if `key` is
    /// the key of a peer.
    pub fn from_key(key: PeerKey) -> (peer: Option<BgpPeer>)
        ensures
            peer == if is_peer_key(key) {
                Some(BgpPeer::of_key(key))
            } else {
                None
            },
    {
        match IpAddress::from_parts(key.0, key.1) {
            Some(address) => Some(BgpPeer { address, peer_as: key.2 }),
            None => None,
        }
    }
}

/// Two peers with the same key are the same peer.
pub proof fn lemma_peer_key_is_injective(p: BgpPeer, q: BgpPeer)
    requires
        p.key() == q.key(),
    ensures
        p == q,
{
}

/// Peers and their keys stand for each other: the key of a peer is the key
/// of a peer and gives the peer back, and a key of a peer is the key of the
/// peer that it gives.
pub proof fn lemma_peer_and_key(p: BgpPeer, key: PeerKey)
    ensures
        is_peer_key(p.key()),
        BgpPeer::of_key(p.key()) == p,
        is_peer_key(key) ==> BgpPeer::of_key(key).key() == key,
{
}

/// The session that `sessions` holds for `peer`; a new one where it holds
/// none.
pub open spec fn session_of(
    sessions: Map<BgpPeer, PeerSessionView>,
    peer: BgpPeer,
) -> PeerSessionView {
    if sessions.contains_key(peer) {
        sessions[peer]
    } else {
        PeerSessionView::initial()
    }
}

/// The session after the elements of `elems`, one after the other.
pub open spec fn apply_elems(session: PeerSessionView, elems: Seq<BgpElem>) -> PeerSessionView
    decreases elems.len(),
{
    if elems.len() == 0 {
        session
    } else {
        apply_elems(session, elems.drop_last()).apply_elem(elems.last())
    }
}

/// The sessions after one element of a table dump: the element is applied
/// to the session of the peer that it names.
pub open spec fn load_elem(
    sessions: Map<BgpPeer, PeerSessionView>,
    elem: BgpElem,
) -> Map<BgpPeer, PeerSessionView> {
    let peer = BgpPeer { address: elem.peer_ip, peer_as: elem.peer_asn };
    sessions.insert(peer, session_of(sessions, peer).apply_elem(elem))
}

/// The sessions after the elements of a table dump, one after the other.
pub open spec fn load_elems(
    sessions: Map<BgpPeer, PeerSessionView>,
    elems: Seq<BgpElem>,
) -> Map<BgpPeer, PeerSessionView>
    decreases elems.len(),
{
    if elems.len() == 0 {
        sessions
    } else {
        load_elem(load_elems(sessions, elems.drop_last()), elems.last())
    }
}

/// The session after a message that was received at `ts`.
pub open spec fn apply_message(
    session: PeerSessionView,
    ts: Timestamp,
    message: BgpMessage,
) -> PeerSessionView {
    match message {
        BgpMessage::Open(open) => session.open_message(ts, open),
        BgpMessage::Update(elems) => apply_elems(session, elems@),
        BgpMessage::KeepAlive => session.update_last_message_timestamp(ts),
        BgpMessage::Notification => session.update_connection_state(ts, ConnectionState::Idle),
    }
}

/// The sessions after one session record that was written at `ts`: a
/// message is applied to the session of the peer that sent it, a state
/// change moves the session of the peer that it names.
pub open spec fn apply_session_record(
    sessions: Map<BgpPeer, PeerSessionView>,
    ts: Timestamp,
    record: Bgp4MpEnum,
) -> Map<BgpPeer, PeerSessionView> {
    match record {
        Bgp4MpEnum::Message(msg) => {
            let peer = BgpPeer { address: msg.peer_ip, peer_as: msg.peer_asn };
            sessions.insert(peer, apply_message(session_of(sessions, peer), ts, msg.bgp_message))
        },
        Bgp4MpEnum::StateChange(change) => {
            let peer = BgpPeer { address: change.peer_addr, peer_as: change.peer_asn };
            sessions.insert(
                peer,
                session_of(sessions, peer).update_connection_state(
                    ts,
                    change.new_state.connection_state(),
                ),
            )
        },
    }
}

/// The sessions after one record of an update file, at the time of its
/// header. A record of a table dump leaves them as they are.
pub open spec fn apply_record(
    sessions: Map<BgpPeer, PeerSessionView>,
    record: MrtRecord,
) -> Map<BgpPeer, PeerSessionView> {
    match record.message {
        MrtMessage::Bgp4Mp(session_record) => apply_session_record(
            sessions,
            record.common_header.time(),
            session_record,
        ),
        MrtMessage::TableDump => sessions,
    }
}

/// The sessions after the records of `records`, one after the other.
pub open spec fn apply_records(
    sessions: Map<BgpPeer, PeerSessionView>,
    records: Seq<MrtRecord>,
) -> Map<BgpPeer, PeerSessionView>
    decreases records.len(),
{
    if records.len() == 0 {
        sessions
    } else {
        apply_record(apply_records(sessions, records.drop_last()), records.last())
    }
}

/// The latest time among the records; none where there is no record.
pub open spec fn latest_time(records: Seq<MrtRecord>) -> Option<Timestamp>
    decreases records.len(),
{
    if records.len() == 0 {
        None
    } else {
        Some(advance(latest_time(records.drop_last()), records.last().common_header.time()))
    }
}

/// The number of records at the head of `records` that an update file may
/// hold: the length of `records`, or the place of its first record of a
/// table dump.
pub open spec fn leading_session_records(records: Seq<MrtRecord>) -> int
    decreases records.len(),
{
    if records.len() == 0 {
        0
    } else if records[0].message is Bgp4Mp {
        1 + leading_session_records(records.drop_first())
    } else {
        0
    }
}

/// The sessions after the hold-timer check at `batch_ts`: every session
/// whose timer has run out has gone idle.
pub open spec fn expire_sessions(
    sessions: Map<BgpPeer, PeerSessionView>,
    batch_ts: Timestamp,
    default_hold_time: u16,
    multiple: Option<u16>,
) -> Map<BgpPeer, PeerSessionView> {
    sessions.map_values(|s: PeerSessionView| s.expire(batch_ts, default_hold_time, multiple))
}

/// The sessions after the check that ends an update file: the hold-timer
/// check at the latest time of the file, or nothing for a file without
/// records.
pub open spec fn expire_after(
    sessions: Map<BgpPeer, PeerSessionView>,
    batch_ts: Option<Timestamp>,
    default_hold_time: u16,
    multiple: Option<u16>,
) -> Map<BgpPeer, PeerSessionView> {
    match batch_ts {
        Some(ts) => expire_sessions(sessions, ts, default_hold_time, multiple),
        None => sessions,
    }
}

/// What a processor is, as the contracts speak of it.
pub struct MrtProcessorView {
    /// The session of each peer that was heard of.
    pub sessions: Map<BgpPeer, PeerSessionView>,
    pub send_hold_time_multiple: Option<u16>,
    pub default_hold_time: u16,
}

/// Follows the sessions of many peers through a table dump and the update
/// files after it.
pub struct MrtProcessor {
    current_state: BTreeMap<PeerKey, PeerSession>,
    send_hold_time_multiple: Option<u16>,
    default_hold_time: u16,
}

/// The sessions by their peers, each as the contracts speak of it, where
/// the map holds them by the keys of their peers.
pub open spec fn session_views(
    sessions: Map<PeerKey, PeerSession>,
) -> Map<BgpPeer, PeerSessionView> {
    Map::new(
        |peer: BgpPeer| sessions.contains_key(peer.key()),
        |peer: BgpPeer| sessions[peer.key()]@,
    )
}

/// A map that holds its sessions by the keys of peers holds as many
/// sessions as it holds peers.
proof fn lemma_session_views_len(sessions: Map<PeerKey, PeerSession>)
    requires
        sessions.dom().finite(),
        forall|key: PeerKey| sessions.contains_key(key) ==> is_peer_key(key),
    ensures
        session_views(sessions).dom().finite(),
        session_views(sessions).len() == sessions.len(),
{
    let peer_of = |key: PeerKey| BgpPeer::of_key(key);
    assert(injective_on(peer_of, sessions.dom())) by {
        assert forall|a: PeerKey, b: PeerKey|
            sessions.dom().contains(a) && sessions.dom().contains(b) && #[trigger] peer_of(a)
                == #[trigger] peer_of(b) implies a == b by {
            lemma_peer_and_key(BgpPeer::of_key(a), a);
            lemma_peer_and_key(BgpPeer::of_key(b), b);
        }
    }
    assert(sessions.dom().map(peer_of) =~= session_views(sessions).dom()) by {
        assert forall|peer: BgpPeer|
            sessions.dom().map(peer_of).contains(peer) implies session_views(
            sessions,
        ).dom().contains(peer) by {
            let key = choose|key: PeerKey| sessions.dom().contains(key) && peer == peer_of(key);
            lemma_peer_and_key(peer, key);
        }
    }
    lemma_map_size(sessions.dom(), session_views(sessions).dom(), peer_of);
}

impl View for MrtProcessor {
    type V = MrtProcessorView;

    closed spec fn view(&self) -> MrtProcessorView {
        MrtProcessorView {
            sessions: session_views(self.current_state@),
            send_hold_time_multiple: self.send_hold_time_multiple,
            default_hold_time: self.default_hold_time,
        }
    }
}

impl MrtProcessor {
    /// Every key of the map of sessions is the key of a peer.
    #[verifier::type_invariant]
    spec fn keys_are_peers(self) -> bool {
        forall|key: PeerKey| self.current_state@.contains_key(key) ==> is_peer_key(key)
    }

    /// A processor without sessions. `default_hold_time` stands in, in
    /// seconds, for a session that never sent an open message;
    /// `send_hold_time_multiple` is how many hold times a session may stay
    /// silent, once where it is `None`.
    pub fn new(default_hold_time: u16, send_hold_time_multiple: Option<u16>) -> (p: MrtProcessor)
        ensures
            p@ == (MrtProcessorView {
                sessions: Map::empty(),
                send_hold_time_multiple,
                default_hold_time,
            }),
    {
        let p = MrtProcessor {
            current_state: BTreeMap::new(),
            send_hold_time_multiple,
            default_hold_time,
        };
        assert(session_views(p.current_state@) =~= Map::empty());
        p
    }

    /// A processor with a default hold time of 180 seconds and no multiple.
    pub fn default() -> (p: MrtProcessor)
        ensures
            p@ == (MrtProcessorView {
                sessions: Map::empty(),
                send_hold_time_multiple: None,
                default_hold_time: 180,
            }),
    {
        MrtProcessor::new(180, None)
    }

    /// The sessions, by the key of their peer. Each key is the key of a
    /// peer.
    pub fn get_current_state(&self) -> (sessions: &BTreeMap<PeerKey, PeerSession>)
        ensures
            session_views(sessions@) == self@.sessions,
            forall|key: PeerKey| sessions@.contains_key(key) ==> is_peer_key(key),
    {
        proof {
            use_type_invariant(self);
        }
        &self.current_state
    }

    /// The session with `peer`, if the peer was heard of.
    pub fn session(&self, peer: &BgpPeer) -> (found: Option<&PeerSession>)
        ensures
            found is Some <==> self@.sessions.contains_key(*peer),
            found matches Some(session) ==> session@ == self@.sessions[*peer],
    {
        let key = peer.to_key();
        self.current_state.get(&key)
    }

    /// The number of peers that were heard of.
    pub fn peer_count(&self) -> (count: usize)
        ensures
            count == self@.sessions.len(),
    {
        proof {
            use_type_invariant(self);
            lemma_session_views_len(self.current_state@);
        }
        self.current_state.len()
    }

    /// Takes the session of `peer` out of the map; a new one where the map
    /// holds none.
    fn take_session(&mut self, peer: BgpPeer) -> (session: PeerSession)
        ensures
            session@ == session_of(old(self)@.sessions, peer),
            final(self).current_state@ == old(self).current_state@.remove(peer.key()),
            final(self).send_hold_time_multiple == old(self).send_hold_time_multiple,
            final(self).default_hold_time == old(self).default_hold_time,
    {
        proof {
            use_type_invariant(&*self);
        }
        let key = peer.to_key();
        let mut sessions = BTreeMap::new();
        core::mem::swap(&mut self.current_state, &mut sessions);
        let session = match sessions.remove(&key) {
            Some(session) => session,
            None => PeerSession::new(),
        };
        core::mem::swap(&mut self.current_state, &mut sessions);
        session
    }

    /// Puts the session of `peer` into the map.
    fn put_session(&mut self, peer: BgpPeer, session: PeerSession)
        ensures
            final(self).current_state@ == old(self).current_state@.insert(peer.key(), session),
            final(self).send_hold_time_multiple == old(self).send_hold_time_multiple,
            final(self).default_hold_time == old(self).default_hold_time,
    {
        proof {
            use_type_invariant(&*self);
        }
        let key = peer.to_key();
        let mut sessions = BTreeMap::new();
        core::mem::swap(&mut self.current_state, &mut sessions);
        sessions.insert(key, session);
        core::mem::swap(&mut self.current_state, &mut sessions);
    }
}

impl MrtProcessor {
    /// Loads a table dump: forgets every session, then applies the elements
    /// in their order, each to the session of the peer that it names.
    pub fn process_bview(&mut self, elems: Vec<BgpElem>)
        ensures
            final(self)@ == (MrtProcessorView {
                sessions: load_elems(Map::empty(), elems@),
                ..old(self)@
            }),
    {
        self.current_state = BTreeMap::new();
        let ghost all = elems@;
        let ghost start = self@;
        assert(start.sessions =~= Map::empty());
        for elem in it: elems.into_iter()
            invariant
                it.seq() == all,
                self@ == (MrtProcessorView {
                    sessions: load_elems(Map::empty(), all.take(it.index() as int)),
                    ..start
                }),
        {
            let ghost before = self.current_state@;
            let ghost done = it.index() as int;
            let peer = BgpPeer::from_elem(&elem);
            let mut session = self.take_session(peer);
            session.apply_elem(elem);
            self.put_session(peer, session);
            proof {
                lemma_put_back(before, peer, session);
                assert(all.take(done + 1).drop_last() == all.take(done));
            }
        }
        assert(all.take(all.len() as int) == all);
    }
}

/// Applies the elements of an update to `session`, in their order.
fn apply_update(session: &mut PeerSession, elems: Vec<BgpElem>)
    ensures
        final(session)@ == apply_elems(old(session)@, elems@),
{
    let ghost all = elems@;
    let ghost start = session@;
    for elem in it: elems.into_iter()
        invariant
            it.seq() == all,
            session@ == apply_elems(start, all.take(it.index() as int)),
    {
        let ghost done = it.index() as int;
        session.apply_elem(elem);
        proof {
            assert(all.take(done + 1).drop_last() == all.take(done));
        }
    }
    assert(all.take(all.len() as int) == all);
}

/// Applies a message that was received at `ts` to `session`.
pub fn apply_bgp_message(session: &mut PeerSession, ts: Timestamp, message: BgpMessage)
    ensures
        final(session)@ == apply_message(old(session)@, ts, message),
{
    match message {
        BgpMessage::Open(open) => {
            session.open_message(ts, open);
        },
        BgpMessage::Update(elems) => {
            apply_update(session, elems);
        },
        BgpMessage::KeepAlive => {
            session.update_last_message_timestamp(ts);
        },
        BgpMessage::Notification => {
            session.update_connection_state(ts, ConnectionState::Idle);
        },
    }
}

impl MrtProcessor {
    /// Applies one session record that was written at `ts`.
    pub fn process_session_record(&mut self, ts: Timestamp, record: Bgp4MpEnum)
        ensures
            final(self)@ == (MrtProcessorView {
                sessions: apply_session_record(old(self)@.sessions, ts, record),
                ..old(self)@
            }),
    {
        let ghost before = self.current_state@;
        match record {
            Bgp4MpEnum::Message(msg) => {
                let peer = BgpPeer { address: msg.peer_ip, peer_as: msg.peer_asn };
                let mut session = self.take_session(peer);
                apply_bgp_message(&mut session, ts, msg.bgp_message);
                self.put_session(peer, session);
                proof {
                    lemma_put_back(before, peer, session);
                }
            },
            Bgp4MpEnum::StateChange(change) => {
                let peer = BgpPeer { address: change.peer_addr, peer_as: change.peer_asn };
                let mut session = self.take_session(peer);
                session.update_connection_state(ts, change.new_state.to_connection_state());
                self.put_session(peer, session);
                proof {
                    lemma_put_back(before, peer, session);
                }
            },
        }
    }
}

impl MrtProcessor {
    /// The keys of all sessions, each once.
    fn peer_keys(&self) -> (keys: Vec<PeerKey>)
        ensures
            keys@.no_duplicates(),
            forall|k: PeerKey| keys@.contains(k) <==> self.current_state@.contains_key(k),
            forall|k: PeerKey| keys@.contains(k) ==> is_peer_key(k),
    {
        proof {
            use_type_invariant(self);
        }
        let mut keys: Vec<PeerKey> = Vec::new();
        let ghost all = self.current_state.keys().remaining();
        proof {
            vstd::std_specs::btree::axiom_spec_keys_iter(&self.current_state);
        }
        for key in it: self.current_state.keys()
            invariant
                it.seq() == all,
                keys@ == all.take(it.index() as int).unref(),
        {
            keys.push(*key);
        }
        proof {
            assert(keys@ == all.unref());
        }
        keys
    }

    /// The hold-timer check at `batch_ts`: every session whose timer has run
    /// out goes idle at that time, and so loses its routes.
    pub fn expire_silent_peers(&mut self, batch_ts: Timestamp)
        ensures
            final(self)@ == (MrtProcessorView {
                sessions: expire_sessions(
                    old(self)@.sessions,
                    batch_ts,
                    old(self)@.default_hold_time,
                    old(self)@.send_hold_time_multiple,
                ),
                ..old(self)@
            }),
    {
        let keys = self.peer_keys();
        let ghost before = self.current_state@;
        let default_hold_time = self.default_hold_time;
        let multiple = self.send_hold_time_multiple;
        let mut i: usize = 0;
        while i < keys.len()
            invariant
                i <= keys.len(),
                keys@.no_duplicates(),
                forall|k: PeerKey| keys@.contains(k) <==> before.contains_key(k),
                forall|k: PeerKey| keys@.contains(k) ==> is_peer_key(k),
                self.default_hold_time == default_hold_time,
                self.send_hold_time_multiple == multiple,
                self.current_state@.dom() == before.dom(),
                forall|j: int|
                    0 <= j < i ==> (#[trigger] self.current_state@[keys@[j]])@
                        == before[keys@[j]]@.expire(batch_ts, default_hold_time, multiple),
                forall|j: int|
                    i <= j < keys@.len() ==> #[trigger] self.current_state@[keys@[j]]
                        == before[keys@[j]],
            decreases keys.len() - i,
        {
            let key = keys[i];
            let expired = match self.current_state.get(&key) {
                Some(session) => session.hold_timer_expired(batch_ts, default_hold_time, multiple),
                None => false,
            };
            if expired {
                if let Some(peer) = BgpPeer::from_key(key) {
                    proof {
                        lemma_peer_and_key(peer, key);
                    }
                    let mut session = self.take_session(peer);
                    session.update_connection_state(batch_ts, ConnectionState::Idle);
                    self.put_session(peer, session);
                }
            }
            i = i + 1;
        }
        proof {
            let expired = expire_sessions(
                session_views(before),
                batch_ts,
                default_hold_time,
                multiple,
            );
            assert forall|k: PeerKey| before.contains_key(k) implies (
            #[trigger] self.current_state@[k])@ == before[k]@.expire(
                batch_ts,
                default_hold_time,
                multiple,
            ) by {
                let j = choose|j: int| 0 <= j < keys@.len() && keys@[j] == k;
                assert(self.current_state@[keys@[j]]@ == before[keys@[j]]@.expire(
                    batch_ts,
                    default_hold_time,
                    multiple,
                ));
            }
            assert(session_views(self.current_state@) =~= expired);
        }
    }
}

impl MrtProcessor {
    /// Applies an update file: its records in their order, then the
    /// hold-timer check at the latest time among them.
    ///
    /// The sessions that are there are kept. A record of a table dump ends
    /// the call with an error that names `file`: what the records before it
    /// did stays done, and no hold timer is checked. A file without records
    /// changes nothing.
    pub fn process_update_file(&mut self, file: &str, records: Vec<MrtRecord>) -> (r: Result<
        (),
        ProcessError,
    >)
        requires
            forall|i: int|
                0 <= i < records@.len() && i <= leading_session_records(records@)
                    ==> records@[i].common_header.has_valid_time(),
        ensures
            final(self)@.send_hold_time_multiple == old(self)@.send_hold_time_multiple,
            final(self)@.default_hold_time == old(self)@.default_hold_time,
            r is Ok <==> leading_session_records(records@) == records@.len(),
            r is Ok ==> final(self)@.sessions == expire_after(
                apply_records(old(self)@.sessions, records@),
                latest_time(records@),
                old(self)@.default_hold_time,
                old(self)@.send_hold_time_multiple,
            ),
            r matches Err(e) ==> {
                &&& e matches ProcessError::WrongFileKind { file: named }
                &&& named@ == file@
                &&& final(self)@.sessions == apply_records(
                    old(self)@.sessions,
                    records@.take(leading_session_records(records@)),
                )
            },
    {
        let ghost all = records@;
        let ghost start = self@;
        let mut last_ts: Option<Timestamp> = None;
        proof {
            lemma_leading_session_records(all);
        }
        for record in it: records.into_iter()
            invariant
                it.seq() == all,
                all == records@,
                start == old(self)@,
                self@ == (MrtProcessorView {
                    sessions: apply_records(start.sessions, all.take(it.index() as int)),
                    ..start
                }),
                last_ts == latest_time(all.take(it.index() as int)),
                it.index() <= leading_session_records(all) <= all.len(),
                forall|i: int|
                    0 <= i < all.len() && i <= leading_session_records(all)
                        ==> all[i].common_header.has_valid_time(),
        {
            let ghost done = it.index() as int;
            proof {
                assert(all.take(done + 1).drop_last() == all.take(done));
            }
            let ts = mrt_record_ts(&record);
            last_ts = match last_ts {
                Some(latest) => Some(latest.max(ts)),
                None => Some(ts),
            };
            match record.message {
                MrtMessage::Bgp4Mp(session_record) => {
                    self.process_session_record(ts, session_record);
                    proof {
                        lemma_leading_session_records(all);
                    }
                },
                MrtMessage::TableDump => {
                    proof {
                        lemma_leading_session_records(all);
                    }
                    return Err(ProcessError::WrongFileKind { file: file.to_owned() });
                },
            }
        }
        proof {
            assert(all.take(all.len() as int) == all);
        }
        match last_ts {
            Some(ts) => {
                self.expire_silent_peers(ts);
            },
            None => {},
        }
        Ok(())
    }
}

/// The records before the place that `leading_session_records` gives are
/// session records, and the record at that place, if there is one, belongs
/// to a table dump.
pub proof fn lemma_leading_session_records(records: Seq<MrtRecord>)
    ensures
        0 <= leading_session_records(records) <= records.len(),
        forall|i: int|
            0 <= i < leading_session_records(records) ==> (#[trigger] records[i]).message is Bgp4Mp,
        leading_session_records(records) < records.len() ==> records[leading_session_records(
            records,
        )].message is TableDump,
    decreases records.len(),
{
    if records.len() > 0 && records[0].message is Bgp4Mp {
        let rest = records.drop_first();
        lemma_leading_session_records(rest);
        assert forall|i: int| 0 <= i < leading_session_records(records) implies (
        #[trigger] records[i]).message is Bgp4Mp by {
            if i > 0 {
                assert(records[i] == rest[i - 1]);
            }
        }
        if leading_session_records(records) < records.len() {
            assert(records[leading_session_records(records)] == rest[leading_session_records(
                rest,
            )]);
        }
    }
}

/// Taking a session out and putting it back changed is an insertion.
proof fn lemma_put_back(
    before: Map<PeerKey, PeerSession>,
    peer: BgpPeer,
    session: PeerSession,
)
    ensures
        session_views(before.remove(peer.key()).insert(peer.key(), session)) == session_views(
            before,
        ).insert(peer, session@),
{
    assert(session_views(before.remove(peer.key()).insert(peer.key(), session))
        =~= session_views(before).insert(peer, session@));
}

/// The hold-timer check looks at each session by itself: it adds no peer
/// and drops none, and each session comes out as its own check leaves it.
pub proof fn lemma_expire_sessions(
    sessions: Map<BgpPeer, PeerSessionView>,
    peer: BgpPeer,
    batch_ts: Timestamp,
    default_hold_time: u16,
    multiple: Option<u16>,
)
    ensures
        expire_sessions(sessions, batch_ts, default_hold_time, multiple).dom() == sessions.dom(),
        sessions.contains_key(peer) ==> expire_sessions(
            sessions,
            batch_ts,
            default_hold_time,
            multiple,
        )[peer] == sessions[peer].expire(batch_ts, default_hold_time, multiple),
{
    assert(expire_sessions(sessions, batch_ts, default_hold_time, multiple).dom()
        =~= sessions.dom());
}

/// An update file drops no peer: every peer that had a session before the
/// records of the file has one after them, and after the hold-timer check.
pub proof fn lemma_update_file_keeps_peers(
    sessions: Map<BgpPeer, PeerSessionView>,
    records: Seq<MrtRecord>,
    default_hold_time: u16,
    multiple: Option<u16>,
    peer: BgpPeer,
)
    requires
        sessions.contains_key(peer),
    ensures
        apply_records(sessions, records).contains_key(peer),
        expire_after(
            apply_records(sessions, records),
            latest_time(records),
            default_hold_time,
            multiple,
        ).contains_key(peer),
    decreases records.len(),
{
    if records.len() > 0 {
        lemma_update_file_keeps_peers(
            sessions,
            records.drop_last(),
            default_hold_time,
            multiple,
            peer,
        );
    }
}

} // verus!
