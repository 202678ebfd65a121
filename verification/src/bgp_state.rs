//! The session with one peer: its connection state, the time of its last
//! activity, and its route table.

use vstd::prelude::*;
use vstd::string::*;
use std::collections::BTreeMap;
use bgpkit_parser::models::{ElemType, MetaCommunity, OptParam, Origin};
use crate::address::{is_prefix_key, lemma_prefix_and_key, IpAddress, NetworkPrefix, PrefixKey};
use vstd::relations::injective_on;
use vstd::set_lib::lemma_map_size;
use crate::error::{invalid_element_message, ProcessError};
use crate::models::{AsPath, BgpElem, BgpOpenMessage};
use crate::timestamp::{advance, Timestamp};

verus! {

/// The state of a peering session's connection.
#[derive(Debug, Clone, Copy, PartialEq, Eq, Hash, Structural)]
pub enum ConnectionState {
    Idle,
    Connect,
    Active,
    OpenSent,
    OpenConfirm,
    Established,
}

impl ConnectionState {
    /// The name of the state.
    pub open spec fn name(self) -> Seq<char> {
        match self {
            ConnectionState::Idle => "Idle"@,
            ConnectionState::Connect => "Connect"@,
            ConnectionState::Active => "Active"@,
            ConnectionState::OpenSent => "OpenSent"@,
            ConnectionState::OpenConfirm => "OpenConfirm"@,
            ConnectionState::Established => "Established"@,
        }
    }

    /// The name of the state, as it is shown to a reader.
    pub fn to_string(&self) -> (s: String)
        ensures
            s@ == self.name(),
    {
        match self {
            ConnectionState::Idle => String::from_str("Idle"),
            ConnectionState::Connect => String::from_str("Connect"),
            ConnectionState::Active => String::from_str("Active"),
            ConnectionState::OpenSent => String::from_str("OpenSent"),
            ConnectionState::OpenConfirm => String::from_str("OpenConfirm"),
            ConnectionState::Established => String::from_str("Established"),
        }
    }
}

/// A session state of the decoder, read as a connection state.
pub trait BgpKitStateExt {
    /// The connection state that `self` stands for.
    spec fn connection_state(&self) -> ConnectionState;

    /// The connection state that `self` stands for.
    fn to_connection_state(&self) -> (state: ConnectionState)
        ensures
            state == self.connection_state(),
    ;
}

impl BgpKitStateExt for bgpkit_parser::models::BgpState {
    open spec fn connection_state(&self) -> ConnectionState {
        match self {
            bgpkit_parser::models::BgpState::Idle => ConnectionState::Idle,
            bgpkit_parser::models::BgpState::Connect => ConnectionState::Connect,
            bgpkit_parser::models::BgpState::Active => ConnectionState::Active,
            bgpkit_parser::models::BgpState::OpenSent => ConnectionState::OpenSent,
            bgpkit_parser::models::BgpState::OpenConfirm => ConnectionState::OpenConfirm,
            bgpkit_parser::models::BgpState::Established => ConnectionState::Established,
        }
    }

    fn to_connection_state(&self) -> (state: ConnectionState) {
        match self {
            bgpkit_parser::models::BgpState::Idle => ConnectionState::Idle,
            bgpkit_parser::models::BgpState::Connect => ConnectionState::Connect,
            bgpkit_parser::models::BgpState::Active => ConnectionState::Active,
            bgpkit_parser::models::BgpState::OpenSent => ConnectionState::OpenSent,
            bgpkit_parser::models::BgpState::OpenConfirm => ConnectionState::OpenConfirm,
            bgpkit_parser::models::BgpState::Established => ConnectionState::Established,
        }
    }
}

/// A route as it was last announced: when, and with which attributes.
#[derive(Debug, Clone, PartialEq)]
pub struct Announcement {
    /// When the announcement was received.
    pub timestamp: Timestamp,
    pub as_path: Option<AsPath>,
    pub origin: Option<Origin>,
    pub local_pref: Option<u32>,
    pub next_hop: Option<IpAddress>,
    pub med: Option<u32>,
    pub communities: Option<Vec<MetaCommunity>>,
    pub only_to_customer: Option<u32>,
}

/// The announcement that an element carries: its time and its attributes.
pub open spec fn announcement_of(elem: BgpElem) -> Announcement {
    Announcement {
        timestamp: elem.timestamp,
        as_path: elem.as_path,
        origin: elem.origin,
        local_pref: elem.local_pref,
        next_hop: elem.next_hop,
        med: elem.med,
        communities: elem.communities,
        only_to_customer: elem.only_to_customer,
    }
}

impl Announcement {
    /// The announcement of an announcing element. A withdrawal is refused.
    pub fn from_bgp_elem(elem: BgpElem) -> (r: Result<Announcement, &'static str>)
        ensures
            elem.elem_type is ANNOUNCE ==> r == Ok::<Announcement, &'static str>(
                announcement_of(elem),
            ),
            elem.elem_type is WITHDRAW ==> (r matches Err(message) && message@
                == invalid_element_message()),
    {
        if !elem.is_announcement() {
            return Err("Cannot create announcement from withdrawal element");
        }
        Ok(
            Announcement {
                timestamp: elem.timestamp,
                as_path: elem.as_path,
                origin: elem.origin,
                local_pref: elem.local_pref,
                next_hop: elem.next_hop,
                med: elem.med,
                communities: elem.communities,
                only_to_customer: elem.only_to_customer,
            },
        )
    }
}

/// Whether a transition from `from` to `to` empties the session's route
/// table.
///
/// Every transition does: a session that changes state, or is told its
/// state anew, starts with no routes, also where `Established` is affirmed
/// again. This is the one place that decides it.
pub open spec fn transition_clears_routes(from: ConnectionState, to: ConnectionState) -> bool {
    true
}

/// Whether a transition from `from` to `to` empties the session's route
/// table.
pub fn clears_routes(from: ConnectionState, to: ConnectionState) -> (b: bool)
    ensures
        b == transition_clears_routes(from, to),
{
    true
}

/// What a session is, as the contracts speak of it.
#[verifier::ext_equal]
pub struct PeerSessionView {
    pub connection_state: ConnectionState,
    /// The latest time that any message or transition gave the session.
    pub last_message_timestamp: Option<Timestamp>,
    /// The routes that the peer announces now, by their prefix.
    pub prefix_announcements: Map<NetworkPrefix, Announcement>,
    /// The hold time of the last open message, in seconds.
    pub hold_time: Option<u16>,
    /// The optional parameters of the last open message.
    pub options: Option<Vec<OptParam>>,
}

impl PeerSessionView {
    /// A session that nothing was heard of yet.
    pub open spec fn initial() -> PeerSessionView {
        PeerSessionView {
            connection_state: ConnectionState::Idle,
            last_message_timestamp: None,
            prefix_announcements: Map::empty(),
            hold_time: None,
            options: None,
        }
    }

    /// The session after activity at `ts`.
    pub open spec fn update_last_message_timestamp(self, ts: Timestamp) -> PeerSessionView {
        PeerSessionView {
            last_message_timestamp: Some(advance(self.last_message_timestamp, ts)),
            ..self
        }
    }

    /// The session after a transition to `new_state` at `ts`.
    pub open spec fn update_connection_state(
        self,
        ts: Timestamp,
        new_state: ConnectionState,
    ) -> PeerSessionView {
        PeerSessionView {
            connection_state: new_state,
            last_message_timestamp: Some(advance(self.last_message_timestamp, ts)),
            prefix_announcements: if transition_clears_routes(self.connection_state, new_state) {
                Map::empty()
            } else {
                self.prefix_announcements
            },
            ..self
        }
    }

    /// The session after an open message at `ts`.
    pub open spec fn open_message(self, ts: Timestamp, msg: BgpOpenMessage) -> PeerSessionView {
        PeerSessionView {
            hold_time: Some(msg.hold_time),
            options: Some(msg.opt_params),
            ..self.update_connection_state(ts, ConnectionState::OpenSent)
        }
    }

    /// The session after the announcement that `elem` carries.
    pub open spec fn update_prefix(self, elem: BgpElem) -> PeerSessionView {
        PeerSessionView {
            last_message_timestamp: Some(advance(self.last_message_timestamp, elem.timestamp)),
            prefix_announcements: self.prefix_announcements.insert(
                elem.prefix,
                announcement_of(elem),
            ),
            ..self
        }
    }

    /// The session after `prefix` was withdrawn at `ts`.
    pub open spec fn withdraw_prefix(
        self,
        ts: Timestamp,
        prefix: NetworkPrefix,
    ) -> PeerSessionView {
        PeerSessionView {
            last_message_timestamp: Some(advance(self.last_message_timestamp, ts)),
            prefix_announcements: self.prefix_announcements.remove(prefix),
            ..self
        }
    }

    /// The session after `elem`: its announcement is taken in, or its prefix
    /// withdrawn at the element's time.
    pub open spec fn apply_elem(self, elem: BgpElem) -> PeerSessionView {
        match elem.elem_type {
            ElemType::ANNOUNCE => self.update_prefix(elem),
            ElemType::WITHDRAW => self.withdraw_prefix(elem.timestamp, elem.prefix),
        }
    }

    /// The session's hold timer has run out at `batch_ts`: the session is
    /// not idle, it was heard of, and its last message lies further back
    /// than the effective hold time.
    pub open spec fn hold_timer_expired(
        self,
        batch_ts: Timestamp,
        default_hold_time: u16,
        multiple: Option<u16>,
    ) -> bool {
        &&& self.connection_state != ConnectionState::Idle
        &&& self.last_message_timestamp matches Some(last)
        &&& last.is_before_after(
            effective_hold_time(self.hold_time, default_hold_time, multiple),
            batch_ts,
        )
    }

    /// The session after the hold-timer check at `batch_ts`: gone idle at
    /// that time if its timer has run out, else as it was.
    pub open spec fn expire(
        self,
        batch_ts: Timestamp,
        default_hold_time: u16,
        multiple: Option<u16>,
    ) -> PeerSessionView {
        if self.hold_timer_expired(batch_ts, default_hold_time, multiple) {
            self.update_connection_state(batch_ts, ConnectionState::Idle)
        } else {
            self
        }
    }
}

/// The seconds that a session may stay silent: its negotiated hold time, or
/// the default where it has none, times the multiple, or once where none is
/// set.
pub open spec fn effective_hold_time(
    hold_time: Option<u16>,
    default_hold_time: u16,
    multiple: Option<u16>,
) -> int {
    (match hold_time {
        Some(h) => h,
        None => default_hold_time,
    }) * (match multiple {
        Some(m) => m,
        None => 1,
    })
}

/// The routes of a table by their prefixes, where the table holds them by
/// the keys of their prefixes.
pub open spec fn routes_by_prefix(
    routes: Map<PrefixKey, Announcement>,
) -> Map<NetworkPrefix, Announcement> {
    Map::new(
        |prefix: NetworkPrefix| routes.contains_key(prefix.key()),
        |prefix: NetworkPrefix| routes[prefix.key()],
    )
}

/// A table that holds its routes by the keys of prefixes holds as many
/// routes as it holds prefixes.
proof fn lemma_routes_by_prefix_len(routes: Map<PrefixKey, Announcement>)
    requires
        routes.dom().finite(),
        forall|key: PrefixKey| routes.contains_key(key) ==> is_prefix_key(key),
    ensures
        routes_by_prefix(routes).dom().finite(),
        routes_by_prefix(routes).len() == routes.len(),
{
    let prefix_of = |key: PrefixKey| NetworkPrefix::of_key(key);
    assert(injective_on(prefix_of, routes.dom())) by {
        assert forall|a: PrefixKey, b: PrefixKey|
            routes.dom().contains(a) && routes.dom().contains(b) && #[trigger] prefix_of(a)
                == #[trigger] prefix_of(b) implies a == b by {
            lemma_prefix_and_key(NetworkPrefix::of_key(a), a);
            lemma_prefix_and_key(NetworkPrefix::of_key(b), b);
        }
    }
    assert(routes.dom().map(prefix_of) =~= routes_by_prefix(routes).dom()) by {
        assert forall|prefix: NetworkPrefix|
            routes.dom().map(prefix_of).contains(prefix) implies routes_by_prefix(
            routes,
        ).dom().contains(prefix) by {
            let key = choose|key: PrefixKey|
                routes.dom().contains(key) && prefix == prefix_of(key);
            lemma_prefix_and_key(prefix, key);
        }
    }
    lemma_map_size(routes.dom(), routes_by_prefix(routes).dom(), prefix_of);
}

/// The state of one peering session: its connection state, when it was last
/// heard of, what its open message said, and the routes it announces.
#[derive(Debug)]
pub struct PeerSession {
    connection_state: ConnectionState,
    last_message_timestamp: Option<Timestamp>,
    prefix_announcements: BTreeMap<PrefixKey, Announcement>,
    hold_time: Option<u16>,
    options: Option<Vec<OptParam>>,
}

impl View for PeerSession {
    type V = PeerSessionView;

    closed spec fn view(&self) -> PeerSessionView {
        PeerSessionView {
            connection_state: self.connection_state,
            last_message_timestamp: self.last_message_timestamp,
            prefix_announcements: routes_by_prefix(self.prefix_announcements@),
            hold_time: self.hold_time,
            options: self.options,
        }
    }
}

impl Clone for PeerSession {
    /// A session with the same state, times and routes.
    fn clone(&self) -> (copy: PeerSession)
        ensures
            copy@.connection_state == self@.connection_state,
            copy@.last_message_timestamp == self@.last_message_timestamp,
            copy@.prefix_announcements == self@.prefix_announcements,
            copy@.hold_time == self@.hold_time,
    {
        proof {
            use_type_invariant(self);
        }
        let routes = self.prefix_announcements.clone();
        PeerSession {
            connection_state: self.connection_state,
            last_message_timestamp: self.last_message_timestamp,
            prefix_announcements: routes,
            hold_time: self.hold_time,
            options: self.options.clone(),
        }
    }
}

impl PeerSession {
    /// Every key of the route table is the key of a prefix.
    #[verifier::type_invariant]
    spec fn keys_are_prefixes(self) -> bool {
        forall|key: PrefixKey|
            self.prefix_announcements@.contains_key(key) ==> is_prefix_key(key)
    }

    /// An idle session without routes, of which nothing was heard yet.
    pub fn new() -> (state: PeerSession)
        ensures
            state@ == PeerSessionView::initial(),
    {
        let state = PeerSession {
            connection_state: ConnectionState::Idle,
            last_message_timestamp: None,
            prefix_announcements: BTreeMap::new(),
            hold_time: None,
            options: None,
        };
        state
    }

    /// The state of the connection.
    pub fn connection_state(&self) -> (state: ConnectionState)
        ensures
            state == self@.connection_state,
    {
        self.connection_state
    }

    /// When the peer was last heard of, if ever.
    pub fn last_message_timestamp(&self) -> (ts: Option<Timestamp>)
        ensures
            ts == self@.last_message_timestamp,
    {
        self.last_message_timestamp
    }

    /// The hold time of the last open message, in seconds.
    pub fn hold_time(&self) -> (hold_time: Option<u16>)
        ensures
            hold_time == self@.hold_time,
    {
        self.hold_time
    }

    /// The optional parameters of the last open message.
    pub fn options(&self) -> (options: &Option<Vec<OptParam>>)
        ensures
            *options == self@.options,
    {
        &self.options
    }

    /// The routes that the peer announces now, by the key of their prefix.
    /// Each key is the key of a prefix.
    pub fn prefix_announcements(&self) -> (routes: &BTreeMap<PrefixKey, Announcement>)
        ensures
            routes_by_prefix(routes@) == self@.prefix_announcements,
            forall|key: PrefixKey| routes@.contains_key(key) ==> is_prefix_key(key),
    {
        proof {
            use_type_invariant(self);
        }
        &self.prefix_announcements
    }

    /// The announcement that the session holds for `prefix`, if any.
    pub fn announcement(&self, prefix: &NetworkPrefix) -> (found: Option<&Announcement>)
        ensures
            found is Some <==> self@.prefix_announcements.contains_key(*prefix),
            found matches Some(announcement) ==> *announcement
                == self@.prefix_announcements[*prefix],
    {
        let key = prefix.to_key();
        self.prefix_announcements.get(&key)
    }

    /// The number of routes that the peer announces now.
    pub fn prefix_count(&self) -> (count: usize)
        ensures
            count == self@.prefix_announcements.len(),
    {
        proof {
            use_type_invariant(self);
            lemma_routes_by_prefix_len(self.prefix_announcements@);
        }
        self.prefix_announcements.len()
    }

    /// An open message was received at `ts`: the session goes to `OpenSent`
    /// as by a transition, and keeps the hold time and the parameters that
    /// the message advertises.
    pub fn open_message(&mut self, ts: Timestamp, msg: BgpOpenMessage)
        ensures
            final(self)@ == old(self)@.open_message(ts, msg),
    {
        self.update_connection_state(ts, ConnectionState::OpenSent);
        proof {
            use_type_invariant(&*self);
        }
        self.hold_time = Some(msg.hold_time);
        self.options = Some(msg.opt_params);
    }

    /// The session goes to `new_state` at `ts`. Its route table is emptied
    /// where `transition_clears_routes` says so, and `ts` counts as
    /// activity.
    pub fn update_connection_state(&mut self, ts: Timestamp, new_state: ConnectionState)
        ensures
            final(self)@ == old(self)@.update_connection_state(ts, new_state),
    {
        proof {
            use_type_invariant(&*self);
        }
        if clears_routes(self.connection_state, new_state) {
            self.prefix_announcements = BTreeMap::new();
        }
        self.connection_state = new_state;
        self.update_last_message_timestamp(ts);
    }

    /// The peer was heard of at `ts`. The time of its last message never
    /// moves back.
    pub fn update_last_message_timestamp(&mut self, timestamp: Timestamp)
        ensures
            final(self)@ == old(self)@.update_last_message_timestamp(timestamp),
    {
        proof {
            use_type_invariant(&*self);
        }
        self.last_message_timestamp = match self.last_message_timestamp {
            Some(ts) => Some(ts.max(timestamp)),
            None => Some(timestamp),
        };
    }

    /// Takes the announcement that `elem` carries into the route table, in
    /// place of an earlier one for the same prefix, and counts its time as
    /// activity. A withdrawal is refused and changes nothing.
    pub fn update_prefix(&mut self, elem: BgpElem) -> (r: Result<(), ProcessError>)
        ensures
            elem.elem_type is ANNOUNCE ==> r is Ok && final(self)@ == old(self)@.update_prefix(
                elem,
            ),
            elem.elem_type is WITHDRAW ==> r == Err::<(), ProcessError>(
                ProcessError::InvalidElement,
            ) && final(self)@ == old(self)@,
    {
        let key = elem.prefix.to_key();
        match Announcement::from_bgp_elem(elem) {
            Ok(announcement) => {
                self.update_last_message_timestamp(announcement.timestamp);
                let mut routes = self.take_routes();
                let ghost before = routes@;
                routes.insert(key, announcement);
                assert(routes_by_prefix(routes@) =~= routes_by_prefix(before).insert(
                    elem.prefix,
                    announcement,
                ));
                self.put_routes(routes);
                Ok(())
            },
            Err(_) => Err(ProcessError::InvalidElement),
        }
    }

    /// Takes `prefix` out of the route table, if it is there, and counts
    /// `ts` as activity.
    pub fn withdraw_prefix(&mut self, ts: Timestamp, prefix: NetworkPrefix)
        ensures
            final(self)@ == old(self)@.withdraw_prefix(ts, prefix),
    {
        self.update_last_message_timestamp(ts);
        let key = prefix.to_key();
        let mut routes = self.take_routes();
        routes.remove(&key);
        self.put_routes(routes);
    }

    /// Hands the route table out and leaves an empty one in its place.
    fn take_routes(&mut self) -> (routes: BTreeMap<PrefixKey, Announcement>)
        ensures
            routes_by_prefix(routes@) == old(self)@.prefix_announcements,
            forall|key: PrefixKey| routes@.contains_key(key) ==> is_prefix_key(key),
            final(self)@ == (PeerSessionView {
                prefix_announcements: Map::empty(),
                ..old(self)@
            }),
    {
        proof {
            use_type_invariant(&*self);
        }
        let mut routes = BTreeMap::new();
        core::mem::swap(&mut self.prefix_announcements, &mut routes);
        routes
    }

    /// Puts `routes` in the place of the route table.
    fn put_routes(&mut self, routes: BTreeMap<PrefixKey, Announcement>)
        requires
            forall|key: PrefixKey| routes@.contains_key(key) ==> is_prefix_key(key),
        ensures
            final(self)@ == (PeerSessionView {
                prefix_announcements: routes_by_prefix(routes@),
                ..old(self)@
            }),
    {
        let mut routes = routes;
        core::mem::swap(&mut self.prefix_announcements, &mut routes);
    }

    /// Applies one element: an announcement is taken in, a withdrawal takes
    /// its prefix out.
    pub fn apply_elem(&mut self, elem: BgpElem)
        ensures
            final(self)@ == old(self)@.apply_elem(elem),
    {
        match elem.elem_type {
            ElemType::ANNOUNCE => {
                let _ = self.update_prefix(elem);
            },
            ElemType::WITHDRAW => {
                self.withdraw_prefix(elem.timestamp, elem.prefix);
            },
        }
    }

    /// Whether the session's hold timer has run out at `batch_ts`.
    pub fn hold_timer_expired(
        &self,
        batch_ts: Timestamp,
        default_hold_time: u16,
        multiple: Option<u16>,
    ) -> (expired: bool)
        ensures
            expired == self@.hold_timer_expired(batch_ts, default_hold_time, multiple),
    {
        if self.connection_state == ConnectionState::Idle {
            return false;
        }
        match self.last_message_timestamp {
            None => false,
            Some(last) => {
                let hold: u32 = match self.hold_time {
                    Some(h) => h as u32,
                    None => default_hold_time as u32,
                };
                let factor: u32 = match multiple {
                    Some(m) => m as u32,
                    None => 1,
                };
                assert(hold * factor <= 0xffff * 0xffff) by (nonlinear_arith)
                    requires
                        hold <= 0xffff,
                        factor <= 0xffff,
                ;
                last.lt_after(hold * factor, &batch_ts)
            },
        }
    }
}

/// `after` is a time of last activity that follows on `before`: it is set,
/// and it does not lie before `before`.
pub open spec fn follows(before: Option<Timestamp>, after: Option<Timestamp>) -> bool {
    &&& after is Some
    &&& before matches Some(earlier) ==> !after->0.is_before(earlier)
}

/// Every transition leaves the session without routes, whatever the state
/// before and the state after are. A transition that affirms `Established`
/// again is no exception: it leaves the table as it was only where the
/// table was empty.
pub proof fn lemma_transition_empties_routes(
    session: PeerSessionView,
    ts: Timestamp,
    new_state: ConnectionState,
)
    ensures
        session.update_connection_state(ts, new_state).prefix_announcements == Map::<
            NetworkPrefix,
            Announcement,
        >::empty(),
        session.update_connection_state(ts, new_state).connection_state == new_state,
        session.prefix_announcements == Map::<NetworkPrefix, Announcement>::empty()
            ==> session.update_connection_state(ts, new_state).prefix_announcements
            == session.prefix_announcements,
{
}

/// An open message leaves the session in `OpenSent` and without routes,
/// with the hold time and the parameters of the message.
pub proof fn lemma_open_message_restarts_session(
    session: PeerSessionView,
    ts: Timestamp,
    msg: BgpOpenMessage,
)
    ensures
        session.open_message(ts, msg).connection_state == ConnectionState::OpenSent,
        session.open_message(ts, msg).prefix_announcements == Map::<
            NetworkPrefix,
            Announcement,
        >::empty(),
        session.open_message(ts, msg).hold_time == Some(msg.hold_time),
        session.open_message(ts, msg).options == Some(msg.opt_params),
{
}

/// The time of a session's last activity never moves back: after a message,
/// an open message, a transition, an announcement or a withdrawal it is
/// set, it is the later of what it was and the time that was handed in, and
/// so lies before neither of them.
pub proof fn lemma_activity_never_moves_back(
    session: PeerSessionView,
    ts: Timestamp,
    msg: BgpOpenMessage,
    new_state: ConnectionState,
    elem: BgpElem,
    prefix: NetworkPrefix,
)
    ensures
        follows(
            session.last_message_timestamp,
            session.update_last_message_timestamp(ts).last_message_timestamp,
        ),
        follows(Some(ts), session.update_last_message_timestamp(ts).last_message_timestamp),
        follows(
            session.last_message_timestamp,
            session.open_message(ts, msg).last_message_timestamp,
        ),
        follows(Some(ts), session.open_message(ts, msg).last_message_timestamp),
        follows(
            session.last_message_timestamp,
            session.update_connection_state(ts, new_state).last_message_timestamp,
        ),
        follows(Some(ts), session.update_connection_state(ts, new_state).last_message_timestamp),
        follows(session.last_message_timestamp, session.update_prefix(elem).last_message_timestamp),
        follows(Some(elem.timestamp), session.update_prefix(elem).last_message_timestamp),
        follows(
            session.last_message_timestamp,
            session.withdraw_prefix(ts, prefix).last_message_timestamp,
        ),
        follows(Some(ts), session.withdraw_prefix(ts, prefix).last_message_timestamp),
        follows(session.last_message_timestamp, session.apply_elem(elem).last_message_timestamp),
{
}

/// A message touches nothing of the session but the time of its last
/// activity.
pub proof fn lemma_message_touches_only_the_time(session: PeerSessionView, ts: Timestamp)
    ensures
        session.update_last_message_timestamp(ts) == (PeerSessionView {
            last_message_timestamp: session.update_last_message_timestamp(
                ts,
            ).last_message_timestamp,
            ..session
        }),
{
}

/// Withdrawing a prefix that the session does not announce leaves its
/// routes as they are, and withdrawing a prefix twice leaves the routes
/// that withdrawing it once leaves. At one and the same time the second
/// withdrawal changes nothing at all.
pub proof fn lemma_withdrawal_is_idempotent(
    session: PeerSessionView,
    ts: Timestamp,
    again: Timestamp,
    prefix: NetworkPrefix,
)
    ensures
        !session.prefix_announcements.contains_key(prefix) ==> session.withdraw_prefix(
            ts,
            prefix,
        ).prefix_announcements == session.prefix_announcements,
        session.withdraw_prefix(ts, prefix).withdraw_prefix(again, prefix).prefix_announcements
            == session.withdraw_prefix(ts, prefix).prefix_announcements,
        session.withdraw_prefix(ts, prefix).withdraw_prefix(ts, prefix) == session.withdraw_prefix(
            ts,
            prefix,
        ),
        !session.withdraw_prefix(ts, prefix).prefix_announcements.contains_key(prefix),
{
}

/// An announcement is there after it was taken in, in place of whatever the
/// session held for its prefix, and no other route is touched.
pub proof fn lemma_last_announcement_wins(
    session: PeerSessionView,
    elem: BgpElem,
    other: NetworkPrefix,
)
    ensures
        session.update_prefix(elem).prefix_announcements.get(elem.prefix) == Some(
            announcement_of(elem),
        ),
        other != elem.prefix ==> session.update_prefix(elem).prefix_announcements.get(other)
            == session.prefix_announcements.get(other),
{
}

/// The hold-timer check: a session that is not idle and was last heard of
/// at `last` goes idle at `batch_ts` exactly if `last` plus the effective
/// hold time lies before `batch_ts`. It then has gone through a transition
/// to `Idle` at `batch_ts`, and so has no routes; else it is as it was.
pub proof fn lemma_hold_timer(
    session: PeerSessionView,
    last: Timestamp,
    batch_ts: Timestamp,
    default_hold_time: u16,
    send_hold_time_multiple: Option<u16>,
)
    requires
        session.connection_state != ConnectionState::Idle,
        session.last_message_timestamp == Some(last),
    ensures
        session.expire(batch_ts, default_hold_time, send_hold_time_multiple).connection_state
            == ConnectionState::Idle <==> last.is_before_after(
            effective_hold_time(session.hold_time, default_hold_time, send_hold_time_multiple),
            batch_ts,
        ),
        session.expire(batch_ts, default_hold_time, send_hold_time_multiple).connection_state
            == ConnectionState::Idle ==> {
            &&& session.expire(batch_ts, default_hold_time, send_hold_time_multiple)
                == session.update_connection_state(batch_ts, ConnectionState::Idle)
            &&& session.expire(
                batch_ts,
                default_hold_time,
                send_hold_time_multiple,
            ).prefix_announcements == Map::<NetworkPrefix, Announcement>::empty()
            &&& session.expire(
                batch_ts,
                default_hold_time,
                send_hold_time_multiple,
            ).last_message_timestamp == Some(batch_ts)
        },
        session.expire(batch_ts, default_hold_time, send_hold_time_multiple).connection_state
            != ConnectionState::Idle ==> session.expire(
            batch_ts,
            default_hold_time,
            send_hold_time_multiple,
        ) == session,
{
}

/// The hold-timer check in whole seconds: a session that is not idle, was
/// last heard of at second `last` and negotiated `hold_time` goes idle at
/// second `batch`, under the multiple `multiple`, exactly if
/// `last + hold_time * multiple < batch`. The fraction of the second, where
/// it is the same in both times, plays no part.
pub proof fn lemma_hold_timer_in_seconds(
    session: PeerSessionView,
    last: i64,
    hold_time: u16,
    multiple: u16,
    batch: i64,
    nanos: u32,
    default_hold_time: u16,
)
    requires
        session.connection_state != ConnectionState::Idle,
        session.last_message_timestamp == Some(Timestamp { secs: last, nanos }),
        session.hold_time == Some(hold_time),
    ensures
        session.expire(
            Timestamp { secs: batch, nanos },
            default_hold_time,
            Some(multiple),
        ).connection_state == ConnectionState::Idle <==> last + hold_time * multiple < batch,
        multiple == 1 ==> session.expire(
            Timestamp { secs: batch, nanos },
            default_hold_time,
            None,
        ) == session.expire(Timestamp { secs: batch, nanos }, default_hold_time, Some(multiple)),
{
}

/// The hold-timer check leaves alone a session that is idle or was never
/// heard of.
pub proof fn lemma_hold_timer_skips(
    session: PeerSessionView,
    batch_ts: Timestamp,
    default_hold_time: u16,
    send_hold_time_multiple: Option<u16>,
)
    requires
        session.connection_state == ConnectionState::Idle || session.last_message_timestamp
            is None,
    ensures
        session.expire(batch_ts, default_hold_time, send_hold_time_multiple) == session,
{
}

/// One thing that happens to a session.
pub enum SessionEvent {
    /// A transition to `new_state` at `ts`.
    Transition { ts: Timestamp, new_state: ConnectionState },
    /// An open message at `ts`.
    Open { ts: Timestamp, msg: BgpOpenMessage },
    /// A message at `ts` that says nothing of routes.
    Message { ts: Timestamp },
    /// An announcement, at the time of its element.
    Announcement { elem: BgpElem },
    /// The withdrawal of `prefix` at `ts`.
    Withdrawal { ts: Timestamp, prefix: NetworkPrefix },
}

impl SessionEvent {
    /// The time that the event hands to the session.
    pub open spec fn time(self) -> Timestamp {
        match self {
            SessionEvent::Transition { ts, .. } => ts,
            SessionEvent::Open { ts, .. } => ts,
            SessionEvent::Message { ts } => ts,
            SessionEvent::Announcement { elem } => elem.timestamp,
            SessionEvent::Withdrawal { ts, .. } => ts,
        }
    }

    /// The event is a transition, by itself or with an open message.
    pub open spec fn is_transition(self) -> bool {
        self is Transition || self is Open
    }
}

impl PeerSessionView {
    /// The session after `event`.
    pub open spec fn after(self, event: SessionEvent) -> PeerSessionView {
        match event {
            SessionEvent::Transition { ts, new_state } => self.update_connection_state(
                ts,
                new_state,
            ),
            SessionEvent::Open { ts, msg } => self.open_message(ts, msg),
            SessionEvent::Message { ts } => self.update_last_message_timestamp(ts),
            SessionEvent::Announcement { elem } => self.update_prefix(elem),
            SessionEvent::Withdrawal { ts, prefix } => self.withdraw_prefix(ts, prefix),
        }
    }

    /// The session after `events`, one after the other.
    pub open spec fn after_all(self, events: Seq<SessionEvent>) -> PeerSessionView
        decreases events.len(),
    {
        if events.len() == 0 {
            self
        } else {
            self.after_all(events.drop_last()).after(events.last())
        }
    }
}

/// After any events the time of a session's last activity is the latest of
/// the time it had before and the times of the events: it is one of them,
/// and none of them lies after it.
pub proof fn lemma_last_activity_is_the_latest_time(
    session: PeerSessionView,
    events: Seq<SessionEvent>,
)
    requires
        events.len() > 0,
    ensures
        session.after_all(events).last_message_timestamp matches Some(last) && {
            &&& session.last_message_timestamp == Some(last) || exists|i: int|
                0 <= i < events.len() && #[trigger] events[i].time() == last
            &&& session.last_message_timestamp matches Some(before) ==> !last.is_before(before)
            &&& forall|i: int|
                0 <= i < events.len() ==> !last.is_before(#[trigger] events[i].time())
        },
    decreases events.len(),
{
    let earlier = events.drop_last();
    let before = session.after_all(earlier);
    let last = session.after_all(events).last_message_timestamp->0;
    assert(session.after_all(events).last_message_timestamp == Some(
        advance(before.last_message_timestamp, events.last().time()),
    ));
    if earlier.len() > 0 {
        lemma_last_activity_is_the_latest_time(session, earlier);
        assert forall|i: int| 0 <= i < events.len() implies !last.is_before(
            #[trigger] events[i].time(),
        ) by {
            if i < earlier.len() {
                assert(earlier[i] == events[i]);
            }
        }
    }
}

/// No route survives a transition: the routes of a session are those that
/// the events after its last transition give to a session without routes.
pub proof fn lemma_routes_begin_with_the_last_transition(
    session: PeerSessionView,
    events: Seq<SessionEvent>,
    i: int,
)
    requires
        0 <= i < events.len(),
        events[i].is_transition(),
    ensures
        session.after_all(events).prefix_announcements == PeerSessionView::initial().after_all(
            events.subrange(i + 1, events.len() as int),
        ).prefix_announcements,
    decreases events.len(),
{
    let rest = events.subrange(i + 1, events.len() as int);
    if i == events.len() - 1 {
        assert(session.after_all(events).prefix_announcements =~= Map::<
            NetworkPrefix,
            Announcement,
        >::empty());
    } else {
        let earlier = events.drop_last();
        lemma_routes_begin_with_the_last_transition(session, earlier, i);
        assert(rest.drop_last() =~= earlier.subrange(i + 1, earlier.len() as int));
        lemma_routes_follow_the_events(
            session.after_all(earlier),
            PeerSessionView::initial().after_all(rest.drop_last()),
            events.last(),
        );
    }
}

/// What an event does to the routes of a session depends on the routes
/// alone.
proof fn lemma_routes_follow_the_events(a: PeerSessionView, b: PeerSessionView, event: SessionEvent)
    requires
        a.prefix_announcements == b.prefix_announcements,
    ensures
        a.after(event).prefix_announcements == b.after(event).prefix_announcements,
{
}

} // verus!
