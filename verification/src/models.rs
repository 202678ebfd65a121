//! Decoded routing data as plain values: elements, messages and records.

use vstd::prelude::*;
use bgpkit_parser::models::{ElemType, MetaCommunity, OptParam, Origin};
use crate::address::{IpAddress, NetworkPrefix};
use crate::timestamp::{valid_nanos, Timestamp};

verus! {

/// One segment of an AS path, with the numbers of its autonomous systems.
#[derive(Debug, Clone, PartialEq, Eq)]
pub enum AsPathSegment {
    AsSequence(Vec<u32>),
    AsSet(Vec<u32>),
    ConfedSequence(Vec<u32>),
    ConfedSet(Vec<u32>),
}

/// The AS path of a route: its segments, nearest first.
#[derive(Debug, Clone, PartialEq, Eq)]
pub struct AsPath {
    pub segments: Vec<AsPathSegment>,
}

/// One decoded element: a peer announces or withdraws one prefix.
///
/// The attributes are those of the announcement; a withdrawal carries none
/// that matter.
#[derive(Debug, PartialEq)]
pub struct BgpElem {
    pub timestamp: Timestamp,
    pub elem_type: ElemType,
    pub peer_ip: IpAddress,
    pub peer_asn: u32,
    pub prefix: NetworkPrefix,
    pub next_hop: Option<IpAddress>,
    pub as_path: Option<AsPath>,
    pub origin: Option<Origin>,
    pub local_pref: Option<u32>,
    pub med: Option<u32>,
    pub communities: Option<Vec<MetaCommunity>>,
    pub only_to_customer: Option<u32>,
}

impl BgpElem {
    /// Whether the element announces its prefix.
    pub fn is_announcement(&self) -> (b: bool)
        ensures
            b == (self.elem_type is ANNOUNCE),
    {
        match self.elem_type {
            ElemType::ANNOUNCE => true,
            ElemType::WITHDRAW => false,
        }
    }
}

/// What the processor reads of an open message.
#[derive(Debug, Clone, PartialEq, Eq)]
pub struct BgpOpenMessage {
    pub hold_time: u16,
    pub opt_params: Vec<OptParam>,
}

/// A message between two peers, as far as the processor reads it. An update
/// comes as the elements that it expands to.
#[derive(Debug, PartialEq)]
pub enum BgpMessage {
    Open(BgpOpenMessage),
    Update(Vec<BgpElem>),
    Notification,
    KeepAlive,
}

/// A message record: who sent it, and the message.
#[derive(Debug, PartialEq)]
pub struct Bgp4MpMessage {
    pub peer_asn: u32,
    pub peer_ip: IpAddress,
    pub bgp_message: BgpMessage,
}

/// A state-change record: whose session changed, from which state to which.
#[derive(Debug, PartialEq, Eq)]
pub struct Bgp4MpStateChange {
    pub peer_asn: u32,
    pub peer_addr: IpAddress,
    pub old_state: bgpkit_parser::models::BgpState,
    pub new_state: bgpkit_parser::models::BgpState,
}

/// The two kinds of record that an update file holds.
#[derive(Debug, PartialEq)]
pub enum Bgp4MpEnum {
    StateChange(Bgp4MpStateChange),
    Message(Bgp4MpMessage),
}

/// What a record holds: a session record, or an entry of a table dump.
#[derive(Debug, PartialEq)]
pub enum MrtMessage {
    TableDump,
    Bgp4Mp(Bgp4MpEnum),
}

/// The time of a record as its header gives it: whole seconds, and for the
/// extended header the microseconds into the second.
#[derive(Debug, Clone, Copy, PartialEq, Eq, Structural)]
pub struct CommonHeader {
    pub timestamp: u32,
    pub microsecond_timestamp: Option<u32>,
}

impl CommonHeader {
    /// The header's time can be told: the microseconds stay below a second,
    /// or below two where the second is the last of its minute and so may
    /// be followed by a leap second.
    pub open spec fn has_valid_time(self) -> bool {
        match self.microsecond_timestamp {
            None => true,
            Some(us) => valid_nanos(self.timestamp as int, 1000 * us),
        }
    }

    /// The time that the header gives: its seconds, and its microseconds
    /// where it is an extended header.
    pub open spec fn time(self) -> Timestamp {
        Timestamp {
            secs: self.timestamp as i64,
            nanos: match self.microsecond_timestamp {
                None => 0,
                Some(us) => (1000 * us) as u32,
            },
        }
    }

    /// The time that the header gives, if it can be told.
    pub fn to_timestamp(&self) -> (ts: Option<Timestamp>)
        ensures
            ts == if self.has_valid_time() {
                Some(self.time())
            } else {
                None
            },
    {
        match self.microsecond_timestamp {
            None => Timestamp::from_timestamp(self.timestamp as i64, 0),
            Some(us) => match us.checked_mul(1000) {
                Some(nanos) => Timestamp::from_timestamp(self.timestamp as i64, nanos),
                None => None,
            },
        }
    }

    /// Whether the header's time can be told.
    pub fn is_valid_time(&self) -> (b: bool)
        ensures
            b == self.has_valid_time(),
    {
        self.to_timestamp().is_some()
    }
}

/// One record of a file.
#[derive(Debug, PartialEq)]
pub struct MrtRecord {
    pub common_header: CommonHeader,
    pub message: MrtMessage,
}

} // verus!
