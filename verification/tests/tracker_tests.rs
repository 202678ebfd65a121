use bgp_sessions::address::{IpAddress, NetworkPrefix};
use bgp_sessions::announcement::AnnouncementTracker;
use bgp_sessions::timestamp::Timestamp;
use chrono::{DateTime, Days, NaiveDateTime};

/// A version 4 address from its dotted text.
fn address(text: &str) -> IpAddress {
    let octets: Vec<u8> = text.split('.').map(|part| part.parse().unwrap()).collect();
    IpAddress::from_octets(&octets).unwrap()
}

/// A version 4 prefix from its text, address and length.
fn prefix(text: &str) -> NetworkPrefix {
    let (addr, len) = text.split_once('/').unwrap();
    NetworkPrefix { address: address(addr), prefix_len: len.parse().unwrap(), path_id: 0 }
}

fn timestamp(time: NaiveDateTime) -> Timestamp {
    Timestamp::new(time.and_utc().timestamp(), time.and_utc().timestamp_subsec_nanos())
}

#[test]
fn test_announcement_tracker() {
    let mut tracker = AnnouncementTracker::default();

    // Test data
    let peer_ip = address("192.0.2.1");
    let prefix = prefix("192.0.2.0/24");
    let ts_before = DateTime::from_timestamp(1600000000, 0).unwrap().naive_utc();
    let ts = ts_before.checked_add_days(Days::new(1)).unwrap();
    let ts_before = timestamp(ts_before);
    let ts = timestamp(ts);

    // Test adding announcement
    assert_eq!(tracker.add_announcement(peer_ip, prefix, ts_before), None);
    assert_eq!(tracker.start_of(peer_ip, prefix), Some(ts_before));
    // Test adding an updated timestamp
    assert_eq!(tracker.add_announcement(peer_ip, prefix, ts), Some(ts_before));
    assert_eq!(tracker.start_of(peer_ip, prefix), Some(ts));

    // Test withdrawing announcement
    let withdrawn_ts = tracker.withdraw_announcement(peer_ip, prefix);
    assert_eq!(withdrawn_ts, Some(ts));
    assert!(tracker.is_empty());

    // Test withdrawing non-existent announcement
    let non_existent = tracker.withdraw_announcement(peer_ip, prefix);
    assert_eq!(non_existent, None);
}

#[test]
fn tracker_parses_the_test_values_as_written() {
    assert_eq!(address("192.0.2.1"), IpAddress::V4(0xC000_0201));
    assert_eq!(
        prefix("192.0.2.0/24"),
        NetworkPrefix { address: IpAddress::V4(0xC000_0200), prefix_len: 24, path_id: 0 }
    );
    assert_eq!(
        timestamp(DateTime::from_timestamp(1600000000, 0).unwrap().naive_utc()),
        Timestamp { secs: 1_600_000_000, nanos: 0 }
    );
}

#[test]
fn withdrawal_of_a_run_that_never_began_returns_nothing() {
    let mut tracker = AnnouncementTracker::default();
    let peer = IpAddress::V4(0x0A00_0001);
    let route = NetworkPrefix { address: IpAddress::V4(0x0A00_0000), prefix_len: 24, path_id: 0 };
    assert_eq!(tracker.withdraw_announcement(peer, route), None);
    assert!(tracker.is_empty());
}

#[test]
fn withdrawal_returns_the_most_recent_start() {
    let mut tracker = AnnouncementTracker::default();
    let peer = IpAddress::V4(0x0A00_0001);
    let route = NetworkPrefix { address: IpAddress::V4(0x0A00_0000), prefix_len: 24, path_id: 0 };
    assert_eq!(tracker.add_announcement(peer, route, Timestamp::from_secs(5)), None);
    assert_eq!(
        tracker.add_announcement(peer, route, Timestamp::from_secs(7)),
        Some(Timestamp::from_secs(5))
    );
    assert_eq!(tracker.withdraw_announcement(peer, route), Some(Timestamp::from_secs(7)));
    assert_eq!(tracker.start_of(peer, route), None);
}

#[test]
fn a_run_ends_at_its_withdrawal_and_a_new_one_starts_after() {
    // announced at 10, withdrawn at 20, announced again at 30
    let mut tracker = AnnouncementTracker::default();
    let peer = IpAddress::V4(0x0A00_0001);
    let route = NetworkPrefix { address: IpAddress::V4(0xC633_6400), prefix_len: 24, path_id: 0 };

    assert_eq!(tracker.add_announcement(peer, route, Timestamp::from_secs(10)), None);
    let start = tracker.withdraw_announcement(peer, route).unwrap();
    let withdrawn_at = Timestamp::from_secs(20);
    assert_eq!(withdrawn_at.secs - start.secs, 10);
    assert!(tracker.is_empty());

    assert_eq!(tracker.add_announcement(peer, route, Timestamp::from_secs(30)), None);
    assert_eq!(tracker.start_of(peer, route), Some(Timestamp::from_secs(30)));
}

#[test]
fn runs_are_kept_apart_by_peer_prefix_and_path() {
    let mut tracker = AnnouncementTracker::default();
    let peer_a = IpAddress::V4(0x0A00_0001);
    let peer_b = IpAddress::V6(0x0A00_0001);
    let route = NetworkPrefix { address: IpAddress::V4(0x0A00_0000), prefix_len: 24, path_id: 0 };
    let longer = NetworkPrefix { prefix_len: 25, ..route };
    let other_path = NetworkPrefix { path_id: 1, ..route };

    assert_eq!(tracker.add_announcement(peer_a, route, Timestamp::from_secs(1)), None);
    assert_eq!(tracker.add_announcement(peer_b, route, Timestamp::from_secs(2)), None);
    assert_eq!(tracker.add_announcement(peer_a, longer, Timestamp::from_secs(3)), None);
    assert_eq!(tracker.add_announcement(peer_a, other_path, Timestamp::from_secs(4)), None);

    assert_eq!(tracker.withdraw_announcement(peer_a, route), Some(Timestamp::from_secs(1)));
    assert_eq!(tracker.start_of(peer_b, route), Some(Timestamp::from_secs(2)));
    assert_eq!(tracker.start_of(peer_a, longer), Some(Timestamp::from_secs(3)));
    assert_eq!(tracker.start_of(peer_a, other_path), Some(Timestamp::from_secs(4)));
    assert!(!tracker.is_empty());
}
