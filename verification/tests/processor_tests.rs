use bgp_sessions::address::{IpAddress, NetworkPrefix};
use bgp_sessions::bgp_state::ConnectionState;
use bgp_sessions::error::ProcessError;
use bgp_sessions::models::{
    Bgp4MpEnum, Bgp4MpMessage, Bgp4MpStateChange, BgpElem, BgpMessage, BgpOpenMessage,
    CommonHeader, MrtMessage, MrtRecord,
};
use bgp_sessions::mrt_processor::{apply_bgp_message, BgpPeer, MrtProcessor};
use bgp_sessions::timestamp::Timestamp;
use bgpkit_parser::models::{BgpState, ElemType};

const PEER: BgpPeer = BgpPeer { address: IpAddress::V4(0xC000_0201), peer_as: 64500 };
const OTHER: BgpPeer = BgpPeer { address: IpAddress::V4(0xC000_0202), peer_as: 64501 };

/// 10.0.0.0/24
const ROUTE: NetworkPrefix =
    NetworkPrefix { address: IpAddress::V4(0x0A00_0000), prefix_len: 24, path_id: 0 };
/// 10.0.1.0/24
const ROUTE_B: NetworkPrefix =
    NetworkPrefix { address: IpAddress::V4(0x0A00_0100), prefix_len: 24, path_id: 0 };

fn elem(peer: BgpPeer, elem_type: ElemType, prefix: NetworkPrefix, secs: i64) -> BgpElem {
    BgpElem {
        timestamp: Timestamp::from_secs(secs),
        elem_type,
        peer_ip: peer.address,
        peer_asn: peer.peer_as,
        prefix,
        next_hop: None,
        as_path: None,
        origin: None,
        local_pref: None,
        med: None,
        communities: None,
        only_to_customer: None,
    }
}

fn announce(peer: BgpPeer, prefix: NetworkPrefix, secs: i64) -> BgpElem {
    elem(peer, ElemType::ANNOUNCE, prefix, secs)
}

fn withdraw(peer: BgpPeer, prefix: NetworkPrefix, secs: i64) -> BgpElem {
    elem(peer, ElemType::WITHDRAW, prefix, secs)
}

fn header(secs: u32) -> CommonHeader {
    CommonHeader { timestamp: secs, microsecond_timestamp: None }
}

fn message(peer: BgpPeer, secs: u32, bgp_message: BgpMessage) -> MrtRecord {
    MrtRecord {
        common_header: header(secs),
        message: MrtMessage::Bgp4Mp(Bgp4MpEnum::Message(Bgp4MpMessage {
            peer_asn: peer.peer_as,
            peer_ip: peer.address,
            bgp_message,
        })),
    }
}

fn open(peer: BgpPeer, secs: u32, hold_time: u16) -> MrtRecord {
    message(peer, secs, BgpMessage::Open(BgpOpenMessage { hold_time, opt_params: vec![] }))
}

fn update(peer: BgpPeer, secs: u32, elems: Vec<BgpElem>) -> MrtRecord {
    message(peer, secs, BgpMessage::Update(elems))
}

fn keep_alive(peer: BgpPeer, secs: u32) -> MrtRecord {
    message(peer, secs, BgpMessage::KeepAlive)
}

fn notification(peer: BgpPeer, secs: u32) -> MrtRecord {
    message(peer, secs, BgpMessage::Notification)
}

fn state_change(peer: BgpPeer, secs: u32, old_state: BgpState, new_state: BgpState) -> MrtRecord {
    MrtRecord {
        common_header: header(secs),
        message: MrtMessage::Bgp4Mp(Bgp4MpEnum::StateChange(Bgp4MpStateChange {
            peer_asn: peer.peer_as,
            peer_addr: peer.address,
            old_state,
            new_state,
        })),
    }
}

fn table_dump(secs: u32) -> MrtRecord {
    MrtRecord { common_header: header(secs), message: MrtMessage::TableDump }
}

#[test]
fn a_new_processor_follows_no_peer() {
    let processor = MrtProcessor::new(180, Some(3));
    assert_eq!(processor.peer_count(), 0);
    assert!(processor.get_current_state().is_empty());
    assert!(processor.session(&PEER).is_none());
    assert_eq!(MrtProcessor::default().peer_count(), 0);
}

#[test]
fn the_default_processor_holds_180_seconds_once() {
    let mut processor = MrtProcessor::default();
    processor
        .process_update_file(
            "updates",
            vec![
                state_change(PEER, 1000, BgpState::OpenConfirm, BgpState::Established),
                keep_alive(OTHER, 1180),
            ],
        )
        .unwrap();
    assert_eq!(processor.session(&PEER).unwrap().connection_state(), ConnectionState::Established);

    processor.process_update_file("updates", vec![keep_alive(OTHER, 1181)]).unwrap();
    assert_eq!(processor.session(&PEER).unwrap().connection_state(), ConnectionState::Idle);
}

#[test]
fn a_snapshot_with_one_announcement_gives_one_route() {
    let mut processor = MrtProcessor::new(180, None);
    processor.process_bview(vec![announce(PEER, ROUTE, 100)]);

    assert_eq!(processor.peer_count(), 1);
    let session = processor.session(&PEER).unwrap();
    assert_eq!(session.prefix_count(), 1);
    assert_eq!(session.announcement(&ROUTE).unwrap().timestamp, Timestamp::from_secs(100));
    assert_eq!(session.last_message_timestamp(), Some(Timestamp::from_secs(100)));
    assert_eq!(session.connection_state(), ConnectionState::Idle);
    let keys: Vec<_> = session.prefix_announcements().keys().copied().collect();
    assert_eq!(keys, vec![ROUTE.to_key()]);
}

#[test]
fn a_snapshot_replaces_all_sessions() {
    let mut processor = MrtProcessor::new(180, None);
    processor.process_bview(vec![announce(PEER, ROUTE, 100), announce(OTHER, ROUTE, 101)]);
    assert_eq!(processor.peer_count(), 2);

    processor.process_bview(vec![
        announce(OTHER, ROUTE_B, 200),
        announce(OTHER, ROUTE, 201),
        withdraw(OTHER, ROUTE_B, 202),
    ]);
    assert_eq!(processor.peer_count(), 1);
    assert!(processor.session(&PEER).is_none());
    let session = processor.session(&OTHER).unwrap();
    assert_eq!(session.prefix_count(), 1);
    assert!(session.announcement(&ROUTE).is_some());
    assert_eq!(session.last_message_timestamp(), Some(Timestamp::from_secs(202)));

    processor.process_bview(vec![]);
    assert_eq!(processor.peer_count(), 0);
}

#[test]
fn peers_differ_by_address_and_as_number() {
    let same_address = BgpPeer { peer_as: 64999, ..PEER };
    let mut processor = MrtProcessor::new(180, None);
    processor.process_bview(vec![announce(PEER, ROUTE, 100), announce(same_address, ROUTE_B, 100)]);
    assert_eq!(processor.peer_count(), 2);
    assert!(processor.session(&PEER).unwrap().announcement(&ROUTE_B).is_none());
    assert!(processor.session(&same_address).unwrap().announcement(&ROUTE_B).is_some());
    assert!(processor.get_current_state().contains_key(&PEER.to_key()));
}

#[test]
fn an_open_message_clears_the_routes_and_an_update_announces_anew() {
    let mut processor = MrtProcessor::new(180, None);
    processor.process_bview(vec![announce(PEER, ROUTE_B, 100)]);

    processor.process_update_file("updates", vec![open(PEER, 200, 90)]).unwrap();
    let session = processor.session(&PEER).unwrap();
    assert_eq!(session.connection_state(), ConnectionState::OpenSent);
    assert_eq!(session.hold_time(), Some(90));
    assert_eq!(session.prefix_count(), 0);

    let mut processor = MrtProcessor::new(180, None);
    processor.process_bview(vec![announce(PEER, ROUTE_B, 100)]);
    processor
        .process_update_file(
            "updates",
            vec![open(PEER, 200, 90), update(PEER, 205, vec![announce(PEER, ROUTE, 205)])],
        )
        .unwrap();
    let session = processor.session(&PEER).unwrap();
    assert_eq!(session.connection_state(), ConnectionState::OpenSent);
    assert_eq!(session.prefix_count(), 1);
    assert_eq!(session.announcement(&ROUTE).unwrap().timestamp, Timestamp::from_secs(205));
    assert_eq!(session.last_message_timestamp(), Some(Timestamp::from_secs(205)));
}

#[test]
fn a_silent_peer_is_demoted_and_loses_its_routes() {
    // last activity 300, hold time 90, three times: 300 + 270 = 570 < 600
    let mut processor = MrtProcessor::new(180, Some(3));
    processor
        .process_update_file(
            "first",
            vec![
                open(PEER, 290, 90),
                state_change(PEER, 295, BgpState::OpenConfirm, BgpState::Established),
                update(PEER, 300, vec![announce(PEER, ROUTE, 300)]),
            ],
        )
        .unwrap();
    let session = processor.session(&PEER).unwrap();
    assert_eq!(session.connection_state(), ConnectionState::Established);
    assert_eq!(session.last_message_timestamp(), Some(Timestamp::from_secs(300)));
    assert_eq!(session.prefix_count(), 1);

    processor.process_update_file("second", vec![keep_alive(OTHER, 600)]).unwrap();

    let session = processor.session(&PEER).unwrap();
    assert_eq!(session.connection_state(), ConnectionState::Idle);
    assert_eq!(session.prefix_count(), 0);
    assert_eq!(session.last_message_timestamp(), Some(Timestamp::from_secs(600)));
    assert_eq!(session.hold_time(), Some(90));
}

#[test]
fn a_peer_is_demoted_only_strictly_after_its_hold_interval() {
    for (batch, demoted) in [(569, false), (570, false), (571, true)] {
        let mut processor = MrtProcessor::new(180, Some(3));
        processor
            .process_update_file(
                "first",
                vec![
                    open(PEER, 300, 90),
                    state_change(PEER, 300, BgpState::OpenConfirm, BgpState::Established),
                    update(PEER, 300, vec![announce(PEER, ROUTE, 300)]),
                ],
            )
            .unwrap();
        processor.process_update_file("second", vec![keep_alive(OTHER, batch)]).unwrap();
        let session = processor.session(&PEER).unwrap();
        if demoted {
            assert_eq!(session.connection_state(), ConnectionState::Idle);
            assert_eq!(session.prefix_count(), 0);
        } else {
            assert_eq!(session.connection_state(), ConnectionState::Established);
            assert_eq!(session.prefix_count(), 1);
            assert_eq!(session.last_message_timestamp(), Some(Timestamp::from_secs(300)));
        }
    }
}

#[test]
fn the_check_uses_the_latest_time_of_the_file_not_the_last() {
    let mut processor = MrtProcessor::new(10, None);
    processor
        .process_update_file(
            "updates",
            vec![
                state_change(PEER, 100, BgpState::Idle, BgpState::Established),
                keep_alive(OTHER, 500),
                keep_alive(OTHER, 105),
            ],
        )
        .unwrap();
    // 100 + 10 < 500, though the last record is of 105
    assert_eq!(processor.session(&PEER).unwrap().connection_state(), ConnectionState::Idle);
    // OTHER is idle from the start and is left alone
    let other = processor.session(&OTHER).unwrap();
    assert_eq!(other.connection_state(), ConnectionState::Idle);
    assert_eq!(other.last_message_timestamp(), Some(Timestamp::from_secs(500)));
}

#[test]
fn an_idle_peer_is_not_touched_by_the_check() {
    let mut processor = MrtProcessor::new(10, None);
    processor.process_bview(vec![announce(PEER, ROUTE, 100)]);
    processor.process_update_file("updates", vec![keep_alive(OTHER, 10_000)]).unwrap();

    // the peer of the snapshot is idle: its routes stay, its time stays
    let session = processor.session(&PEER).unwrap();
    assert_eq!(session.connection_state(), ConnectionState::Idle);
    assert_eq!(session.prefix_count(), 1);
    assert_eq!(session.last_message_timestamp(), Some(Timestamp::from_secs(100)));
}

#[test]
fn a_file_without_records_changes_nothing() {
    let mut processor = MrtProcessor::new(1, None);
    processor
        .process_update_file(
            "first",
            vec![
                state_change(PEER, 100, BgpState::Idle, BgpState::Established),
                update(PEER, 100, vec![announce(PEER, ROUTE, 100)]),
            ],
        )
        .unwrap();

    assert_eq!(processor.process_update_file("empty", vec![]), Ok(()));

    let session = processor.session(&PEER).unwrap();
    assert_eq!(session.connection_state(), ConnectionState::Established);
    assert_eq!(session.prefix_count(), 1);
}

#[test]
fn a_record_of_a_table_dump_ends_the_file_with_an_error() {
    let mut processor = MrtProcessor::new(1, None);
    let result = processor.process_update_file(
        "rib.20240101.0000.gz",
        vec![
            state_change(PEER, 100, BgpState::Idle, BgpState::Established),
            update(PEER, 100, vec![announce(PEER, ROUTE, 100)]),
            table_dump(5000),
            update(PEER, 5001, vec![announce(PEER, ROUTE_B, 5001)]),
        ],
    );

    let error = result.unwrap_err();
    assert_eq!(error, ProcessError::WrongFileKind { file: "rib.20240101.0000.gz".to_string() });
    assert_eq!(
        error.message(),
        "Unsupported content: Update file rib.20240101.0000.gz might be a bview."
    );
    // what came before the record stays done, nothing after it is applied,
    // and no hold timer is checked
    let session = processor.session(&PEER).unwrap();
    assert_eq!(session.connection_state(), ConnectionState::Established);
    assert_eq!(session.prefix_count(), 1);
    assert!(session.announcement(&ROUTE).is_some());
    assert_eq!(session.last_message_timestamp(), Some(Timestamp::from_secs(100)));
}

#[test]
fn a_table_dump_at_the_head_of_the_file_changes_nothing() {
    let mut processor = MrtProcessor::new(180, None);
    let result = processor.process_update_file("bview", vec![table_dump(1), keep_alive(PEER, 2)]);
    assert_eq!(result, Err(ProcessError::WrongFileKind { file: "bview".to_string() }));
    assert_eq!(processor.peer_count(), 0);
}

#[test]
fn a_notification_sends_the_session_to_idle() {
    let mut processor = MrtProcessor::new(180, None);
    processor
        .process_update_file(
            "updates",
            vec![
                state_change(PEER, 100, BgpState::OpenConfirm, BgpState::Established),
                update(PEER, 101, vec![announce(PEER, ROUTE, 101)]),
                notification(PEER, 102),
            ],
        )
        .unwrap();
    let session = processor.session(&PEER).unwrap();
    assert_eq!(session.connection_state(), ConnectionState::Idle);
    assert_eq!(session.prefix_count(), 0);
    assert_eq!(session.last_message_timestamp(), Some(Timestamp::from_secs(102)));
}

#[test]
fn a_state_change_moves_the_session_to_the_new_state() {
    let states = [
        (BgpState::Idle, ConnectionState::Idle),
        (BgpState::Connect, ConnectionState::Connect),
        (BgpState::Active, ConnectionState::Active),
        (BgpState::OpenSent, ConnectionState::OpenSent),
        (BgpState::OpenConfirm, ConnectionState::OpenConfirm),
        (BgpState::Established, ConnectionState::Established),
    ];
    for (new_state, expected) in states {
        let mut processor = MrtProcessor::new(180, None);
        processor.process_session_record(
            Timestamp::from_secs(7),
            Bgp4MpEnum::StateChange(Bgp4MpStateChange {
                peer_asn: PEER.peer_as,
                peer_addr: PEER.address,
                old_state: BgpState::Idle,
                new_state,
            }),
        );
        let session = processor.session(&PEER).unwrap();
        assert_eq!(session.connection_state(), expected);
        assert_eq!(session.last_message_timestamp(), Some(Timestamp::from_secs(7)));
    }
}

#[test]
fn affirming_established_again_clears_the_routes() {
    let mut processor = MrtProcessor::new(180, None);
    processor
        .process_update_file(
            "updates",
            vec![
                state_change(PEER, 100, BgpState::OpenConfirm, BgpState::Established),
                update(PEER, 101, vec![announce(PEER, ROUTE, 101)]),
                state_change(PEER, 102, BgpState::Established, BgpState::Established),
            ],
        )
        .unwrap();
    let session = processor.session(&PEER).unwrap();
    assert_eq!(session.connection_state(), ConnectionState::Established);
    assert_eq!(session.prefix_count(), 0);
}

#[test]
fn a_keep_alive_makes_the_peer_known_and_counts_as_activity() {
    let mut processor = MrtProcessor::new(180, None);
    processor.process_update_file("updates", vec![keep_alive(PEER, 42)]).unwrap();
    let session = processor.session(&PEER).unwrap();
    assert_eq!(session.connection_state(), ConnectionState::Idle);
    assert_eq!(session.last_message_timestamp(), Some(Timestamp::from_secs(42)));
    assert_eq!(session.prefix_count(), 0);
}

#[test]
fn the_elements_of_an_update_go_to_the_sender_in_their_order() {
    let mut processor = MrtProcessor::new(180, None);
    processor
        .process_update_file(
            "updates",
            vec![update(
                PEER,
                10,
                vec![
                    announce(PEER, ROUTE, 10),
                    announce(PEER, ROUTE_B, 10),
                    withdraw(PEER, ROUTE, 10),
                    announce(PEER, ROUTE, 11),
                    withdraw(PEER, ROUTE_B, 10),
                ],
            )],
        )
        .unwrap();
    let session = processor.session(&PEER).unwrap();
    assert_eq!(session.prefix_count(), 1);
    assert_eq!(session.announcement(&ROUTE).unwrap().timestamp, Timestamp::from_secs(11));
    assert_eq!(session.last_message_timestamp(), Some(Timestamp::from_secs(11)));
}

#[test]
fn a_message_is_applied_to_a_session_by_its_kind() {
    let mut session = bgp_sessions::bgp_state::PeerSession::new();
    apply_bgp_message(&mut session, Timestamp::from_secs(1), BgpMessage::KeepAlive);
    assert_eq!(session.last_message_timestamp(), Some(Timestamp::from_secs(1)));
    apply_bgp_message(
        &mut session,
        Timestamp::from_secs(2),
        BgpMessage::Open(BgpOpenMessage { hold_time: 30, opt_params: vec![] }),
    );
    assert_eq!(session.connection_state(), ConnectionState::OpenSent);
    assert_eq!(session.hold_time(), Some(30));
    apply_bgp_message(
        &mut session,
        Timestamp::from_secs(3),
        BgpMessage::Update(vec![announce(PEER, ROUTE, 3)]),
    );
    assert_eq!(session.prefix_count(), 1);
    apply_bgp_message(&mut session, Timestamp::from_secs(4), BgpMessage::Notification);
    assert_eq!(session.connection_state(), ConnectionState::Idle);
    assert_eq!(session.prefix_count(), 0);
}

#[test]
fn the_check_looks_at_every_session() {
    let mut processor = MrtProcessor::new(100, Some(2));
    let mut records = Vec::new();
    for i in 0..20u32 {
        let peer = BgpPeer { address: IpAddress::V4(i), peer_as: i };
        // peer i was last heard of at 1000 + 10 * i
        records.push(state_change(peer, 1000 + 10 * i, BgpState::Idle, BgpState::Established));
    }
    processor.process_update_file("first", records).unwrap();
    // 1000 + 10 * i + 200 < 1305 holds for i up to 10
    processor.expire_silent_peers(Timestamp::from_secs(1305));
    for i in 0..20u32 {
        let peer = BgpPeer { address: IpAddress::V4(i), peer_as: i };
        let expected =
            if i <= 10 { ConnectionState::Idle } else { ConnectionState::Established };
        assert_eq!(processor.session(&peer).unwrap().connection_state(), expected, "peer {}", i);
    }
    assert_eq!(processor.peer_count(), 20);
}

#[test]
fn the_time_of_a_record_counts_its_microseconds() {
    let mut processor = MrtProcessor::new(180, None);
    let mut record = keep_alive(PEER, 42);
    record.common_header.microsecond_timestamp = Some(250_000);
    processor.process_update_file("updates", vec![record]).unwrap();
    assert_eq!(
        processor.session(&PEER).unwrap().last_message_timestamp(),
        Some(Timestamp::new(42, 250_000_000))
    );
}

#[test]
fn the_keys_of_the_sessions_give_back_the_peers() {
    let v6 = BgpPeer { address: IpAddress::V6(0x2001_0db8 << 96 | 1), peer_as: 4_200_000_000 };
    let mut processor = MrtProcessor::new(180, None);
    processor.process_bview(vec![announce(PEER, ROUTE, 1), announce(v6, ROUTE, 2)]);
    let peers: Vec<BgpPeer> = processor
        .get_current_state()
        .keys()
        .map(|key| BgpPeer::from_key(*key).unwrap())
        .collect();
    assert_eq!(peers, vec![PEER, v6]);
    assert_eq!(BgpPeer::from_key((4, 1 << 32, 1)), None);
    assert_eq!(BgpPeer::from_key((9, 1, 1)), None);
}

#[test]
fn a_peer_is_made_from_an_element() {
    assert_eq!(BgpPeer::from_elem(&announce(OTHER, ROUTE, 1)), OTHER);
    assert_eq!(OTHER.to_key(), (4, 0xC000_0202, 64501));
    assert_eq!(
        BgpPeer { address: IpAddress::V6(1), peer_as: 7 }.to_key(),
        (6, 1, 7)
    );
}
