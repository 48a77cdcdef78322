use bonsai::statistics::{
    assemble_statistics, contains_text, encode_stump, process_peer_infos, regex_user_agent,
    AccumulatorDigest, NodeImpl, NodeReadings, PeerInfo, TransportProtocol,
};

fn peer(agent: &str) -> PeerInfo {
    PeerInfo {
        address: "127.0.0.1:38333".to_string(),
        services: 0x409,
        user_agent: agent.to_string(),
        initial_height: 1000,
        state: "Ready".to_string(),
        kind: "Regular".to_string(),
        transport_protocol: TransportProtocol::V2,
    }
}

fn readings(peers: Vec<PeerInfo>, bytes: Option<Vec<u8>>) -> NodeReadings {
    NodeReadings {
        in_ibd: false,
        headers: 1000,
        blocks: 1000,
        accumulator: AccumulatorDigest { leaves: 3, roots: vec![[1u8; 32], [2u8; 32]] },
        accumulator_bytes: bytes,
        user_agent: "/Floresta:0.8.0/".to_string(),
        peers,
    }
}

#[test]
fn knots_agent_is_knots_not_core() {
    assert_eq!(regex_user_agent("/Satoshi:26.0.0/Knots:20231115/"), NodeImpl::Knots);
}

#[test]
fn satoshi_agent_is_core() {
    assert_eq!(regex_user_agent("/Satoshi:26.0.0/"), NodeImpl::Core);
}

#[test]
fn other_agents_by_substring() {
    assert_eq!(regex_user_agent("/btcd:0.24.0/"), NodeImpl::Btcd);
    assert_eq!(regex_user_agent("/utreexod:0.2.1/"), NodeImpl::Utreexod);
    assert_eq!(regex_user_agent("/floresta:0.7.0/"), NodeImpl::Floresta);
    assert_eq!(regex_user_agent("/bitcoinj:0.16/"), NodeImpl::Unknown);
    assert_eq!(regex_user_agent(""), NodeImpl::Unknown);
}

#[test]
fn knots_after_a_line_break_is_core() {
    assert_eq!(regex_user_agent("/Satoshi:26.0.0/\nKnots"), NodeImpl::Core);
    assert_eq!(regex_user_agent("Knots then Satoshi"), NodeImpl::Core);
}

#[test]
fn implementation_labels() {
    assert_eq!(NodeImpl::Core.label(), "Bitcoin Core");
    assert_eq!(NodeImpl::Knots.label(), "Bitcoin Knots");
    assert_eq!(NodeImpl::Btcd.label(), "btcd");
    assert_eq!(NodeImpl::Unknown.label(), "Unknown");
}

#[test]
fn substring_search() {
    assert!(contains_text("/utreexod:0.2/", "utreexod"));
    assert!(contains_text("abc", ""));
    assert!(!contains_text("ab", "abc"));
    assert!(!contains_text("btc d", "btcd"));
}

#[test]
fn peers_are_classified_in_order() {
    let raw = vec![peer("/Satoshi:27.0.0/"), peer("/btcd:0.24.0/"), peer("/x/")];
    let out = process_peer_infos(&raw);
    assert_eq!(out.len(), 3);
    assert_eq!(out[0].node_impl, NodeImpl::Core);
    assert_eq!(out[1].node_impl, NodeImpl::Btcd);
    assert_eq!(out[2].node_impl, NodeImpl::Unknown);
    assert_eq!(out[1].user_agent, "/btcd:0.24.0/");
    assert_eq!(out[0].socket, "127.0.0.1:38333");
    assert_eq!(out[0].services, 0x409);
    assert_eq!(out[0].initial_height, 1000);
    assert_eq!(out[0].transport_protocol, TransportProtocol::V2);
}

#[test]
fn stump_export_is_lower_case_hex() {
    assert_eq!(encode_stump(&[0xde, 0xad, 0x01, 0xff]), "dead01ff");
    assert_eq!(encode_stump(&[]), "");
}

#[test]
fn snapshot_from_readings() {
    let stats = assemble_statistics(
        readings(vec![peer("/Satoshi:26.0.0/Knots:x/")], Some(vec![0x0a, 0xbc])),
        Some(1_000),
        4_500,
    );
    assert!(!stats.in_ibd);
    assert_eq!(stats.headers, 1000);
    assert_eq!(stats.blocks, 1000);
    assert_eq!(stats.accumulator.leaves, 3);
    assert_eq!(stats.accumulator.roots.len(), 2);
    assert_eq!(stats.accumulator_qr_data.as_deref(), Some("0abc"));
    assert_eq!(stats.user_agent, "/Floresta:0.8.0/");
    assert_eq!(stats.peer_informations.len(), 1);
    assert_eq!(stats.peer_informations[0].node_impl, NodeImpl::Knots);
    assert_eq!(stats.uptime, 3_500);
}

#[test]
fn snapshot_uptime_and_export_edges() {
    let never_started = assemble_statistics(readings(vec![], None), None, 9_000);
    assert_eq!(never_started.uptime, 0);
    assert_eq!(never_started.accumulator_qr_data, None);
    let clock_behind = assemble_statistics(readings(vec![], Some(vec![])), Some(10), 5);
    assert_eq!(clock_behind.uptime, 0);
    assert_eq!(clock_behind.accumulator_qr_data, None);
}

#[test]
fn implementation_icons() {
    assert_eq!(NodeImpl::Utreexod.icon_path(), "assets/icon/implementations/utreexod.jpeg");
    assert_eq!(NodeImpl::Unknown.icon_path(), "assets/icon/implementations/unknown.png");
}
