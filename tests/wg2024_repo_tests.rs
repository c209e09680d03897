use std::collections::HashMap;

use drone_bettercalldrone::{
    Ack, Action, BetterCallDrone, DroneEvent, Fragment, Nack, NackType, NodeId, Packet,
    PacketType, SourceRoutingHeader, PDR_SCALE,
};

fn msg(hops: Vec<NodeId>) -> Packet {
    Packet {
        pack_type: PacketType::MsgFragment(Fragment {
            fragment_index: 1,
            total_n_fragments: 1,
            length: 128,
            data: [1; 128],
        }),
        routing_header: SourceRoutingHeader { hop_index: 1, hops },
        session_id: 1,
    }
}

/// Hands `packet` to `drone` and returns what it sends, by neighbour.
fn sends(drone: &mut BetterCallDrone<NodeId>, packet: Packet) -> Vec<(NodeId, Packet)> {
    drone
        .handle_packet(packet)
        .into_iter()
        .filter_map(|a| match a {
            Action::Send(n, p) => Some((n, p)),
            Action::Report(_) => None,
        })
        .collect()
}

#[test]
fn wg2024_repo_tests_test_generic_fragment_forward() {
    let mut drone = BetterCallDrone::new(11, HashMap::from([(12, 12)]), 0);
    let mut packet = msg(vec![1, 11, 12, 21]);
    let acts = drone.handle_packet(packet.clone());
    packet.routing_header.hop_index = 2;
    assert_eq!(
        acts,
        vec![Action::Send(12, packet.clone()), Action::Report(DroneEvent::PacketSent(packet))]
    );
}

#[test]
fn wg2024_repo_tests_test_generic_fragment_drop() {
    let mut drone = BetterCallDrone::new(11, HashMap::from([(1, 1), (12, 12)]), PDR_SCALE);
    let got = sends(&mut drone, msg(vec![1, 11, 12, 21]));
    let expected = Packet {
        pack_type: PacketType::Nack(Nack { fragment_index: 1, nack_type: NackType::Dropped }),
        routing_header: SourceRoutingHeader { hop_index: 1, hops: vec![11, 1] },
        session_id: 1,
    };
    assert_eq!(got, vec![(1, expected)]);
}

#[test]
fn wg2024_repo_tests_test_generic_chain_fragment_drop() {
    let mut drone = BetterCallDrone::new(11, HashMap::from([(1, 1), (12, 12)]), 0);
    let mut drone2 = BetterCallDrone::new(12, HashMap::from([(11, 11), (21, 21)]), PDR_SCALE);
    let to_12 = sends(&mut drone, msg(vec![1, 11, 12, 21]));
    assert_eq!(to_12.len(), 1);
    let back = sends(&mut drone2, to_12[0].1.clone());
    assert_eq!(back.len(), 1);
    assert_eq!(back[0].0, 11);
    let to_client = sends(&mut drone, back[0].1.clone());
    let expected = Packet {
        pack_type: PacketType::Nack(Nack { fragment_index: 1, nack_type: NackType::Dropped }),
        routing_header: SourceRoutingHeader { hop_index: 2, hops: vec![12, 11, 1] },
        session_id: 1,
    };
    assert_eq!(to_client, vec![(1, expected)]);
}

#[test]
fn wg2024_repo_tests_test_generic_chain_fragment_ack() {
    let mut drone = BetterCallDrone::new(11, HashMap::from([(1, 1), (12, 12)]), 0);
    let mut drone2 = BetterCallDrone::new(12, HashMap::from([(11, 11), (21, 21)]), 0);
    let to_12 = sends(&mut drone, msg(vec![1, 11, 12, 21]));
    let to_server = sends(&mut drone2, to_12[0].1.clone());
    let mut expected = msg(vec![1, 11, 12, 21]);
    expected.routing_header.hop_index = 3;
    assert_eq!(to_server, vec![(21, expected)]);

    let ack = Packet {
        pack_type: PacketType::Ack(Ack { fragment_index: 1 }),
        routing_header: SourceRoutingHeader { hop_index: 1, hops: vec![21, 12, 11, 1] },
        session_id: 1,
    };
    let to_11 = sends(&mut drone2, ack);
    let to_client = sends(&mut drone, to_11[0].1.clone());
    let expected_ack = Packet {
        pack_type: PacketType::Ack(Ack { fragment_index: 1 }),
        routing_header: SourceRoutingHeader { hop_index: 3, hops: vec![21, 12, 11, 1] },
        session_id: 1,
    };
    assert_eq!(to_client, vec![(1, expected_ack)]);
}
