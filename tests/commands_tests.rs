use std::collections::HashMap;

use drone_bettercalldrone::{
    Action, BetterCallDrone, DroneCommand, DroneEvent, FloodRequest, FloodResponse, Fragment, Nack,
    NackType, NodeType, Packet, PacketType, SourceRoutingHeader, PDR_SCALE,
};

fn fragment(hops: Vec<u8>, hop_index: usize) -> Packet {
    Packet::new_fragment(
        SourceRoutingHeader { hop_index, hops },
        1,
        Fragment { fragment_index: 1, total_n_fragments: 1, length: 128, data: [1; 128] },
    )
}

fn nack(hops: Vec<u8>, hop_index: usize, nack_type: NackType) -> Packet {
    Packet {
        pack_type: PacketType::Nack(Nack { fragment_index: 1, nack_type }),
        routing_header: SourceRoutingHeader { hop_index, hops },
        session_id: 1,
    }
}

#[test]
fn test_set_pdr() {
    let mut drone = BetterCallDrone::new(11, HashMap::from([(12, 12u8)]), PDR_SCALE);
    drone.handle_command(DroneCommand::SetPacketDropRate(0));
    assert_eq!(drone.pdr(), 0);

    let mut msg = fragment(vec![1, 11, 12, 21], 1);
    let acts = drone.handle_packet(msg.clone());
    msg.routing_header.hop_index = 2;
    assert_eq!(
        acts,
        vec![Action::Send(12, msg.clone()), Action::Report(DroneEvent::PacketSent(msg))]
    );
}

#[test]
fn test_set_invalid_pdr() {
    let mut drone = BetterCallDrone::new(11, HashMap::from([(12, 12u8), (1, 1u8)]), PDR_SCALE);
    drone.handle_command(DroneCommand::SetPacketDropRate(2 * PDR_SCALE as i64));
    assert_eq!(drone.pdr(), PDR_SCALE);

    let msg = fragment(vec![1, 11, 21], 1);
    let acts = drone.handle_packet(msg.clone());
    assert_eq!(acts[0], Action::Send(1, nack(vec![11, 1], 1, NackType::Dropped)));
}

#[test]
fn set_pdr_refuses_negative_and_above_one() {
    let mut drone = BetterCallDrone::new(11, HashMap::<u8, u8>::new(), 250_000);
    drone.set_pdr(-1);
    assert_eq!(drone.pdr(), 250_000);
    drone.set_pdr(PDR_SCALE as i64 + 1);
    assert_eq!(drone.pdr(), 250_000);
    drone.set_pdr(PDR_SCALE as i64);
    assert_eq!(drone.pdr(), PDR_SCALE);
    drone.set_pdr(0);
    assert_eq!(drone.pdr(), 0);
}

#[test]
fn test_add_sender() {
    let mut drone = BetterCallDrone::new(11, HashMap::new(), 0);
    drone.handle_command(DroneCommand::AddSender(12, 12u8));

    let mut msg = fragment(vec![1, 11, 12, 21], 1);
    let acts = drone.handle_packet(msg.clone());
    msg.routing_header.hop_index = 2;
    assert_eq!(
        acts,
        vec![Action::Send(12, msg.clone()), Action::Report(DroneEvent::PacketSent(msg))]
    );
}

#[test]
fn test_add_existing_sender() {
    // links are labelled so that a replaced link would show
    let mut drone = BetterCallDrone::new(11, HashMap::from([(12, "first")]), 0);
    drone.handle_command(DroneCommand::AddSender(12, "second"));
    assert_eq!(drone.packet_send.get(&12), Some(&"first"));
    assert_eq!(drone.packet_send.len(), 1);

    let mut msg = fragment(vec![1, 11, 12, 21], 1);
    let acts = drone.handle_packet(msg.clone());
    msg.routing_header.hop_index = 2;
    assert_eq!(
        acts,
        vec![Action::Send(12, msg.clone()), Action::Report(DroneEvent::PacketSent(msg))]
    );
}

#[test]
fn test_remove_sender() {
    let mut drone1 = BetterCallDrone::new(11, HashMap::from([(12, 12u8), (1, 1u8)]), 0);
    let mut drone2 = BetterCallDrone::new(12, HashMap::from([(11, 11u8), (13, 13u8)]), 0);
    drone2.handle_command(DroneCommand::RemoveSender(13));
    assert!(drone2.packet_send.get(&13).is_none());

    let msg = fragment(vec![1, 11, 12, 13, 21], 1);
    let acts = drone1.handle_packet(msg);
    let to_drone2 = match &acts[0] {
        Action::Send(12, p) => p.clone(),
        other => panic!("unexpected action {:?}", other),
    };
    let acts = drone2.handle_packet(to_drone2);
    let back = match &acts[..] {
        [Action::Send(11, p)] => p.clone(),
        other => panic!("unexpected actions {:?}", other),
    };
    assert_eq!(back, nack(vec![12, 11, 1], 1, NackType::ErrorInRouting(13)));
    let acts = drone1.handle_packet(back);
    assert_eq!(acts[0], Action::Send(1, nack(vec![12, 11, 1], 2, NackType::ErrorInRouting(13))));
}

#[test]
fn test_remove_non_existing_sender() {
    let mut drone = BetterCallDrone::new(11, HashMap::from([(12, 12u8)]), PDR_SCALE);
    drone.handle_command(DroneCommand::RemoveSender(14));
    assert_eq!(drone.packet_send.len(), 1);
    assert!(drone.packet_send.get(&14).is_none());
}

#[test]
fn test_crash_message() {
    let drone = BetterCallDrone::new(11, HashMap::from([(1, 1u8), (12, 12u8)]), 0);
    let packet = Packet {
        pack_type: PacketType::MsgFragment(Fragment {
            fragment_index: 1,
            total_n_fragments: 1,
            length: 128,
            data: [1; 128],
        }),
        routing_header: SourceRoutingHeader { hop_index: 1, hops: vec![1, 11, 12] },
        session_id: 1,
    };
    let acts = drone.crash_drone(vec![packet]);
    assert_eq!(acts, vec![Action::Send(1, nack(vec![11, 1], 1, NackType::ErrorInRouting(11)))]);
}

#[test]
fn test_crash_ack() {
    let drone = BetterCallDrone::new(11, HashMap::from([(1, 1u8), (12, 12u8)]), 0);
    let mut ack = Packet::new_ack(SourceRoutingHeader { hop_index: 1, hops: vec![12, 11, 1] }, 1, 1);
    let acts = drone.crash_drone(vec![ack.clone()]);
    ack.routing_header.hop_index += 1;
    assert_eq!(acts[0], Action::Send(1, ack));
}

#[test]
fn test_crash_nack() {
    let drone = BetterCallDrone::new(11, HashMap::from([(1, 1u8), (12, 12u8)]), 0);
    let mut n = Packet::new_nack(
        SourceRoutingHeader { hop_index: 1, hops: vec![12, 11, 1] },
        1,
        Nack { fragment_index: 1, nack_type: NackType::Dropped },
    );
    let acts = drone.crash_drone(vec![n.clone()]);
    n.routing_header.hop_index += 1;
    assert_eq!(acts[0], Action::Send(1, n));
}

#[test]
fn test_crash_flood_response() {
    let drone = BetterCallDrone::new(11, HashMap::from([(1, 1u8), (12, 12u8)]), 0);
    let mut fr = Packet {
        pack_type: PacketType::FloodResponse(FloodResponse {
            flood_id: 777,
            path_trace: vec![(12, NodeType::Drone), (11, NodeType::Drone), (1, NodeType::Client)],
        }),
        routing_header: SourceRoutingHeader { hop_index: 1, hops: vec![12, 11, 1] },
        session_id: 4,
    };
    let acts = drone.crash_drone(vec![fr.clone()]);
    fr.routing_header.hop_index += 1;
    assert_eq!(acts[0], Action::Send(1, fr));
}

#[test]
fn test_crash_flood_request() {
    let drone = BetterCallDrone::new(11, HashMap::from([(1, 1u8), (12, 12u8)]), 0);
    let fr = Packet {
        pack_type: PacketType::FloodRequest(FloodRequest {
            flood_id: 777,
            initiator_id: 1,
            path_trace: vec![(1, NodeType::Client)],
        }),
        routing_header: SourceRoutingHeader::empty_route(),
        session_id: 4,
    };
    let acts = drone.crash_drone(vec![fr]);
    assert!(
        acts.is_empty(),
        "Client 1 unexpectedly received a packet after the drone crashed"
    );
}

#[test]
fn crash_drains_queue_in_order() {
    let drone = BetterCallDrone::new(11, HashMap::from([(1, 1u8), (12, 12u8)]), 0);
    let flood = Packet::new_flood_request(
        SourceRoutingHeader::empty_route(),
        4,
        FloodRequest { flood_id: 1, initiator_id: 1, path_trace: vec![(1, NodeType::Client)] },
    );
    let mut ack = Packet::new_ack(SourceRoutingHeader { hop_index: 1, hops: vec![12, 11, 1] }, 1, 3);
    let frag = fragment(vec![1, 11, 12], 1);
    let acts = drone.crash_drone(vec![frag, flood, ack.clone()]);
    ack.routing_header.hop_index = 2;
    assert_eq!(
        acts,
        vec![
            Action::Send(1, nack(vec![11, 1], 1, NackType::ErrorInRouting(11))),
            Action::Send(1, ack.clone()),
            Action::Report(DroneEvent::PacketSent(ack)),
        ]
    );
}

#[test]
fn relay_forwards_fragment_to_next_hop() {
    let mut relay = BetterCallDrone::new(11, HashMap::from([(21, 21u8)]), 0);
    let acts = relay.handle_packet(fragment(vec![1, 11, 21], 1));
    let sent = match &acts[..] {
        [Action::Send(21, p), Action::Report(DroneEvent::PacketSent(q))] => {
            assert_eq!(p, q);
            p.clone()
        }
        other => panic!("unexpected actions {:?}", other),
    };
    assert_eq!(sent.routing_header.hop_index, 2);
    assert_eq!(sent.routing_header.hops, vec![1, 11, 21]);

    let acts = relay.handle_packet(fragment(vec![11, 21], 0));
    match &acts[..] {
        [Action::Send(21, p), Action::Report(DroneEvent::PacketSent(q))] => {
            assert_eq!(p.routing_header.hop_index, 1);
            assert_eq!(q.routing_header.hop_index, 1);
        }
        other => panic!("unexpected actions {:?}", other),
    }
}
