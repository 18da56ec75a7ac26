//! The routing of packets that are no flood requests, one drone at a time.

use dr_ones::utils::{build_nack, ids_of_trace, reverse_path};
use dr_ones::{
    Ack, Action, Drone, DroneEvent, FloodRequest, FloodResponse, Fragment, Nack, NackType,
    NetworkUtils, NodeId, NodeType, Packet, PacketType, SourceRoutingHeader,
};
use rand::rngs::StdRng;
use rand::{Rng, SeedableRng};
use std::collections::HashMap;

fn drone(id: NodeId, neighbours: &[NodeId], pdr: i32) -> Drone<()> {
    let links: HashMap<NodeId, ()> = neighbours.iter().map(|id| (*id, ())).collect();
    Drone::new(id, links, pdr, StdRng::seed_from_u64(2024))
}

fn packet(pack_type: PacketType, hops: &[NodeId], hop_index: usize, session_id: u64) -> Packet {
    Packet {
        pack_type,
        routing_header: SourceRoutingHeader {
            hop_index,
            hops: hops.to_vec(),
        },
        session_id,
    }
}

fn fragment(fragment_index: u64) -> PacketType {
    PacketType::MsgFragment(Fragment {
        fragment_index,
        total_n_fragments: 10,
        length: 128,
        data: [3; 128],
    })
}

fn ack(fragment_index: u64) -> PacketType {
    PacketType::Ack(Ack { fragment_index })
}

fn nack(fragment_index: u64, nack_type: NackType) -> PacketType {
    PacketType::Nack(Nack {
        fragment_index,
        nack_type,
    })
}

/// Tests the creation of a Drone instance with the expected initial parameters.
#[test]
fn test_drone_creation() {
    let packet_send: HashMap<NodeId, ()> = HashMap::new();

    let drone = Drone::new(1, packet_send, 0, StdRng::seed_from_u64(1));

    assert_eq!(drone.get_id(), 1);
    assert_eq!(drone.get_pdr(), 0);
    assert!(drone.get_packet_send().is_empty());
    assert!(drone.get_seen_flood_ids().is_empty());
    assert!(!drone.get_crashing_behavior());
    assert!(!drone.should_exit());
}

#[test]
fn reverse_path_turns_the_traversed_hops_around() {
    let hops = vec![1, 11, 12, 21];
    assert_eq!(
        reverse_path(&hops, 3),
        SourceRoutingHeader {
            hop_index: 1,
            hops: vec![12, 11, 1],
        }
    );
    assert_eq!(
        reverse_path(&hops, 4),
        SourceRoutingHeader {
            hop_index: 1,
            hops: vec![21, 12, 11, 1],
        }
    );
    assert_eq!(
        reverse_path(&hops, 1),
        SourceRoutingHeader {
            hop_index: 1,
            hops: vec![1],
        }
    );
    assert_eq!(
        reverse_path(&hops, 0),
        SourceRoutingHeader {
            hop_index: 1,
            hops: vec![],
        }
    );
}

#[test]
fn ids_of_trace_keeps_the_order() {
    let trace = vec![
        (1, NodeType::Client),
        (11, NodeType::Drone),
        (21, NodeType::Server),
    ];
    assert_eq!(ids_of_trace(&trace), vec![1, 11, 21]);
    assert_eq!(ids_of_trace(&Vec::new()), Vec::<NodeId>::new());
}

#[test]
fn nack_of_a_fragment_carries_its_index_and_session() {
    let received = packet(fragment(7), &[1, 11, 12, 21], 2, 99);
    assert_eq!(
        build_nack(&received, NackType::Dropped),
        packet(nack(7, NackType::Dropped), &[12, 11, 1], 1, 99)
    );
}

#[test]
fn nack_of_another_packet_carries_index_zero() {
    let received = packet(ack(7), &[1, 11, 12, 21], 1, 5);
    assert_eq!(
        build_nack(&received, NackType::UnexpectedRecipient(13)),
        packet(nack(0, NackType::UnexpectedRecipient(13)), &[11, 1], 1, 5)
    );
    let response = PacketType::FloodResponse(FloodResponse {
        flood_id: 3,
        path_trace: vec![(1, NodeType::Client)],
    });
    let received = packet(response, &[21, 12, 11, 1], 3, 6);
    assert_eq!(
        build_nack(&received, NackType::DestinationIsDrone),
        packet(
            nack(0, NackType::DestinationIsDrone),
            &[1, 11, 12, 21],
            1,
            6
        )
    );
}

#[test]
fn forward_packet_needs_a_link_to_the_hop() {
    let node = drone(11, &[1, 12], 0);
    let linked = packet(ack(1), &[1, 11, 12], 2, 1);
    assert_eq!(
        node.forward_packet(linked.clone()),
        vec![Action::Send {
            to: 12,
            packet: linked
        }]
    );
    let unlinked = packet(ack(1), &[1, 11, 13], 2, 1);
    assert_eq!(node.forward_packet(unlinked), vec![]);
    let past_the_end = packet(ack(1), &[1, 11, 12], 3, 1);
    assert_eq!(node.forward_packet(past_the_end), vec![]);
}

#[test]
fn unexpected_recipient_is_answered_with_a_nack() {
    let mut node = drone(11, &[1, 12], 0);
    // The header expects node 13 at position 1.
    let received = packet(fragment(2), &[1, 13, 12, 21], 1, 8);
    assert!(node.verify_routing(&received).is_some());
    assert_eq!(
        node.handle_routed_packet(received),
        vec![Action::Send {
            to: 1,
            packet: packet(nack(2, NackType::UnexpectedRecipient(11)), &[13, 1], 1, 8),
        }]
    );
    // The same holds of a packet that is no fragment.
    let received = packet(ack(2), &[1, 13, 12, 21], 1, 8);
    assert_eq!(
        node.handle_routed_packet(received),
        vec![Action::Send {
            to: 1,
            packet: packet(nack(0, NackType::UnexpectedRecipient(11)), &[13, 1], 1, 8),
        }]
    );
}

#[test]
fn expected_recipient_passes_the_check() {
    let node = drone(11, &[1, 12], 0);
    let received = packet(fragment(2), &[1, 11, 12, 21], 1, 8);
    assert_eq!(node.verify_routing(&received), None);
}

#[test]
fn nack_without_a_way_back_is_not_sent() {
    let mut node = drone(11, &[12], 0);
    // At position 0 nothing has been traversed: there is nobody to answer.
    let received = packet(fragment(2), &[13, 12], 0, 8);
    assert_eq!(node.handle_routed_packet(received), vec![]);
    // The previous hop is not linked.
    let received = packet(fragment(2), &[1, 13, 12], 1, 8);
    assert_eq!(node.handle_routed_packet(received), vec![]);
}

#[test]
fn fragment_for_a_drone_is_answered_with_destination_is_drone() {
    let mut node = drone(11, &[1, 12], 0);
    let received = packet(fragment(5), &[1, 12, 11], 2, 3);
    assert_eq!(
        node.handle_routed_packet(received),
        vec![Action::Send {
            to: 12,
            packet: packet(nack(5, NackType::DestinationIsDrone), &[11, 12, 1], 1, 3),
        }]
    );
}

#[test]
fn other_packet_for_a_drone_is_reported_as_shortcut() {
    let mut node = drone(11, &[1, 12], 0);
    let received = packet(ack(5), &[1, 12, 11], 2, 3);
    assert_eq!(
        node.handle_routed_packet(received.clone()),
        vec![Action::Notify(DroneEvent::ControllerShortcut(received))]
    );
    let received = packet(nack(5, NackType::Dropped), &[1, 12, 11], 2, 3);
    assert_eq!(
        node.handle_routed_packet(received.clone()),
        vec![Action::Notify(DroneEvent::ControllerShortcut(received))]
    );
}

#[test]
fn shortcut_is_sent_as_it_is_over_a_link_to_the_drone_itself() {
    let mut node = drone(11, &[11, 12], 0);
    let received = packet(ack(5), &[1, 12, 11], 2, 3);
    assert_eq!(
        node.handle_routed_packet(received.clone()),
        vec![
            Action::Notify(DroneEvent::ControllerShortcut(received.clone())),
            Action::Send {
                to: 11,
                packet: received
            },
        ]
    );
}

#[test]
fn unreachable_next_hop_of_a_fragment_is_answered_with_error_in_routing() {
    let mut node = drone(11, &[1], 0);
    let received = packet(fragment(1), &[1, 11, 12, 21], 1, 1);
    assert_eq!(
        node.handle_routed_packet(received),
        vec![Action::Send {
            to: 1,
            packet: packet(nack(1, NackType::ErrorInRouting(12)), &[11, 1], 1, 1),
        }]
    );
}

#[test]
fn unreachable_next_hop_of_another_packet_drops_it_silently() {
    let mut node = drone(11, &[1], 0);
    for pack_type in [
        ack(1),
        nack(1, NackType::Dropped),
        PacketType::FloodResponse(FloodResponse {
            flood_id: 1,
            path_trace: vec![(21, NodeType::Server)],
        }),
    ] {
        let received = packet(pack_type, &[1, 11, 12, 21], 1, 1);
        assert_eq!(node.handle_routed_packet(received), vec![]);
    }
}

#[test]
fn other_packets_are_forwarded_one_position_further() {
    let mut node = drone(11, &[1, 12], 100);
    for pack_type in [
        ack(1),
        nack(1, NackType::Dropped),
        PacketType::FloodResponse(FloodResponse {
            flood_id: 1,
            path_trace: vec![(21, NodeType::Server), (11, NodeType::Drone)],
        }),
    ] {
        let received = packet(pack_type, &[21, 11, 12, 1], 1, 4);
        let mut forwarded = received.clone();
        forwarded.routing_header.hop_index = 2;
        assert_eq!(
            node.handle_routed_packet(received),
            vec![Action::Send {
                to: 12,
                packet: forwarded
            }]
        );
    }
}

#[test]
fn forwarded_fragment_is_one_hop_further_on_the_same_path() {
    let mut node = drone(11, &[1, 12], 0);
    let received = packet(fragment(1), &[1, 11, 12, 21], 1, 1);
    let actions = node.handle_routed_packet(received.clone());
    assert_eq!(actions.len(), 2);
    match &actions[1] {
        Action::Send { to, packet } => {
            assert_eq!(*to, 12);
            assert_eq!(
                packet.routing_header.hop_index,
                received.routing_header.hop_index + 1
            );
            assert_eq!(packet.routing_header.hops, received.routing_header.hops);
            assert_eq!(packet.pack_type, received.pack_type);
            assert_eq!(packet.session_id, received.session_id);
        }
        Action::Notify(_) => panic!("the second action sends the fragment"),
    }
    match &actions[0] {
        Action::Notify(DroneEvent::PacketSent(packet)) => {
            assert_eq!(packet.routing_header.hop_index, 2)
        }
        _ => panic!("the first action reports the fragment as sent"),
    }
}

#[test]
fn routing_leaves_the_drone_as_it_is() {
    let mut node = drone(11, &[1, 12], 100);
    node.handle_routed_packet(packet(fragment(1), &[1, 11, 12, 21], 1, 1));
    node.handle_routed_packet(packet(ack(1), &[1, 11, 12, 21], 1, 1));
    assert_eq!(node.get_id(), 11);
    assert_eq!(node.get_pdr(), 100);
    assert_eq!(node.get_packet_send().len(), 2);
    assert!(node.get_seen_flood_ids().is_empty());
    assert!(!node.get_crashing_behavior());
}

#[test]
fn trait_getters_agree_with_the_drone() {
    let mut node = drone(11, &[1, 12], 0);
    assert_eq!(NetworkUtils::get_id(&node), 11);
    let mut linked: Vec<NodeId> = node.get_packet_senders().keys().copied().collect();
    linked.sort();
    assert_eq!(linked, vec![1, 12]);
    let before = node.get_random_generator().clone();
    assert_eq!(*node.get_random_generator(), before);
}

#[test]
fn generator_handed_out_is_the_one_of_the_drone() {
    // The drone is given a generator seeded with 2024.
    let mut node = drone(11, &[1, 12], 0);
    let mut reference = StdRng::seed_from_u64(2024);
    assert_eq!(*node.get_random_generator(), reference);

    // What is drawn through the reference is drawn from the drone's generator.
    let drawn: u64 = node.get_random_generator().gen();
    assert_eq!(drawn, reference.gen::<u64>());
    assert_eq!(*node.get_random_generator(), reference);

    // The next number goes to the session of a flood response.
    let request = packet(
        PacketType::FloodRequest(FloodRequest {
            flood_id: 1,
            initiator_id: 1,
            path_trace: vec![(1, NodeType::Client)],
        }),
        &[],
        0,
        0,
    );
    let response = node.build_flood_response(
        request,
        vec![(1, NodeType::Client), (11, NodeType::Drone)],
    );
    assert_eq!(response.session_id, reference.gen::<u64>());
    assert_eq!(*node.get_random_generator(), reference);

    // Nothing else of the drone has changed.
    assert_eq!(node.get_id(), 11);
    assert_eq!(node.get_pdr(), 0);
    assert_eq!(node.get_packet_send().len(), 2);
}
