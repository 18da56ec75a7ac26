//! The drop decision.

use dr_ones::drone::drop_decision;
use dr_ones::{
    Action, Drone, DroneEvent, Fragment, Nack, NackType, NodeId, Packet, PacketType,
    SourceRoutingHeader,
};
use rand::rngs::StdRng;
use rand::SeedableRng;
use std::collections::HashMap;

fn drone(pdr: i32, seed: u64) -> Drone<()> {
    let links: HashMap<NodeId, ()> = HashMap::from([(1, ()), (12, ())]);
    Drone::new(11, links, pdr, StdRng::seed_from_u64(seed))
}

fn fragment_packet() -> Packet {
    Packet {
        pack_type: PacketType::MsgFragment(Fragment {
            fragment_index: 1,
            total_n_fragments: 1,
            length: 128,
            data: [1; 128],
        }),
        routing_header: SourceRoutingHeader {
            hop_index: 1,
            hops: vec![1, 11, 12, 21],
        },
        session_id: 1,
    }
}

fn is_dropped(actions: &[Action]) -> bool {
    matches!(
        actions.first(),
        Some(Action::Notify(DroneEvent::PacketDropped(_)))
    )
}

#[test]
fn drop_decision_compares_the_draw_with_the_rate() {
    assert!(drop_decision(30, 0));
    assert!(drop_decision(30, 29));
    assert!(!drop_decision(30, 30));
    assert!(!drop_decision(30, 99));
    assert!(!drop_decision(0, 0));
    assert!(drop_decision(100, 99));
    assert!(drop_decision(1, 0));
    assert!(!drop_decision(1, 1));
    assert!(!drop_decision(-5, 0));
    assert!(drop_decision(250, 99));
}

#[test]
fn drop_rate_zero_never_drops() {
    let mut node = drone(0, 11);
    for _ in 0..2000 {
        assert!(!node.should_drop_packet());
    }
    for _ in 0..500 {
        let mut forwarded = fragment_packet();
        forwarded.routing_header.hop_index = 2;
        assert_eq!(
            node.handle_routed_packet(fragment_packet()),
            vec![
                Action::Notify(DroneEvent::PacketSent(forwarded.clone())),
                Action::Send {
                    to: 12,
                    packet: forwarded
                },
            ]
        );
    }
}

#[test]
fn drop_rate_one_always_drops() {
    let mut node = drone(100, 12);
    for _ in 0..2000 {
        assert!(node.should_drop_packet());
    }
    for _ in 0..500 {
        assert_eq!(
            node.handle_routed_packet(fragment_packet()),
            vec![
                Action::Notify(DroneEvent::PacketDropped(fragment_packet())),
                Action::Send {
                    to: 1,
                    packet: Packet {
                        pack_type: PacketType::Nack(Nack {
                            fragment_index: 1,
                            nack_type: NackType::Dropped,
                        }),
                        routing_header: SourceRoutingHeader {
                            hop_index: 1,
                            hops: vec![11, 1],
                        },
                        session_id: 1,
                    },
                },
            ]
        );
    }
}

#[test]
fn drop_rate_in_between_drops_some_and_keeps_some() {
    let mut node = drone(50, 13);
    let mut dropped = 0;
    let trials = 4000;
    for _ in 0..trials {
        if node.should_drop_packet() {
            dropped += 1;
        }
    }
    // Far from both ends: the draws are spread over the whole range.
    assert!(dropped > trials / 4, "dropped {dropped} of {trials}");
    assert!(dropped < 3 * trials / 4, "dropped {dropped} of {trials}");
}

#[test]
fn low_drop_rate_drops_seldom_and_high_drop_rate_often() {
    let trials = 4000;
    let mut low = drone(5, 14);
    let mut high = drone(95, 15);
    let mut dropped_low = 0;
    let mut dropped_high = 0;
    for _ in 0..trials {
        if is_dropped(&low.handle_routed_packet(fragment_packet())) {
            dropped_low += 1;
        }
        if is_dropped(&high.handle_routed_packet(fragment_packet())) {
            dropped_high += 1;
        }
    }
    assert!(dropped_low > 0 && dropped_low < trials / 5);
    assert!(dropped_high < trials && dropped_high > 4 * trials / 5);
}

#[test]
fn drop_rate_outside_the_scale_at_construction() {
    let mut never = drone(-20, 16);
    let mut always = drone(170, 17);
    for _ in 0..500 {
        assert!(!never.should_drop_packet());
        assert!(always.should_drop_packet());
    }
}

#[test]
fn every_fragment_is_either_sent_or_dropped() {
    let mut node = drone(40, 18);
    for _ in 0..200 {
        let actions = node.handle_routed_packet(fragment_packet());
        assert_eq!(actions.len(), 2);
        match (&actions[0], &actions[1]) {
            (Action::Notify(DroneEvent::PacketSent(_)), Action::Send { to: 12, .. }) => {}
            (Action::Notify(DroneEvent::PacketDropped(_)), Action::Send { to: 1, .. }) => {}
            other => panic!("unexpected actions {other:?}"),
        }
    }
}

#[test]
fn fragment_handling_at_the_ends_of_the_scale() {
    let mut forwarded = fragment_packet();
    forwarded.routing_header.hop_index = 2;
    let mut keeps = drone(0, 19);
    let mut drops = drone(100, 20);
    for _ in 0..300 {
        assert_eq!(
            keeps.handle_message_fragment(fragment_packet()),
            vec![
                Action::Notify(DroneEvent::PacketSent(forwarded.clone())),
                Action::Send {
                    to: 12,
                    packet: forwarded.clone()
                },
            ]
        );
        assert_eq!(
            drops.handle_message_fragment(fragment_packet()),
            vec![
                Action::Notify(DroneEvent::PacketDropped(fragment_packet())),
                Action::Send {
                    to: 1,
                    packet: Packet {
                        pack_type: PacketType::Nack(Nack {
                            fragment_index: 1,
                            nack_type: NackType::Dropped,
                        }),
                        routing_header: SourceRoutingHeader {
                            hop_index: 1,
                            hops: vec![11, 1],
                        },
                        session_id: 1,
                    },
                },
            ]
        );
    }
    assert_eq!(keeps.get_pdr(), 0);
    assert_eq!(drops.get_pdr(), 100);
}
