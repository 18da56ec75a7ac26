//! What holds of the model in [`crate::model`], whatever the drone and the packet.

use crate::controller::{Event, Step};
use crate::model::{
    admissible, arrived_from, broadcast, broadcast_below, carry_fragment, dispatch, drain, drops,
    flood, flood_response, forward, nack_for, reverse_route, route, turns_around, DroneView,
    Lifecycle, PER_CENT,
};
use crate::packet::{Nack, NackType, NodeId, NodeType, PacketView, Payload};
use vstd::prelude::*;

verus! {

/// Hop monotonicity. Whatever the routing of a packet sends that is neither a negative
/// acknowledgement nor a flood response is the packet itself, one position further along an
/// unchanged hop list, and it goes to the node at that position.
///
/// One input is left out: an acknowledgement or a flood request whose path ends at this drone,
/// where the drone has a link to itself. Such a packet is reported and sent over that link as
/// it is.
pub proof fn lemma_hop_monotonicity(drone: DroneView, packet: PacketView, draw: int, i: int)
    requires
        packet.routing_header.in_range(),
        0 <= i < route(drone, packet, draw).len(),
        !(packet.routing_header.hops[packet.routing_header.hop_index] == drone.id
            && packet.routing_header.hop_index + 1 == packet.routing_header.hops.len()
            && drone.neighbors.contains(drone.id) && (packet.pack_type is Ack
            || packet.pack_type is FloodRequest)),
    ensures
        route(drone, packet, draw)[i] matches Step::Send { to, packet: sent } ==> {
            ||| sent.pack_type is Nack
            ||| sent.pack_type is FloodResponse
            ||| {
                &&& sent.routing_header.hop_index == packet.routing_header.hop_index + 1
                &&& sent.routing_header.hops == packet.routing_header.hops
                &&& sent.pack_type == packet.pack_type
                &&& sent.session_id == packet.session_id
                &&& to == packet.routing_header.hops[packet.routing_header.hop_index + 1]
            }
        },
{
}

/// Reverse-path correctness, for any header that [`reverse_route`] builds: over the traversed
/// hops `n0, ..., nk` it reads `nk, ..., n0`, at position 1.
pub proof fn lemma_reverse_route(hops: Seq<NodeId>, traversed: int)
    requires
        0 <= traversed <= hops.len(),
    ensures
        reverse_route(hops, traversed).hop_index == 1,
        reverse_route(hops, traversed).hops.len() == traversed,
        forall|i: int|
            0 <= i < traversed ==> #[trigger] reverse_route(hops, traversed).hops[i]
                == hops[traversed - 1 - i],
{
}

/// Reverse-path correctness of negative acknowledgements: the acknowledgement of a packet at
/// position `k` of the hops `n0, ..., nk, ...` travels over `nk, ..., n0`, at position 1. It
/// keeps the session of the packet, and carries the index of the fragment, or 0 where the
/// packet is no fragment.
pub proof fn lemma_nack_goes_back(packet: PacketView, kind: NackType)
    requires
        packet.routing_header.in_range(),
    ensures
        nack_for(packet, kind).routing_header.hop_index == 1,
        nack_for(packet, kind).routing_header.hops.len() == packet.routing_header.hop_index + 1,
        forall|i: int|
            0 <= i <= packet.routing_header.hop_index ==> #[trigger] nack_for(
                packet,
                kind,
            ).routing_header.hops[i] == packet.routing_header.hops[packet.routing_header.hop_index
                - i],
        nack_for(packet, kind).session_id == packet.session_id,
        nack_for(packet, kind).pack_type matches Payload::Nack(nack) && nack.nack_type == kind && (
        packet.pack_type matches Payload::MsgFragment(fragment) ==> nack.fragment_index
            == fragment.fragment_index) && (!packet.is_fragment() ==> nack.fragment_index == 0),
{
}

/// Reverse-path correctness of flood responses: the response to a flood whose trace names the
/// nodes `n0, ..., nk` travels over `nk, ..., n0`, at position 1, and carries the trace.
pub proof fn lemma_flood_response_goes_back(
    flood_id: u64,
    trace: Seq<(NodeId, NodeType)>,
    session_id: u64,
)
    ensures
        flood_response(flood_id, trace, session_id).routing_header.hop_index == 1,
        flood_response(flood_id, trace, session_id).routing_header.hops.len() == trace.len(),
        forall|i: int|
            0 <= i < trace.len() ==> #[trigger] flood_response(
                flood_id,
                trace,
                session_id,
            ).routing_header.hops[i] == trace[trace.len() - 1 - i].0,
        flood_response(flood_id, trace, session_id).pack_type == (Payload::FloodResponse {
            flood_id,
            path_trace: trace,
        }),
{
}

/// What a broadcast holds: sends of the one packet, to neighbors other than the one left out,
/// in strictly ascending order of their identifiers, so that no neighbor gets two copies, and
/// every neighbor but the one left out gets one.
pub proof fn lemma_broadcast_below(
    neighbors: Set<NodeId>,
    except: NodeId,
    packet: PacketView,
    bound: int,
)
    requires
        0 <= bound <= NodeId::MAX + 1,
    ensures
        forall|i: int|
            0 <= i < broadcast_below(neighbors, except, packet, bound).len() ==> {
                &&& (#[trigger] broadcast_below(neighbors, except, packet, bound)[i])
                    matches Step::Send { to, packet: sent }
                &&& sent == packet
                &&& neighbors.contains(to)
                &&& to != except
                &&& to < bound
            },
        forall|i: int, j: int|
            0 <= i < j < broadcast_below(neighbors, except, packet, bound).len() ==> (
            #[trigger] broadcast_below(neighbors, except, packet, bound)[i])->Send_to < (
            #[trigger] broadcast_below(neighbors, except, packet, bound)[j])->Send_to,
        forall|to: NodeId|
            #[trigger] neighbors.contains(to) && to != except && to < bound ==> broadcast_below(
                neighbors,
                except,
                packet,
                bound,
            ).contains(Step::Send { to, packet }),
    decreases bound,
{
    if bound > 0 {
        lemma_broadcast_below(neighbors, except, packet, bound - 1);
        let rest = broadcast_below(neighbors, except, packet, bound - 1);
        let all = broadcast_below(neighbors, except, packet, bound);
        let candidate = (bound - 1) as NodeId;
        assert forall|to: NodeId|
            #[trigger] neighbors.contains(to) && to != except && to < bound implies all.contains(
            Step::Send { to, packet },
        ) by {
            if to < bound - 1 {
                let at = choose|at: int|
                    0 <= at < rest.len() && rest[at] == (Step::Send { to, packet });
                assert(all[at] == Step::Send { to, packet });
            } else {
                assert(to == candidate);
                assert(all[all.len() - 1] == Step::Send { to, packet });
            }
        }
    }
}

/// A broadcast reaches every neighbor but the one left out, once, and nobody else.
pub proof fn lemma_broadcast(neighbors: Set<NodeId>, except: NodeId, packet: PacketView)
    ensures
        forall|i: int|
            0 <= i < broadcast(neighbors, except, packet).len() ==> {
                &&& (#[trigger] broadcast(neighbors, except, packet)[i]) matches Step::Send {
                    to,
                    packet: sent,
                }
                &&& sent == packet
                &&& neighbors.contains(to)
                &&& to != except
            },
        forall|i: int, j: int|
            0 <= i < j < broadcast(neighbors, except, packet).len() ==> (#[trigger] broadcast(
                neighbors,
                except,
                packet,
            )[i])->Send_to != (#[trigger] broadcast(neighbors, except, packet)[j])->Send_to,
        forall|to: NodeId|
            #[trigger] neighbors.contains(to) && to != except ==> broadcast(
                neighbors,
                except,
                packet,
            ).contains(Step::Send { to, packet }),
{
    lemma_broadcast_below(neighbors, except, packet, NodeId::MAX + 1);
}

/// The request that a drone passes on in a flood: the one it received, with the drone added
/// to the trace. Header and session are those of the request received.
pub open spec fn request_passed_on(drone: DroneView, packet: PacketView) -> PacketView
    recommends
        packet.is_flood_request(),
{
    PacketView {
        pack_type: Payload::FloodRequest {
            flood_id: packet.pack_type->FloodRequest_flood_id,
            initiator_id: packet.pack_type->FloodRequest_initiator_id,
            path_trace: packet.pack_type->FloodRequest_path_trace.push(
                (drone.id, NodeType::Drone),
            ),
        },
        ..packet
    }
}

/// The response with which a drone answers a flood request: it carries the trace of the
/// request with the drone added, and travels back over it.
pub open spec fn response_to(drone: DroneView, packet: PacketView, session_id: u64) -> PacketView
    recommends
        packet.is_flood_request(),
{
    flood_response(
        packet.pack_type->FloodRequest_flood_id,
        packet.pack_type->FloodRequest_path_trace.push((drone.id, NodeType::Drone)),
        session_id,
    )
}

/// Flood idempotence. A drone with two neighbors or more that has not broadcast a flood
/// broadcasts its first request, to every neighbor but the one it came from. From then on it
/// answers every request of that flood with a response, and is not changed by it.
pub proof fn lemma_flood_idempotence(
    drone: DroneView,
    first: PacketView,
    first_session: u64,
    second: PacketView,
    second_session: u64,
)
    requires
        first.is_flood_request(),
        second.is_flood_request(),
        first.pack_type->FloodRequest_flood_id == second.pack_type->FloodRequest_flood_id,
        drone.neighbors.finite(),
        drone.neighbors.len() >= 2,
        !drone.seen_flood_ids.contains(first.pack_type->FloodRequest_flood_id),
    ensures
        flood(drone, first, first_session).1 == broadcast(
            drone.neighbors,
            arrived_from(
                first.pack_type->FloodRequest_initiator_id,
                first.pack_type->FloodRequest_path_trace,
            ),
            request_passed_on(drone, first),
        ),
        flood(flood(drone, first, first_session).0, second, second_session) == (
            flood(drone, first, first_session).0,
            forward(drone.neighbors, response_to(drone, second, second_session)),
        ),
{
}

/// A flood that a drone has broadcast is answered with a response, whatever else the drone
/// holds, and the drone is not changed by the request.
pub proof fn lemma_seen_flood_is_answered(drone: DroneView, packet: PacketView, session_id: u64)
    requires
        packet.is_flood_request(),
        drone.seen_flood_ids.contains(packet.pack_type->FloodRequest_flood_id),
    ensures
        flood(drone, packet, session_id) == (
            drone,
            forward(drone.neighbors, response_to(drone, packet, session_id)),
        ),
{
}

/// The floods that a drone has broadcast are never forgotten: no packet takes one away. With
/// [`lemma_seen_flood_is_answered`], a flood once broadcast is answered on every later
/// arrival.
pub proof fn lemma_seen_floods_grow(
    drone: DroneView,
    packet: PacketView,
    draw: int,
    session_id: u64,
)
    ensures
        drone.seen_flood_ids.subset_of(dispatch(drone, packet, draw, session_id).0.seen_flood_ids),
        dispatch(drone, packet, draw, session_id).0.id == drone.id,
        dispatch(drone, packet, draw, session_id).0.neighbors == drone.neighbors,
        dispatch(drone, packet, draw, session_id).0.pdr == drone.pdr,
        dispatch(drone, packet, draw, session_id).0.lifecycle == drone.lifecycle,
{
}

/// Single-neighbor flood termination. A drone with exactly one neighbor answers every flood
/// request with a response, whether it has seen the flood or not, and records nothing.
pub proof fn lemma_single_neighbor_answers(drone: DroneView, packet: PacketView, session_id: u64)
    requires
        packet.is_flood_request(),
        drone.neighbors.len() == 1,
    ensures
        flood(drone, packet, session_id) == (
            drone,
            forward(drone.neighbors, response_to(drone, packet, session_id)),
        ),
{
}

/// Drop-rate boundary. At drop rate 0 no draw discards a fragment; at drop rate 100 per cent
/// every draw does.
pub proof fn lemma_drop_rate_boundary(draw: int)
    requires
        0 <= draw < PER_CENT,
    ensures
        !drops(0, draw),
        drops(PER_CENT as int, draw),
{
}

/// Drop-rate boundary, for the fragment. At drop rate 0 a fragment that can be carried on is
/// sent and reported as sent, whatever is drawn; at drop rate 100 per cent it is reported as
/// dropped and answered with a negative acknowledgement, whatever is drawn.
pub proof fn lemma_drop_rate_boundary_of_fragments(drone: DroneView, packet: PacketView, draw: int)
    requires
        0 <= draw < PER_CENT,
    ensures
        drone.pdr == 0 ==> carry_fragment(drone, packet, draw) == seq![
            Step::Notify(Event::PacketSent(packet.advanced())),
            Step::Send {
                to: packet.routing_header.hops[packet.routing_header.hop_index + 1],
                packet: packet.advanced(),
            },
        ],
        drone.pdr == PER_CENT ==> carry_fragment(drone, packet, draw) == seq![
            Step::Notify(Event::PacketDropped(packet)),
        ] + forward(drone.neighbors, nack_for(packet, NackType::Dropped)),
{
}

/// What becomes of a fragment that can be carried on, field by field. If it is kept, the
/// packet that is reported and sent is the one that came, one position further: same hops,
/// same payload, same session. If it is dropped, the packet that came is reported, and the
/// negative acknowledgement that answers it names the drop, carries the fragment's index and
/// session, and travels back over the hops up to this node, last first, from position 1.
pub proof fn lemma_fragment_kept_or_dropped(drone: DroneView, packet: PacketView, draw: int)
    requires
        packet.routing_header.in_range(),
        packet.pack_type is MsgFragment,
    ensures
        !drops(drone.pdr, draw) ==> {
            &&& carry_fragment(drone, packet, draw).len() == 2
            &&& carry_fragment(drone, packet, draw)[0] == Step::Notify(
                Event::PacketSent(packet.advanced()),
            )
            &&& carry_fragment(drone, packet, draw)[1] == (Step::Send {
                to: packet.routing_header.hops[packet.routing_header.hop_index + 1],
                packet: packet.advanced(),
            })
            &&& packet.advanced().routing_header.hops == packet.routing_header.hops
            &&& packet.advanced().routing_header.hop_index == packet.routing_header.hop_index + 1
            &&& packet.advanced().pack_type == packet.pack_type
            &&& packet.advanced().session_id == packet.session_id
        },
        drops(drone.pdr, draw) ==> {
            let nack = nack_for(packet, NackType::Dropped);
            &&& carry_fragment(drone, packet, draw) == seq![
                Step::Notify(Event::PacketDropped(packet)),
            ] + forward(drone.neighbors, nack)
            &&& forall|i: int|
                0 <= i < carry_fragment(drone, packet, draw).len() ==> (
                #[trigger] carry_fragment(drone, packet, draw)[i] matches Step::Send {
                    to,
                    packet: sent,
                } ==> sent == nack && to == packet.routing_header.hops[
                    packet.routing_header.hop_index - 1
                ])
            &&& nack.pack_type == Payload::Nack(
                Nack {
                    fragment_index: packet.pack_type->MsgFragment_0.fragment_index,
                    nack_type: NackType::Dropped,
                },
            )
            &&& nack.session_id == packet.session_id
            &&& nack.routing_header.hop_index == 1
            &&& nack.routing_header.hops.len() == packet.routing_header.hop_index + 1
            &&& forall|i: int|
                0 <= i <= packet.routing_header.hop_index
                    ==> #[trigger] nack.routing_header.hops[i]
                    == packet.routing_header.hops[packet.routing_header.hop_index - i]
        },
{
}

/// The routing of a packet gives at most one report and at most one packet to send, the
/// report first.
pub proof fn lemma_route_emits_little(drone: DroneView, packet: PacketView, draw: int)
    requires
        packet.routing_header.in_range(),
    ensures
        route(drone, packet, draw).len() <= 2,
        route(drone, packet, draw).len() == 2 ==> route(drone, packet, draw)[0] is Notify && route(
            drone,
            packet,
            draw,
        )[1] is Send,
{
}

/// Every packet that a drone asks to send goes to one of its neighbors.
pub proof fn lemma_sends_reach_neighbors(
    drone: DroneView,
    packet: PacketView,
    draw: int,
    session_id: u64,
    i: int,
)
    requires
        admissible(packet),
        0 <= i < dispatch(drone, packet, draw, session_id).1.len(),
    ensures
        dispatch(drone, packet, draw, session_id).1[i] matches Step::Send { to, .. }
            ==> drone.neighbors.contains(to),
{
    if !drone.stopped() && packet.is_flood_request() && !turns_around(
        drone,
        packet.pack_type->FloodRequest_flood_id,
    ) {
        lemma_broadcast(
            drone.neighbors,
            arrived_from(
                packet.pack_type->FloodRequest_initiator_id,
                packet.pack_type->FloodRequest_path_trace,
            ),
            request_passed_on(drone, packet),
        );
    }
}

/// Ordinary dispatch during the drain. Whether a drone is running or draining makes no
/// difference to what it does with a packet: it does the same, and what it is afterwards
/// differs in that name alone.
pub proof fn lemma_draining_dispatches_as_running(
    drone: DroneView,
    lifecycle: Lifecycle,
    packet: PacketView,
    draw: int,
    session_id: u64,
)
    requires
        !drone.stopped(),
        lifecycle != Lifecycle::Stopped,
    ensures
        dispatch(DroneView { lifecycle, ..drone }, packet, draw, session_id) == (
            DroneView { lifecycle, ..dispatch(drone, packet, draw, session_id).0 },
            dispatch(drone, packet, draw, session_id).1,
        ),
{
}

/// Draining a queue of one packet is dispatching that packet.
pub proof fn lemma_drain_of_one(drone: DroneView, packet: PacketView, draw: int, session_id: u64)
    ensures
        drain(drone, seq![packet], seq![draw], seq![session_id]) == dispatch(
            drone,
            packet,
            draw,
            session_id,
        ),
{
    let packets = seq![packet];
    let draws = seq![draw];
    let session_ids = seq![session_id];
    assert(packets.drop_last() =~= Seq::<PacketView>::empty());
    assert(draws.drop_last() =~= Seq::<int>::empty());
    assert(session_ids.drop_last() =~= Seq::<u64>::empty());
    assert(drain(drone, packets.drop_last(), draws.drop_last(), session_ids.drop_last()) == (
        drone,
        Seq::<Step>::empty(),
    ));
    assert(Seq::<Step>::empty() + dispatch(drone, packet, draw, session_id).1 =~= dispatch(
        drone,
        packet,
        draw,
        session_id,
    ).1);
}

/// Crash drain completeness. While the queue of a crashed drone is drained the drone serves
/// as before: it has not stopped. Each queued packet is dispatched in its turn, with its own
/// draw, by the drone as the packets before it have left it, and what it gives rise to
/// follows, unchanged, what the packets before it gave rise to. So no packet of the queue is
/// lost.
pub proof fn lemma_drain_serves_every_packet(
    drone: DroneView,
    packets: Seq<PacketView>,
    draws: Seq<int>,
    session_ids: Seq<u64>,
    i: int,
)
    requires
        !drone.stopped(),
        packets.len() == draws.len(),
        packets.len() == session_ids.len(),
        0 <= i < packets.len(),
    ensures
        !drain(drone, packets.take(i), draws.take(i), session_ids.take(i)).0.stopped(),
        drain(drone, packets.take(i + 1), draws.take(i + 1), session_ids.take(i + 1)) == (
            dispatch(
                drain(drone, packets.take(i), draws.take(i), session_ids.take(i)).0,
                packets[i],
                draws[i],
                session_ids[i],
            ).0,
            drain(drone, packets.take(i), draws.take(i), session_ids.take(i)).1 + dispatch(
                drain(drone, packets.take(i), draws.take(i), session_ids.take(i)).0,
                packets[i],
                draws[i],
                session_ids[i],
            ).1,
        ),
        drain(
            drone,
            packets.take(i + 1),
            draws.take(i + 1),
            session_ids.take(i + 1),
        ).1.is_prefix_of(drain(drone, packets, draws, session_ids).1),
{
    lemma_drain_keeps_the_drone(drone, packets.take(i), draws.take(i), session_ids.take(i));
    assert(packets.take(i + 1).drop_last() == packets.take(i));
    assert(draws.take(i + 1).drop_last() == draws.take(i));
    assert(session_ids.take(i + 1).drop_last() == session_ids.take(i));
    lemma_drain_extends(drone, packets, draws, session_ids, i + 1);
}

/// Draining leaves everything of a drone as it is but the floods it has broadcast, of which
/// none is forgotten.
pub proof fn lemma_drain_keeps_the_drone(
    drone: DroneView,
    packets: Seq<PacketView>,
    draws: Seq<int>,
    session_ids: Seq<u64>,
)
    requires
        packets.len() == draws.len(),
        packets.len() == session_ids.len(),
    ensures
        drain(drone, packets, draws, session_ids).0.lifecycle == drone.lifecycle,
        drain(drone, packets, draws, session_ids).0.id == drone.id,
        drain(drone, packets, draws, session_ids).0.neighbors == drone.neighbors,
        drain(drone, packets, draws, session_ids).0.pdr == drone.pdr,
        drone.seen_flood_ids.subset_of(
            drain(drone, packets, draws, session_ids).0.seen_flood_ids,
        ),
    decreases packets.len(),
{
    if packets.len() > 0 {
        lemma_drain_keeps_the_drone(
            drone,
            packets.drop_last(),
            draws.drop_last(),
            session_ids.drop_last(),
        );
        lemma_seen_floods_grow(
            drain(drone, packets.drop_last(), draws.drop_last(), session_ids.drop_last()).0,
            packets.last(),
            draws.last(),
            session_ids.last(),
        );
    }
}

/// What the first `served` packets of a queue give rise to is the beginning of what the whole
/// queue gives rise to.
pub proof fn lemma_drain_extends(
    drone: DroneView,
    packets: Seq<PacketView>,
    draws: Seq<int>,
    session_ids: Seq<u64>,
    served: int,
)
    requires
        packets.len() == draws.len(),
        packets.len() == session_ids.len(),
        0 <= served <= packets.len(),
    ensures
        drain(
            drone,
            packets.take(served),
            draws.take(served),
            session_ids.take(served),
        ).1.is_prefix_of(drain(drone, packets, draws, session_ids).1),
    decreases packets.len() - served,
{
    if served == packets.len() {
        assert(packets.take(served) == packets);
        assert(draws.take(served) == draws);
        assert(session_ids.take(served) == session_ids);
    } else {
        lemma_drain_extends(drone, packets, draws, session_ids, served + 1);
        assert(packets.take(served + 1).drop_last() == packets.take(served));
        assert(draws.take(served + 1).drop_last() == draws.take(served));
        assert(session_ids.take(served + 1).drop_last() == session_ids.take(served));
    }
}

} // verus!
