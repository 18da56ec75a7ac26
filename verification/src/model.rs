//! The mathematical model of the drone: its state as plain values, and what it does with a
//! packet as functions of that state.

use crate::controller::{Event, Step};
use crate::packet::{Nack, NackType, NodeId, NodeType, PacketView, Payload, Route};
use vstd::prelude::*;

verus! {

/// Where the drone stands between start and stop.
#[derive(Clone, Copy, Debug, PartialEq, Eq)]
pub enum Lifecycle {
    /// Packets and commands are served.
    Running,
    /// A crash has been ordered and the packets that were queued are being dispatched, as a
    /// running drone dispatches them.
    Draining,
    /// The queue has been drained: nothing is served any more, and no fragment is carried on.
    Stopped,
}

/// The state of a drone.
pub struct DroneView {
    pub id: NodeId,
    /// The neighbors to which the drone has a link.
    pub neighbors: Set<NodeId>,
    /// The drop rate, in per cent.
    pub pdr: int,
    /// The floods that the drone has broadcast.
    pub seen_flood_ids: Set<u64>,
    pub lifecycle: Lifecycle,
}

impl DroneView {
    /// The drone refuses to carry fragments on: it has been crashed and its queue is drained.
    pub open spec fn crashing(self) -> bool {
        self.lifecycle == Lifecycle::Stopped
    }

    /// The drone serves nothing any more.
    pub open spec fn stopped(self) -> bool {
        self.lifecycle == Lifecycle::Stopped
    }
}

/// The upper end of the scale of drop rates and of the draws compared with them.
pub const PER_CENT: i32 = 100;

/// A drop rate that the set-drop-rate command accepts.
pub open spec fn valid_drop_rate(pdr: int) -> bool {
    0 <= pdr <= PER_CENT
}

/// The drop decision: at drop rate `pdr`, the fragment for which `draw` was drawn is discarded.
/// With draws uniform over `0..100` this happens with probability `pdr` per cent.
pub open spec fn drops(pdr: int, draw: int) -> bool {
    draw < pdr
}

/// The header of a packet that goes back the way another one came: the first `traversed` hops
/// of `hops`, last first. The packet starts at position 1, since position 0 is the node that
/// turns it around.
pub open spec fn reverse_route(hops: Seq<NodeId>, traversed: int) -> Route {
    Route { hop_index: 1, hops: hops.take(traversed).reverse() }
}

/// The fragment index that a negative acknowledgement of `payload` carries: that of the
/// fragment, and 0 for any other payload.
pub open spec fn nacked_index(payload: Payload) -> u64 {
    match payload {
        Payload::MsgFragment(fragment) => fragment.fragment_index,
        _ => 0,
    }
}

/// The negative acknowledgement of `packet` for the reason `kind`: it keeps the session and
/// travels back over the hops up to and including the packet's position.
pub open spec fn nack_for(packet: PacketView, kind: NackType) -> PacketView {
    PacketView {
        pack_type: Payload::Nack(
            Nack { fragment_index: nacked_index(packet.pack_type), nack_type: kind },
        ),
        routing_header: reverse_route(
            packet.routing_header.hops,
            packet.routing_header.hop_index + 1,
        ),
        session_id: packet.session_id,
    }
}

/// The packet can be handed to the node at its position: the position exists and names a
/// neighbor.
pub open spec fn deliverable(neighbors: Set<NodeId>, packet: PacketView) -> bool {
    packet.routing_header.in_range() && neighbors.contains(
        packet.routing_header.hops[packet.routing_header.hop_index],
    )
}

/// Forwarding a packet: one send to the node at its position if the packet is deliverable,
/// nothing otherwise.
pub open spec fn forward(neighbors: Set<NodeId>, packet: PacketView) -> Seq<Step> {
    if deliverable(neighbors, packet) {
        seq![
            Step::Send {
                to: packet.routing_header.hops[packet.routing_header.hop_index],
                packet,
            },
        ]
    } else {
        Seq::empty()
    }
}

/// What a drone does with a fragment that it could carry on, where `draw` is the number drawn
/// for the drop decision: it discards the fragment, reports that and answers with a negative
/// acknowledgement, or it reports the fragment as sent and sends it one position further.
pub open spec fn carry_fragment(drone: DroneView, packet: PacketView, draw: int) -> Seq<Step>
    recommends
        packet.routing_header.advanced().in_range(),
{
    if drops(drone.pdr, draw) {
        seq![Step::Notify(Event::PacketDropped(packet))] + forward(
            drone.neighbors,
            nack_for(packet, NackType::Dropped),
        )
    } else {
        seq![
            Step::Notify(Event::PacketSent(packet.advanced())),
            Step::Send {
                to: packet.routing_header.hops[packet.routing_header.hop_index + 1],
                packet: packet.advanced(),
            },
        ]
    }
}

/// What a drone does with a packet that is no flood request, where `draw` is the number drawn
/// for the drop decision. The checks are made in this order: the recipient, the end of the
/// path, the link to the next hop, the payload. A fragment that passes them is carried on,
/// unless the drone has been crashed: then it is answered with a negative acknowledgement
/// that names the drone itself.
pub open spec fn route(drone: DroneView, packet: PacketView, draw: int) -> Seq<Step>
    recommends
        packet.routing_header.in_range(),
{
    let hops = packet.routing_header.hops;
    let position = packet.routing_header.hop_index;
    if hops[position] != drone.id {
        forward(drone.neighbors, nack_for(packet, NackType::UnexpectedRecipient(drone.id)))
    } else if position + 1 == hops.len() {
        if packet.is_fragment() {
            forward(drone.neighbors, nack_for(packet, NackType::DestinationIsDrone))
        } else {
            seq![Step::Notify(Event::ControllerShortcut(packet))] + forward(
                drone.neighbors,
                packet,
            )
        }
    } else if !drone.neighbors.contains(hops[position + 1]) {
        if packet.is_fragment() {
            forward(
                drone.neighbors,
                nack_for(packet, NackType::ErrorInRouting(hops[position + 1])),
            )
        } else {
            Seq::empty()
        }
    } else if !packet.is_fragment() {
        seq![Step::Send { to: hops[position + 1], packet: packet.advanced() }]
    } else if drone.crashing() {
        forward(drone.neighbors, nack_for(packet, NackType::ErrorInRouting(drone.id)))
    } else {
        carry_fragment(drone, packet, draw)
    }
}

/// The node identifiers of a path trace, in the same order.
pub open spec fn trace_ids(trace: Seq<(NodeId, NodeType)>) -> Seq<NodeId> {
    trace.map_values(|entry: (NodeId, NodeType)| entry.0)
}

/// The response to a flood whose trace, this node included, is `trace`: it carries the trace
/// and travels back over it.
pub open spec fn flood_response(
    flood_id: u64,
    trace: Seq<(NodeId, NodeType)>,
    session_id: u64,
) -> PacketView {
    PacketView {
        pack_type: Payload::FloodResponse { flood_id, path_trace: trace },
        routing_header: reverse_route(trace_ids(trace), trace.len() as int),
        session_id,
    }
}

/// The node that a flood request came from: the last one in its trace, or its initiator where
/// the trace is still empty.
pub open spec fn arrived_from(initiator_id: NodeId, trace: Seq<(NodeId, NodeType)>) -> NodeId {
    if trace.len() > 0 {
        trace.last().0
    } else {
        initiator_id
    }
}

/// Sending one copy of `packet` to every neighbor below `bound` but `except`, in ascending
/// order of their identifiers.
pub open spec fn broadcast_below(
    neighbors: Set<NodeId>,
    except: NodeId,
    packet: PacketView,
    bound: int,
) -> Seq<Step>
    decreases bound,
{
    if bound <= 0 {
        Seq::empty()
    } else {
        let rest = broadcast_below(neighbors, except, packet, bound - 1);
        let candidate = (bound - 1) as NodeId;
        if neighbors.contains(candidate) && candidate != except {
            rest.push(Step::Send { to: candidate, packet })
        } else {
            rest
        }
    }
}

/// Sending one copy of `packet` to every neighbor but `except`.
pub open spec fn broadcast(neighbors: Set<NodeId>, except: NodeId, packet: PacketView) -> Seq<
    Step,
> {
    broadcast_below(neighbors, except, packet, NodeId::MAX + 1)
}

/// The drone answers the flood itself: it has broadcast this flood before, or it has a single
/// neighbor.
pub open spec fn turns_around(drone: DroneView, flood_id: u64) -> bool {
    drone.seen_flood_ids.contains(flood_id) || drone.neighbors.len() == 1
}

/// What a drone does with a flood request, and what it is afterwards.
/// `session_id` is the session of the response, where one is built.
pub open spec fn flood(drone: DroneView, packet: PacketView, session_id: u64) -> (
    DroneView,
    Seq<Step>,
)
    recommends
        packet.is_flood_request(),
{
    let flood_id = packet.pack_type->FloodRequest_flood_id;
    let initiator_id = packet.pack_type->FloodRequest_initiator_id;
    let trace = packet.pack_type->FloodRequest_path_trace;
    let updated = trace.push((drone.id, NodeType::Drone));
    if turns_around(drone, flood_id) {
        (drone, forward(drone.neighbors, flood_response(flood_id, updated, session_id)))
    } else {
        (
            DroneView { seen_flood_ids: drone.seen_flood_ids.insert(flood_id), ..drone },
            broadcast(
                drone.neighbors,
                arrived_from(initiator_id, trace),
                PacketView {
                    pack_type: Payload::FloodRequest { flood_id, initiator_id, path_trace: updated },
                    ..packet
                },
            ),
        )
    }
}

/// The drone may be handed the packet: a flood request always, another packet where its
/// position lies inside its hop list.
pub open spec fn admissible(packet: PacketView) -> bool {
    packet.is_flood_request() || packet.routing_header.in_range()
}

/// What the drone does with a packet, and what it is afterwards. A stopped drone does nothing.
pub open spec fn dispatch(drone: DroneView, packet: PacketView, draw: int, session_id: u64) -> (
    DroneView,
    Seq<Step>,
)
    recommends
        admissible(packet),
{
    if drone.stopped() {
        (drone, Seq::empty())
    } else if packet.is_flood_request() {
        flood(drone, packet, session_id)
    } else {
        (drone, route(drone, packet, draw))
    }
}

/// Dispatching the packets of a queue one after the other, oldest first, each as
/// [`dispatch`] says. `draws` holds, for each packet, the number drawn for its drop decision,
/// and `session_ids` the session of the flood response that it may give rise to.
pub open spec fn drain(
    drone: DroneView,
    packets: Seq<PacketView>,
    draws: Seq<int>,
    session_ids: Seq<u64>,
) -> (DroneView, Seq<Step>)
    recommends
        packets.len() == draws.len(),
        packets.len() == session_ids.len(),
    decreases packets.len(),
{
    if packets.len() == 0 {
        (drone, Seq::empty())
    } else {
        let before = drain(
            drone,
            packets.drop_last(),
            draws.drop_last(),
            session_ids.drop_last(),
        );
        let last = dispatch(before.0, packets.last(), draws.last(), session_ids.last());
        (last.0, before.1 + last.1)
    }
}

/// What ordering a crash of a drone in state `before` with the packets `queued` on its inbound
/// channel comes to: every queued packet is dispatched, oldest first, as the drone dispatched
/// packets before the crash was ordered, each fragment with a draw of its own, and the drone
/// is stopped afterwards. Which numbers are drawn, and the sessions of the flood responses
/// built on the way, are not determined.
pub open spec fn crash_outcome(
    before: DroneView,
    queued: Seq<PacketView>,
    after: DroneView,
    done: Seq<Step>,
) -> bool {
    exists|draws: Seq<int>, session_ids: Seq<u64>|
        {
            &&& draws.len() == queued.len()
            &&& session_ids.len() == queued.len()
            &&& forall|i: int| 0 <= i < draws.len() ==> 0 <= #[trigger] draws[i] < PER_CENT
            &&& after == DroneView {
                lifecycle: Lifecycle::Stopped,
                ..(#[trigger] drain(before, queued, draws, session_ids)).0
            }
            &&& done == drain(before, queued, draws, session_ids).1
        }
}

} // verus!
