//! Routing primitives that every kind of node shares.

use crate::controller::{steps, Action};
use crate::model::{flood_response, forward, nack_for, nacked_index, reverse_route, trace_ids};
use crate::packet::{
    FloodResponse, Nack, NackType, NodeId, NodeType, Packet, PacketType, SourceRoutingHeader,
};
use crate::random::draw_session_id;
use rand::rngs::StdRng;
use std::collections::HashMap;
use vstd::pervasive::unreached;
use vstd::prelude::*;

verus! {

/// The header of a packet that goes back over the first `traversed` hops of `hops`.
pub fn reverse_path(hops: &Vec<NodeId>, traversed: usize) -> (header: SourceRoutingHeader)
    requires
        traversed <= hops.len(),
    ensures
        header@ == reverse_route(hops@, traversed as int),
{
    let mut back: Vec<NodeId> = Vec::new();
    let mut left: usize = traversed;
    while left > 0
        invariant
            left <= traversed <= hops.len(),
            back.len() == traversed - left,
            forall|i: int| 0 <= i < back.len() ==> back[i] == hops[traversed - 1 - i],
        decreases left,
    {
        left -= 1;
        back.push(hops[left]);
    }
    assert(back@ =~= hops@.take(traversed as int).reverse());
    SourceRoutingHeader { hop_index: 1, hops: back }
}

/// The negative acknowledgement of `packet` for the reason `kind`, routed back towards the
/// packet's source.
pub fn build_nack(packet: &Packet, kind: NackType) -> (nack: Packet)
    requires
        packet@.routing_header.in_range(),
    ensures
        nack@ == nack_for(packet@, kind),
{
    let fragment_index: u64 = match &packet.pack_type {
        PacketType::MsgFragment(fragment) => fragment.fragment_index,
        _ => 0,
    };
    assert(fragment_index == nacked_index(packet@.pack_type));
    assert(packet.routing_header.hop_index < packet.routing_header.hops.len());
    Packet {
        pack_type: PacketType::Nack(Nack { fragment_index, nack_type: kind }),
        routing_header: reverse_path(
            &packet.routing_header.hops,
            packet.routing_header.hop_index + 1,
        ),
        session_id: packet.session_id,
    }
}

/// The node identifiers of a path trace, in the same order.
pub fn ids_of_trace(trace: &Vec<(NodeId, NodeType)>) -> (ids: Vec<NodeId>)
    ensures
        ids@ == trace_ids(trace@),
{
    let mut ids: Vec<NodeId> = Vec::new();
    let mut i: usize = 0;
    while i < trace.len()
        invariant
            i <= trace.len(),
            ids@ == trace_ids(trace@.take(i as int)),
        decreases trace.len() - i,
    {
        ids.push(trace[i].0);
        assert(trace@.take(i + 1) == trace@.take(i as int).push(trace@[i as int]));
        i += 1;
    }
    assert(trace@.take(trace.len() as int) == trace@);
    ids
}

/// What every node of the network can do, whatever its kind, given its identifier, its links
/// and a generator. `Link` is the handle of an outbound link.
pub trait NetworkUtils {
    type Link;

    /// The identifier of the node.
    spec fn node_id(&self) -> NodeId;

    /// The neighbors to which the node has a link.
    spec fn neighbors(&self) -> Set<NodeId>;

    /// The two nodes differ at most in the state of their generators.
    spec fn same_node(&self, other: &Self) -> bool;

    /// Returns the unique identifier of this network node.
    fn get_id(&self) -> (id: NodeId)
        ensures
            id == self.node_id(),
    ;

    /// Returns the link table of this network node.
    fn get_packet_senders(&self) -> (senders: &HashMap<NodeId, Self::Link>)
        ensures
            senders@.dom() == self.neighbors(),
    ;

    /// The generator of the node, in the state it is in.
    spec fn generator(&self) -> StdRng;

    /// Returns the generator of this network node: the reference holds the node's generator as
    /// it is, what is drawn from it is drawn from the node's generator, and in all else the
    /// node stays the same node.
    fn get_random_generator(&mut self) -> (borrowed: &mut StdRng)
        ensures
            *borrowed == old(self).generator(),
            final(self).generator() == *final(borrowed),
            old(self).same_node(final(self)),
    ;

    /// Forwards a packet to the node at its position: the result is one send to that node if
    /// there is a link to it, and empty otherwise.
    fn forward_packet(&self, packet: Packet) -> (actions: Vec<Action>)
        ensures
            steps(actions@) == forward(self.neighbors(), packet@),
    {
        broadcast use vstd::std_specs::hash::group_hash_axioms;

        let mut actions: Vec<Action> = Vec::new();
        if packet.routing_header.hop_index < packet.routing_header.hops.len() {
            let next_hop_id: NodeId = packet.routing_header.hops[packet.routing_header.hop_index];
            if self.get_packet_senders().contains_key(&next_hop_id) {
                actions.push(Action::Send { to: next_hop_id, packet });
            }
        }
        assert(steps(actions@) =~= forward(self.neighbors(), packet@));
        actions
    }

    /// Builds the response to a flood request whose trace, this node included, is
    /// `updated_path_trace`. The session of the response is drawn from the generator.
    fn build_flood_response(
        &mut self,
        packet: Packet,
        updated_path_trace: Vec<(NodeId, NodeType)>,
    ) -> (response: Packet)
        requires
            packet@.is_flood_request(),
        ensures
            response@ == flood_response(
                packet@.pack_type->FloodRequest_flood_id,
                updated_path_trace@,
                response.session_id,
            ),
            old(self).same_node(final(self)),
    {
        let flood_id: u64 = match &packet.pack_type {
            PacketType::FloodRequest(request) => request.flood_id,
            _ => unreached(),
        };
        let route_back: Vec<NodeId> = ids_of_trace(&updated_path_trace);
        let new_routing_header = reverse_path(&route_back, route_back.len());
        let session_id: u64 = draw_session_id(self.get_random_generator());
        Packet {
            pack_type: PacketType::FloodResponse(
                FloodResponse { flood_id, path_trace: updated_path_trace },
            ),
            routing_header: new_routing_header,
            session_id,
        }
    }
}

} // verus!
