//! The packets that travel between nodes, and their mathematical views.
//!
//! Every type that owns a `Vec` has a view in which the `Vec` is a `Seq`; the contracts of the
//! library speak of those views. The types without one are plain values and stand for themselves.

use vstd::prelude::*;

verus! {

/// Identifier of a node, unique in the network.
pub type NodeId = u8;

/// The kind of a node, as recorded in the path trace of a flood.
#[derive(Clone, Copy, Debug, PartialEq, Eq)]
pub enum NodeType {
    Client,
    Drone,
    Server,
}

/// The complete path of a packet, from source to destination, and the position in it of the node
/// that is expected to hold the packet.
#[derive(Debug, PartialEq, Eq)]
pub struct SourceRoutingHeader {
    pub hop_index: usize,
    pub hops: Vec<NodeId>,
}

/// What a [`SourceRoutingHeader`] stands for.
pub struct Route {
    pub hop_index: int,
    pub hops: Seq<NodeId>,
}

impl Route {
    /// The position lies inside the hop list.
    pub open spec fn in_range(self) -> bool {
        0 <= self.hop_index < self.hops.len()
    }

    /// The same path, one position further.
    pub open spec fn advanced(self) -> Route {
        Route { hop_index: self.hop_index + 1, hops: self.hops }
    }
}

impl View for SourceRoutingHeader {
    type V = Route;

    open spec fn view(&self) -> Route {
        Route { hop_index: self.hop_index as int, hops: self.hops@ }
    }
}

impl Clone for SourceRoutingHeader {
    fn clone(&self) -> (copy: Self)
        ensures
            copy@ == self@,
    {
        SourceRoutingHeader { hop_index: self.hop_index, hops: copy_ids(&self.hops) }
    }
}

/// A copy of a list of node identifiers.
pub fn copy_ids(ids: &Vec<NodeId>) -> (copy: Vec<NodeId>)
    ensures
        copy@ == ids@,
{
    let mut copy: Vec<NodeId> = Vec::new();
    let mut i: usize = 0;
    while i < ids.len()
        invariant
            i <= ids.len(),
            copy@ == ids@.take(i as int),
        decreases ids.len() - i,
    {
        copy.push(ids[i]);
        i += 1;
    }
    copy
}

/// A copy of a path trace.
pub fn copy_trace(trace: &Vec<(NodeId, NodeType)>) -> (copy: Vec<(NodeId, NodeType)>)
    ensures
        copy@ == trace@,
{
    let mut copy: Vec<(NodeId, NodeType)> = Vec::new();
    let mut i: usize = 0;
    while i < trace.len()
        invariant
            i <= trace.len(),
            copy@ == trace@.take(i as int),
        decreases trace.len() - i,
    {
        copy.push(trace[i]);
        i += 1;
    }
    copy
}

/// One piece of a message. The drone carries it and never looks inside `data`.
#[derive(Clone, Copy, Debug, PartialEq, Eq)]
pub struct Fragment {
    pub fragment_index: u64,
    pub total_n_fragments: u64,
    pub length: u8,
    pub data: [u8; 128],
}

/// Acknowledgement of one fragment.
#[derive(Clone, Copy, Debug, PartialEq, Eq)]
pub struct Ack {
    pub fragment_index: u64,
}

/// Why a packet could not be delivered.
#[derive(Clone, Copy, Debug, PartialEq, Eq)]
pub enum NackType {
    /// The next hop, named here, is not a neighbor of the node that reports.
    ErrorInRouting(NodeId),
    /// The path of a fragment ends at a drone.
    DestinationIsDrone,
    /// The fragment was discarded on purpose.
    Dropped,
    /// The node named here received a packet whose header expected another node.
    UnexpectedRecipient(NodeId),
}

/// Negative acknowledgement.
#[derive(Clone, Copy, Debug, PartialEq, Eq)]
pub struct Nack {
    pub fragment_index: u64,
    pub nack_type: NackType,
}

/// A request of topology discovery. `path_trace` lists the nodes it has visited, oldest first.
#[derive(Debug, PartialEq, Eq)]
pub struct FloodRequest {
    pub flood_id: u64,
    pub initiator_id: NodeId,
    pub path_trace: Vec<(NodeId, NodeType)>,
}

impl Clone for FloodRequest {
    fn clone(&self) -> (copy: Self)
        ensures
            copy.flood_id == self.flood_id,
            copy.initiator_id == self.initiator_id,
            copy.path_trace@ == self.path_trace@,
    {
        FloodRequest {
            flood_id: self.flood_id,
            initiator_id: self.initiator_id,
            path_trace: copy_trace(&self.path_trace),
        }
    }
}

/// The answer to a [`FloodRequest`], carrying the trace back to the initiator.
#[derive(Debug, PartialEq, Eq)]
pub struct FloodResponse {
    pub flood_id: u64,
    pub path_trace: Vec<(NodeId, NodeType)>,
}

impl Clone for FloodResponse {
    fn clone(&self) -> (copy: Self)
        ensures
            copy.flood_id == self.flood_id,
            copy.path_trace@ == self.path_trace@,
    {
        FloodResponse { flood_id: self.flood_id, path_trace: copy_trace(&self.path_trace) }
    }
}

/// The payload of a packet.
#[derive(Debug, PartialEq, Eq)]
pub enum PacketType {
    MsgFragment(Fragment),
    Ack(Ack),
    Nack(Nack),
    FloodRequest(FloodRequest),
    FloodResponse(FloodResponse),
}

/// What a [`PacketType`] stands for.
pub enum Payload {
    MsgFragment(Fragment),
    Ack(Ack),
    Nack(Nack),
    FloodRequest { flood_id: u64, initiator_id: NodeId, path_trace: Seq<(NodeId, NodeType)> },
    FloodResponse { flood_id: u64, path_trace: Seq<(NodeId, NodeType)> },
}

impl View for PacketType {
    type V = Payload;

    open spec fn view(&self) -> Payload {
        match *self {
            PacketType::MsgFragment(fragment) => Payload::MsgFragment(fragment),
            PacketType::Ack(ack) => Payload::Ack(ack),
            PacketType::Nack(nack) => Payload::Nack(nack),
            PacketType::FloodRequest(request) => Payload::FloodRequest {
                flood_id: request.flood_id,
                initiator_id: request.initiator_id,
                path_trace: request.path_trace@,
            },
            PacketType::FloodResponse(response) => Payload::FloodResponse {
                flood_id: response.flood_id,
                path_trace: response.path_trace@,
            },
        }
    }
}

impl Clone for PacketType {
    fn clone(&self) -> (copy: Self)
        ensures
            copy@ == self@,
    {
        match self {
            PacketType::MsgFragment(fragment) => PacketType::MsgFragment(*fragment),
            PacketType::Ack(ack) => PacketType::Ack(*ack),
            PacketType::Nack(nack) => PacketType::Nack(*nack),
            PacketType::FloodRequest(request) => PacketType::FloodRequest(request.clone()),
            PacketType::FloodResponse(response) => PacketType::FloodResponse(response.clone()),
        }
    }
}

/// A packet: a payload, the path it follows and the session it belongs to.
#[derive(Debug, PartialEq, Eq)]
pub struct Packet {
    pub pack_type: PacketType,
    pub routing_header: SourceRoutingHeader,
    pub session_id: u64,
}

/// What a [`Packet`] stands for.
pub struct PacketView {
    pub pack_type: Payload,
    pub routing_header: Route,
    pub session_id: u64,
}

impl PacketView {
    /// The payload is a data fragment.
    pub open spec fn is_fragment(self) -> bool {
        self.pack_type is MsgFragment
    }

    /// The payload is a flood request.
    pub open spec fn is_flood_request(self) -> bool {
        self.pack_type is FloodRequest
    }

    /// The same packet, one position further along its path.
    pub open spec fn advanced(self) -> PacketView {
        PacketView { routing_header: self.routing_header.advanced(), ..self }
    }
}

impl View for Packet {
    type V = PacketView;

    open spec fn view(&self) -> PacketView {
        PacketView {
            pack_type: self.pack_type@,
            routing_header: self.routing_header@,
            session_id: self.session_id,
        }
    }
}

impl Clone for Packet {
    fn clone(&self) -> (copy: Self)
        ensures
            copy@ == self@,
    {
        Packet {
            pack_type: self.pack_type.clone(),
            routing_header: self.routing_header.clone(),
            session_id: self.session_id,
        }
    }
}

} // verus!
