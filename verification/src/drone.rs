//! The drone: its state, and what it does with each packet and each command.

use crate::controller::{
    packet_views, steps, Action, CommandReport, DroneCommand, DroneEvent, Event, Step,
};
use crate::laws::lemma_draining_dispatches_as_running;
use crate::model::{
    admissible, arrived_from, broadcast, broadcast_below, carry_fragment, crash_outcome, dispatch,
    drain, drops, flood, forward, nack_for, route, valid_drop_rate, DroneView, Lifecycle,
    PER_CENT,
};
use crate::packet::{copy_trace, FloodRequest, NackType, NodeId, NodeType, Packet, PacketType};
use crate::random::draw_between;
use crate::utils::{build_nack, NetworkUtils};
use rand::rngs::StdRng;
use std::collections::{HashMap, HashSet};
use vstd::pervasive::unreached;
use vstd::prelude::*;

verus! {

/// A relay node. `S` is the handle of an outbound link: the drone keeps one for each neighbor,
/// under the neighbor's identifier, and never looks inside.
pub struct Drone<S> {
    id: NodeId,
    packet_send: HashMap<NodeId, S>,
    pdr: i32,
    seen_flood_ids: HashSet<u64>,
    random_generator: StdRng,
    lifecycle: Lifecycle,
}

impl<S> View for Drone<S> {
    type V = DroneView;

    closed spec fn view(&self) -> DroneView {
        DroneView {
            id: self.id,
            neighbors: self.packet_send@.dom(),
            pdr: self.pdr as int,
            seen_flood_ids: self.seen_flood_ids@,
            lifecycle: self.lifecycle,
        }
    }
}

/// The drop decision for one fragment, given the number drawn for it.
pub fn drop_decision(pdr: i32, draw: i32) -> (dropped: bool)
    ensures
        dropped == drops(pdr as int, draw as int),
{
    draw < pdr
}

/// The list that starts with `first` and goes on with `rest`.
fn preceded(first: Action, rest: Vec<Action>) -> (actions: Vec<Action>)
    ensures
        steps(actions@) == seq![first@] + steps(rest@),
{
    let mut actions: Vec<Action> = Vec::new();
    let mut tail = rest;
    actions.push(first);
    actions.append(&mut tail);
    assert(steps(actions@) =~= seq![first@] + steps(rest@));
    actions
}

impl<S> NetworkUtils for Drone<S> {
    type Link = S;

    closed spec fn node_id(&self) -> NodeId {
        self.id
    }

    closed spec fn neighbors(&self) -> Set<NodeId> {
        self.packet_send@.dom()
    }

    closed spec fn same_node(&self, other: &Self) -> bool {
        &&& self.id == other.id
        &&& self.packet_send == other.packet_send
        &&& self.pdr == other.pdr
        &&& self.seen_flood_ids == other.seen_flood_ids
        &&& self.lifecycle == other.lifecycle
    }

    fn get_id(&self) -> (id: NodeId) {
        self.id
    }

    fn get_packet_senders(&self) -> (senders: &HashMap<NodeId, S>) {
        &self.packet_send
    }

    fn get_random_generator(&mut self) -> (borrowed: &mut StdRng) {
        assert(self.generator() == self.random_generator);
        &mut self.random_generator
    }

    closed spec fn generator(&self) -> StdRng {
        self.random_generator
    }
}

impl<S> Drone<S> {
    /// The link table: the handle kept for each neighbor.
    pub closed spec fn links(&self) -> Map<NodeId, S> {
        self.packet_send@
    }

    /// The neighbors of a drone are the nodes that its link table has a handle for, and they
    /// are finitely many. Identifier and neighbors are the same whether the drone is taken as
    /// a drone or as a node of the network.
    pub proof fn lemma_neighbors_are_linked(&self)
        ensures
            self@.neighbors == self.links().dom(),
            self@.neighbors.finite(),
            self.node_id() == self@.id,
            self.neighbors() == self@.neighbors,
    {
        broadcast use vstd::std_specs::hash::group_hash_axioms;

    }

    /// Two drones that are the same node are in the same state and have the same links.
    pub proof fn lemma_same_node(&self, other: &Self)
        requires
            self.same_node(other),
        ensures
            self@ == other@,
            self.links() == other.links(),
    {
    }

    /// A running drone with the given links and drop rate (in per cent), which has seen no
    /// flood yet.
    pub fn new(
        id: NodeId,
        packet_send: HashMap<NodeId, S>,
        pdr: i32,
        random_generator: StdRng,
    ) -> (drone: Self)
        ensures
            drone@ == (DroneView {
                id,
                neighbors: packet_send@.dom(),
                pdr: pdr as int,
                seen_flood_ids: Set::empty(),
                lifecycle: Lifecycle::Running,
            }),
            drone.links() == packet_send@,
    {
        Self {
            id,
            packet_send,
            pdr,
            seen_flood_ids: HashSet::new(),
            random_generator,
            lifecycle: Lifecycle::Running,
        }
    }

    /// The identifier of the drone.
    pub fn get_id(&self) -> (id: NodeId)
        ensures
            id == self@.id,
    {
        self.id
    }

    /// Whether the drone refuses to carry fragments on: it does once it has been crashed and
    /// its queue is drained.
    pub fn get_crashing_behavior(&self) -> (crashing: bool)
        ensures
            crashing == self@.crashing(),
    {
        matches!(self.lifecycle, Lifecycle::Stopped)
    }

    /// Whether the drone has stopped: the loop that feeds it ends then.
    pub fn should_exit(&self) -> (stopped: bool)
        ensures
            stopped == self@.stopped(),
    {
        matches!(self.lifecycle, Lifecycle::Stopped)
    }

    /// The drop rate, in per cent.
    pub fn get_pdr(&self) -> (pdr: i32)
        ensures
            pdr == self@.pdr,
    {
        self.pdr
    }

    /// The floods that the drone has broadcast.
    pub fn get_seen_flood_ids(&self) -> (seen: &HashSet<u64>)
        ensures
            seen@ == self@.seen_flood_ids,
    {
        &self.seen_flood_ids
    }

    /// The link table.
    pub fn get_packet_send(&self) -> (links: &HashMap<NodeId, S>)
        ensures
            links@ == self.links(),
            links@.dom() == self@.neighbors,
    {
        &self.packet_send
    }

    /// Inserts the link to a neighbor, or replaces its handle.
    pub fn add_channel(&mut self, id: NodeId, sender: S)
        ensures
            final(self)@ == (DroneView { neighbors: old(self)@.neighbors.insert(id), ..old(self)@ }),
            final(self).links() == old(self).links().insert(id, sender),
    {
        broadcast use vstd::std_specs::hash::group_hash_axioms;

        self.packet_send.insert(id, sender);
    }

    /// Removes the link to a neighbor, and says whether there was one.
    pub fn remove_channel(&mut self, id: NodeId) -> (removed: bool)
        ensures
            removed == old(self)@.neighbors.contains(id),
            final(self)@ == (DroneView { neighbors: old(self)@.neighbors.remove(id), ..old(self)@ }),
            final(self).links() == old(self).links().remove(id),
    {
        broadcast use vstd::std_specs::hash::group_hash_axioms;

        let removed = self.packet_send.remove(&id);
        removed.is_some()
    }

    /// Sets the drop rate, in per cent, if it lies between 0 and 100, and says whether it did.
    /// A rate outside that range changes nothing.
    pub fn set_pdr(&mut self, new_pdr: i32) -> (accepted: bool)
        ensures
            accepted == valid_drop_rate(new_pdr as int),
            accepted ==> final(self)@ == (DroneView { pdr: new_pdr as int, ..old(self)@ }),
            !accepted ==> final(self)@ == old(self)@,
            final(self).links() == old(self).links(),
    {
        if new_pdr < 0 || new_pdr > PER_CENT {
            return false;
        }
        self.pdr = new_pdr;
        true
    }

    /// Draws the drop decision for one fragment: a number is drawn from `0..100` and the
    /// fragment is dropped if the number lies below the drop rate. Each call draws anew. At
    /// drop rate 0 the answer is always no, at 100 per cent always yes.
    pub fn should_drop_packet(&mut self) -> (dropped: bool)
        ensures
            final(self)@ == old(self)@,
            final(self).links() == old(self).links(),
            exists|draw: int|
                0 <= draw < PER_CENT && dropped == #[trigger] drops(old(self)@.pdr, draw),
            old(self)@.pdr <= 0 ==> !dropped,
            old(self)@.pdr >= PER_CENT ==> dropped,
    {
        let draw: i32 = draw_between(&mut self.random_generator, 0, PER_CENT);
        let dropped = drop_decision(self.pdr, draw);
        assert(dropped == drops(self@.pdr, draw as int));
        dropped
    }

    /// Decides whether the packet is addressed to this drone. `None` says that it is. Otherwise
    /// the result holds what answers it: the negative acknowledgement on its way back, if
    /// there is a link for it.
    pub fn verify_routing(&self, packet: &Packet) -> (misrouted: Option<Vec<Action>>)
        requires
            packet@.routing_header.in_range(),
        ensures
            misrouted is None <==> packet@.routing_header.hops[packet@.routing_header.hop_index]
                == self@.id,
            misrouted matches Some(actions) ==> steps(actions@) == forward(
                self@.neighbors,
                nack_for(packet@, NackType::UnexpectedRecipient(self@.id)),
            ),
    {
        let index: usize = packet.routing_header.hop_index;
        if self.id != packet.routing_header.hops[index] {
            let nack = build_nack(packet, NackType::UnexpectedRecipient(self.id));
            return Some(self.forward_packet(nack));
        }
        None
    }

    /// Handles a fragment whose next hop has been found linked: draws the drop decision, and
    /// either reports the fragment as sent and sends it one position further, or reports it as
    /// dropped and answers with a negative acknowledgement. At drop rate 0 the fragment is
    /// always sent, at 100 per cent always dropped. The drone itself does not change.
    pub fn handle_message_fragment(&mut self, packet: Packet) -> (actions: Vec<Action>)
        requires
            packet@.routing_header.in_range(),
            packet@.routing_header.advanced().in_range(),
            old(self)@.neighbors.contains(
                packet@.routing_header.hops[packet@.routing_header.hop_index + 1],
            ),
        ensures
            final(self)@ == old(self)@,
            final(self).links() == old(self).links(),
            exists|draw: int|
                0 <= draw < PER_CENT && steps(actions@) == #[trigger] carry_fragment(
                    old(self)@,
                    packet@,
                    draw,
                ),
            old(self)@.pdr <= 0 ==> steps(actions@) == seq![
                Step::Notify(Event::PacketSent(packet@.advanced())),
                Step::Send {
                    to: packet@.routing_header.hops[packet@.routing_header.hop_index + 1],
                    packet: packet@.advanced(),
                },
            ],
            old(self)@.pdr >= PER_CENT ==> steps(actions@) == seq![
                Step::Notify(Event::PacketDropped(packet@)),
            ] + forward(old(self)@.neighbors, nack_for(packet@, NackType::Dropped)),
    {
        let dropped = self.should_drop_packet();
        let ghost draw = choose|draw: int|
            0 <= draw < PER_CENT && dropped == #[trigger] drops(old(self)@.pdr, draw);
        if dropped {
            let nack = build_nack(&packet, NackType::Dropped);
            let back = self.forward_packet(nack);
            let actions = preceded(Action::Notify(DroneEvent::PacketDropped(packet)), back);
            assert(steps(actions@) == carry_fragment(old(self)@, packet@, draw));
            return actions;
        }
        assert(packet.routing_header.hop_index < packet.routing_header.hops.len());
        let mut forward_packet = packet;
        forward_packet.routing_header.hop_index += 1;
        let sent = Action::Notify(DroneEvent::PacketSent(forward_packet.clone()));
        let onward = self.forward_packet(forward_packet);
        let actions = preceded(sent, onward);
        assert(steps(actions@) =~= carry_fragment(old(self)@, packet@, draw));
        actions
    }

    /// Handles a packet that is no flood request: answers a misrouted one, a fragment whose
    /// path ends here and a fragment whose next hop is not linked with a negative
    /// acknowledgement, reports another packet whose path ends here, and carries everything
    /// else one position further, fragments subject to the drop decision. A drone that has
    /// been crashed carries no fragment on: it answers with a negative acknowledgement that
    /// names the drone itself. The drone itself does not change.
    pub fn handle_routed_packet(&mut self, packet: Packet) -> (actions: Vec<Action>)
        requires
            packet@.routing_header.in_range(),
        ensures
            final(self)@ == old(self)@,
            final(self).links() == old(self).links(),
            exists|draw: int|
                0 <= draw < PER_CENT && steps(actions@) == #[trigger] route(
                    old(self)@,
                    packet@,
                    draw,
                ),
    {
        broadcast use vstd::std_specs::hash::group_hash_axioms;

        if let Some(actions) = self.verify_routing(&packet) {
            assert(steps(actions@) == route(old(self)@, packet@, 0));
            return actions;
        }
        let position: usize = packet.routing_header.hop_index;
        let length: usize = packet.routing_header.hops.len();
        let is_fragment: bool = matches!(packet.pack_type, PacketType::MsgFragment(_));

        // The path ends at this drone.
        if position + 1 == length {
            let actions = if is_fragment {
                let nack = build_nack(&packet, NackType::DestinationIsDrone);
                self.forward_packet(nack)
            } else {
                let shortcut = Action::Notify(DroneEvent::ControllerShortcut(packet.clone()));
                let onward = self.forward_packet(packet);
                preceded(shortcut, onward)
            };
            assert(steps(actions@) == route(old(self)@, packet@, 0));
            return actions;
        }
        let next_hop_id: NodeId = packet.routing_header.hops[position + 1];

        // The next hop is out of reach.
        if !self.packet_send.contains_key(&next_hop_id) {
            let actions = if is_fragment {
                let nack = build_nack(&packet, NackType::ErrorInRouting(next_hop_id));
                self.forward_packet(nack)
            } else {
                Vec::new()
            };
            assert(steps(actions@) =~= route(old(self)@, packet@, 0));
            return actions;
        }
        if is_fragment {
            if self.get_crashing_behavior() {
                let nack = build_nack(&packet, NackType::ErrorInRouting(self.id));
                let actions = self.forward_packet(nack);
                assert(steps(actions@) == route(old(self)@, packet@, 0));
                actions
            } else {
                let actions = self.handle_message_fragment(packet);
                let ghost draw = choose|draw: int|
                    0 <= draw < PER_CENT && steps(actions@) == #[trigger] carry_fragment(
                        old(self)@,
                        packet@,
                        draw,
                    );
                assert(steps(actions@) == route(old(self)@, packet@, draw));
                actions
            }
        } else {
            let mut forward_packet = packet;
            forward_packet.routing_header.hop_index += 1;
            let actions = self.forward_packet(forward_packet);
            assert(steps(actions@) =~= route(old(self)@, packet@, 0));
            actions
        }
    }

    /// One copy of `packet` for every neighbor but `except`, in ascending order of the
    /// neighbors' identifiers.
    fn send_to_all_but(&self, packet: &Packet, except: NodeId) -> (actions: Vec<Action>)
        ensures
            steps(actions@) == broadcast(self@.neighbors, except, packet@),
    {
        broadcast use vstd::std_specs::hash::group_hash_axioms;

        let mut actions: Vec<Action> = Vec::new();
        let mut bound: u16 = 0;
        assert(steps(actions@) =~= broadcast_below(self@.neighbors, except, packet@, 0));
        while bound <= 255
            invariant
                bound <= 256,
                steps(actions@) == broadcast_below(self@.neighbors, except, packet@, bound as int),
            decreases 256 - bound,
        {
            let candidate: NodeId = bound as NodeId;
            let ghost before = actions@;
            if candidate != except && self.packet_send.contains_key(&candidate) {
                actions.push(Action::Send { to: candidate, packet: packet.clone() });
                assert(steps(actions@) =~= steps(before).push(
                    Step::Send { to: candidate, packet: packet@ },
                ));
            }
            bound += 1;
        }
        actions
    }

    /// Handles a flood request. The drone adds itself to the trace. If it has broadcast this
    /// flood before, or has a single neighbor, it answers with a flood response that travels
    /// back over the trace. Otherwise it records the flood and sends the request, with the
    /// longer trace, to every neighbor but the one it came from.
    pub fn handle_flood_request(&mut self, packet: Packet) -> (actions: Vec<Action>)
        requires
            packet@.is_flood_request(),
        ensures
            final(self).links() == old(self).links(),
            exists|session_id: u64|
                (final(self)@, steps(actions@)) == #[trigger] flood(
                    old(self)@,
                    packet@,
                    session_id,
                ),
    {
        broadcast use vstd::std_specs::hash::group_hash_axioms;

        let Packet { pack_type, routing_header, session_id } = packet;
        let request: FloodRequest = match pack_type {
            PacketType::FloodRequest(request) => request,
            _ => unreached(),
        };
        let flood_id: u64 = request.flood_id;
        let initiator_id: NodeId = request.initiator_id;
        let hops_so_far: usize = request.path_trace.len();
        let sender_id: NodeId = if hops_so_far > 0 {
            request.path_trace[hops_so_far - 1].0
        } else {
            initiator_id
        };
        assert(sender_id == arrived_from(initiator_id, request.path_trace@));
        let mut updated_path_trace: Vec<(NodeId, NodeType)> = copy_trace(&request.path_trace);
        updated_path_trace.push((self.id, NodeType::Drone));

        if self.seen_flood_ids.contains(&flood_id) || self.packet_send.len() == 1 {
            let request_packet = Packet {
                pack_type: PacketType::FloodRequest(request),
                routing_header,
                session_id,
            };
            assert(request_packet@ == packet@);
            let response = self.build_flood_response(request_packet, updated_path_trace);
            let actions = self.forward_packet(response);
            assert((self@, steps(actions@)) == flood(old(self)@, packet@, response.session_id));
            actions
        } else {
            self.seen_flood_ids.insert(flood_id);
            let onward = Packet {
                pack_type: PacketType::FloodRequest(
                    FloodRequest { flood_id, initiator_id, path_trace: updated_path_trace },
                ),
                routing_header,
                session_id,
            };
            let actions = self.send_to_all_but(&onward, sender_id);
            assert((self@, steps(actions@)) == flood(old(self)@, packet@, 0));
            actions
        }
    }

    /// Handles a packet from the inbound channel: a flood request as
    /// [`Drone::handle_flood_request`] says, another packet as [`Drone::handle_routed_packet`]
    /// says. A stopped drone does nothing.
    pub fn handle_packet(&mut self, packet: Packet) -> (actions: Vec<Action>)
        requires
            admissible(packet@),
        ensures
            final(self).links() == old(self).links(),
            exists|draw: int, session_id: u64|
                0 <= draw < PER_CENT && (final(self)@, steps(actions@)) == #[trigger] dispatch(
                    old(self)@,
                    packet@,
                    draw,
                    session_id,
                ),
    {
        if self.should_exit() {
            let actions: Vec<Action> = Vec::new();
            assert((self@, steps(actions@)) =~= dispatch(old(self)@, packet@, 0, 0));
            return actions;
        }
        if matches!(packet.pack_type, PacketType::FloodRequest(_)) {
            let actions = self.handle_flood_request(packet);
            let ghost session_id = choose|session_id: u64|
                (self@, steps(actions@)) == #[trigger] flood(old(self)@, packet@, session_id);
            assert((self@, steps(actions@)) == dispatch(old(self)@, packet@, 0, session_id));
            actions
        } else {
            let actions = self.handle_routed_packet(packet);
            let ghost draw = choose|draw: int|
                0 <= draw < PER_CENT && steps(actions@) == #[trigger] route(
                    old(self)@,
                    packet@,
                    draw,
                );
            assert((self@, steps(actions@)) == dispatch(old(self)@, packet@, draw, 0));
            actions
        }
    }

    /// Carries out a crash. `queued` holds the packets still on the inbound channel, oldest
    /// first. The drone dispatches every one of them as it dispatched packets before, fragments
    /// subject to the drop decision, and then stops: from then on it serves nothing and carries
    /// no fragment on. The result lists, in order, what the packets gave rise to. A drone that
    /// had stopped before does nothing.
    pub fn crash(&mut self, queued: Vec<Packet>) -> (actions: Vec<Action>)
        requires
            forall|i: int| 0 <= i < queued.len() ==> admissible(#[trigger] queued[i]@),
        ensures
            final(self).links() == old(self).links(),
            old(self)@.stopped() ==> final(self)@ == old(self)@ && actions@.len() == 0,
            !old(self)@.stopped() ==> crash_outcome(
                old(self)@,
                packet_views(queued@),
                final(self)@,
                steps(actions@),
            ),
    {
        let mut actions: Vec<Action> = Vec::new();
        if self.should_exit() {
            return actions;
        }
        self.lifecycle = Lifecycle::Draining;
        let ghost mut draws: Seq<int> = Seq::empty();
        let ghost mut session_ids: Seq<u64> = Seq::empty();
        let mut served: usize = 0;
        assert(packet_views(queued@.take(0)) =~= Seq::empty());
        assert(steps(actions@) =~= Seq::empty());
        while served < queued.len()
            invariant
                served <= queued.len(),
                forall|i: int| 0 <= i < queued.len() ==> admissible(#[trigger] queued[i]@),
                !old(self)@.stopped(),
                self.links() == old(self).links(),
                self@.lifecycle == Lifecycle::Draining,
                draws.len() == served,
                session_ids.len() == served,
                forall|i: int| 0 <= i < draws.len() ==> 0 <= #[trigger] draws[i] < PER_CENT,
                (DroneView { lifecycle: old(self)@.lifecycle, ..self@ }, steps(actions@)) == drain(
                    old(self)@,
                    packet_views(queued@.take(served as int)),
                    draws,
                    session_ids,
                ),
            decreases queued.len() - served,
        {
            let ghost before = self@;
            let ghost done = actions@;
            let packet = queued[served].clone();
            let mut more = self.handle_packet(packet);
            let ghost added = steps(more@);
            proof {
                let (draw, session_id) = choose|draw: int, session_id: u64|
                    0 <= draw < PER_CENT && (self@, steps(more@)) == #[trigger] dispatch(
                        before,
                        packet@,
                        draw,
                        session_id,
                    );
                lemma_draining_dispatches_as_running(
                    DroneView { lifecycle: old(self)@.lifecycle, ..before },
                    Lifecycle::Draining,
                    packet@,
                    draw,
                    session_id,
                );
                let views = packet_views(queued@.take(served + 1));
                assert(views.drop_last() =~= packet_views(queued@.take(served as int)));
                assert(views.last() == packet@);
                assert(draws.push(draw).drop_last() =~= draws);
                assert(session_ids.push(session_id).drop_last() =~= session_ids);
                draws = draws.push(draw);
                session_ids = session_ids.push(session_id);
            }
            actions.append(&mut more);
            assert(steps(actions@) =~= steps(done) + added);
            served += 1;
        }
        assert(queued@.take(queued.len() as int) == queued@);
        self.lifecycle = Lifecycle::Stopped;
        actions
    }

    /// Applies a command of the simulation controller, and says how. A crash gives the
    /// actions that [`Drone::crash`] describes; the other commands give none. A stopped drone
    /// applies nothing.
    pub fn handle_command(&mut self, command: DroneCommand<S>) -> (result: (
        CommandReport,
        Vec<Action>,
    ))
        requires
            command matches DroneCommand::Crash(queued) ==> forall|i: int|
                0 <= i < queued.len() ==> admissible(#[trigger] queued[i]@),
        ensures
            old(self)@.stopped() ==> {
                &&& result.0 == CommandReport::Ignored
                &&& result.1@.len() == 0
                &&& final(self)@ == old(self)@
                &&& final(self).links() == old(self).links()
            },
            !old(self)@.stopped() ==> match command {
                DroneCommand::AddSender(id, sender) => {
                    &&& result.0 == CommandReport::LinkAdded
                    &&& result.1@.len() == 0
                    &&& final(self)@ == (DroneView {
                        neighbors: old(self)@.neighbors.insert(id),
                        ..old(self)@
                    })
                    &&& final(self).links() == old(self).links().insert(id, sender)
                },
                DroneCommand::RemoveSender(id) => {
                    &&& result.0 == if old(self)@.neighbors.contains(id) {
                        CommandReport::LinkRemoved
                    } else {
                        CommandReport::NoSuchLink
                    }
                    &&& result.1@.len() == 0
                    &&& final(self)@ == (DroneView {
                        neighbors: old(self)@.neighbors.remove(id),
                        ..old(self)@
                    })
                    &&& final(self).links() == old(self).links().remove(id)
                },
                DroneCommand::SetPacketDropRate(pdr) => {
                    &&& result.0 == if valid_drop_rate(pdr as int) {
                        CommandReport::DropRateSet
                    } else {
                        CommandReport::DropRateRefused
                    }
                    &&& result.1@.len() == 0
                    &&& final(self)@ == if valid_drop_rate(pdr as int) {
                        DroneView { pdr: pdr as int, ..old(self)@ }
                    } else {
                        old(self)@
                    }
                    &&& final(self).links() == old(self).links()
                },
                DroneCommand::Crash(queued) => {
                    &&& result.0 == CommandReport::Crashed
                    &&& crash_outcome(
                        old(self)@,
                        packet_views(queued@),
                        final(self)@,
                        steps(result.1@),
                    )
                    &&& final(self).links() == old(self).links()
                },
            },
    {
        if self.should_exit() {
            return (CommandReport::Ignored, Vec::new());
        }
        match command {
            DroneCommand::AddSender(node_id, sender) => {
                self.add_channel(node_id, sender);
                (CommandReport::LinkAdded, Vec::new())
            },
            DroneCommand::SetPacketDropRate(new_pdr) => {
                if self.set_pdr(new_pdr) {
                    (CommandReport::DropRateSet, Vec::new())
                } else {
                    (CommandReport::DropRateRefused, Vec::new())
                }
            },
            DroneCommand::Crash(queued) => {
                let actions = self.crash(queued);
                (CommandReport::Crashed, actions)
            },
            DroneCommand::RemoveSender(node_id) => {
                if self.remove_channel(node_id) {
                    (CommandReport::LinkRemoved, Vec::new())
                } else {
                    (CommandReport::NoSuchLink, Vec::new())
                }
            },
        }
    }
}

} // verus!
