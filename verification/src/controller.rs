//! What the drone exchanges with its surroundings besides packets: the commands it takes, the
//! events it reports, and the actions it asks its caller to perform.

use crate::packet::{NodeId, Packet, PacketView};
use vstd::prelude::*;

verus! {

/// A command of the simulation controller. `S` is the handle of an outbound link; the drone
/// stores such handles and never looks inside one.
pub enum DroneCommand<S> {
    /// Link the drone to a neighbor, or replace the handle of an existing link.
    AddSender(NodeId, S),
    /// Remove the link to a neighbor.
    RemoveSender(NodeId),
    /// Set the drop rate, in per cent.
    SetPacketDropRate(i32),
    /// Stop the drone. The packets are those still queued on its inbound channel, oldest first:
    /// they are dispatched before the drone stops.
    Crash(Vec<Packet>),
}

/// A report to the simulation controller.
#[derive(Debug, PartialEq, Eq)]
pub enum DroneEvent {
    /// The fragment was forwarded; the packet is the one that left.
    PacketSent(Packet),
    /// The fragment was discarded on purpose; the packet is the one that arrived.
    PacketDropped(Packet),
    /// A packet other than a fragment arrived whose path ends at this drone.
    ControllerShortcut(Packet),
}

/// What a [`DroneEvent`] stands for.
pub enum Event {
    PacketSent(PacketView),
    PacketDropped(PacketView),
    ControllerShortcut(PacketView),
}

impl View for DroneEvent {
    type V = Event;

    open spec fn view(&self) -> Event {
        match *self {
            DroneEvent::PacketSent(packet) => Event::PacketSent(packet@),
            DroneEvent::PacketDropped(packet) => Event::PacketDropped(packet@),
            DroneEvent::ControllerShortcut(packet) => Event::ControllerShortcut(packet@),
        }
    }
}

impl Clone for DroneEvent {
    fn clone(&self) -> (copy: Self)
        ensures
            copy@ == self@,
    {
        match self {
            DroneEvent::PacketSent(packet) => DroneEvent::PacketSent(packet.clone()),
            DroneEvent::PacketDropped(packet) => DroneEvent::PacketDropped(packet.clone()),
            DroneEvent::ControllerShortcut(packet) => DroneEvent::ControllerShortcut(
                packet.clone(),
            ),
        }
    }
}

/// One thing that the drone asks its caller to do.
#[derive(Debug, PartialEq, Eq)]
pub enum Action {
    /// Put `packet` on the link to the neighbor `to`.
    Send { to: NodeId, packet: Packet },
    /// Report the event to the simulation controller.
    Notify(DroneEvent),
}

/// What an [`Action`] stands for.
pub enum Step {
    Send { to: NodeId, packet: PacketView },
    Notify(Event),
}

impl View for Action {
    type V = Step;

    open spec fn view(&self) -> Step {
        match *self {
            Action::Send { to, packet } => Step::Send { to, packet: packet@ },
            Action::Notify(event) => Step::Notify(event@),
        }
    }
}

impl Clone for Action {
    fn clone(&self) -> (copy: Self)
        ensures
            copy@ == self@,
    {
        match self {
            Action::Send { to, packet } => Action::Send { to: *to, packet: packet.clone() },
            Action::Notify(event) => Action::Notify(event.clone()),
        }
    }
}

/// The steps that a list of actions stands for, in the same order.
pub open spec fn steps(actions: Seq<Action>) -> Seq<Step> {
    actions.map_values(|action: Action| action@)
}

/// The views of a list of packets, in the same order.
pub open spec fn packet_views(packets: Seq<Packet>) -> Seq<PacketView> {
    packets.map_values(|packet: Packet| packet@)
}

/// How the drone answered a command.
#[derive(Clone, Copy, Debug, PartialEq, Eq)]
pub enum CommandReport {
    /// The link is in the table.
    LinkAdded,
    /// The link was in the table and has been removed.
    LinkRemoved,
    /// There was no such link to remove; nothing has changed.
    NoSuchLink,
    /// The drop rate has been set.
    DropRateSet,
    /// The drop rate asked for is not between 0 and 100 per cent; the previous one stays.
    DropRateRefused,
    /// The queued packets have been dispatched and the drone has stopped.
    Crashed,
    /// The drone had stopped before; the command was not applied.
    Ignored,
}

} // verus!
