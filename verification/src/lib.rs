//! A relay node ("drone") of a source-routed packet network.
//!
//! The drone is written as a state machine: every input (a packet from the inbound channel, a
//! command from the controller) is handed to a method of [`Drone`], which updates the drone and
//! returns the list of [`Action`]s to perform, in order. Performing them, and waiting on the
//! channels, is the caller's business. Each method states in its contract exactly which actions
//! come back, over the mathematical model in [`model`].

pub mod controller;
pub mod drone;
pub mod laws;
pub mod model;
pub mod packet;
pub mod random;
pub mod utils;

pub use controller::{Action, CommandReport, DroneCommand, DroneEvent};
pub use drone::Drone;
pub use model::Lifecycle;
pub use utils::NetworkUtils;

pub use packet::{
    Ack, FloodRequest, FloodResponse, Fragment, Nack, NackType, NodeId, NodeType, Packet,
    PacketType, SourceRoutingHeader,
};
