//! A relay node ("drone") of a source-routed packet network, written as a
//! verified state machine: each packet or supervisor command is turned into the
//! list of packets to hand to neighbour links and events to report.
pub mod packet;
pub mod routing;
pub mod controller;
pub mod loss;
pub mod drone;
pub mod laws;

pub use controller::{DroneCommand, DroneEvent};
pub use drone::{Action, BetterCallDrone};
pub use loss::PDR_SCALE;
pub use packet::{
    Ack, FloodRequest, FloodResponse, Fragment, Nack, NackType, NodeId, NodeType, Packet,
    PacketType, SourceRoutingHeader,
};
