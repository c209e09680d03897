//! What passes between a node and its supervisor.
use vstd::prelude::*;

use crate::packet::{NodeId, Packet, PacketView};

verus! {

/// Reconfiguration sent by the supervisor; `L` is the type of a link to a neighbour.
pub enum DroneCommand<L> {
    /// Forget the link to a neighbour.
    RemoveSender(NodeId),
    /// Learn a link to a neighbour.
    AddSender(NodeId, L),
    /// New drop rate, in millionths (see [`crate::loss::PDR_SCALE`]).
    SetPacketDropRate(i64),
    /// Drain the queued packets and stop.
    Crash,
}

/// What a node reports to its supervisor.
#[derive(Debug, PartialEq, Eq)]
pub enum DroneEvent {
    /// The packet was handed to a neighbour link.
    PacketSent(Packet),
    /// The fragment was lost to simulated link loss.
    PacketDropped(Packet),
    /// A control packet that could not be placed on the network, handed over directly.
    ControllerShortcut(Packet),
}

pub enum EventView {
    PacketSent(PacketView),
    PacketDropped(PacketView),
    ControllerShortcut(PacketView),
}

impl View for DroneEvent {
    type V = EventView;

    open spec fn view(&self) -> EventView {
        match self {
            DroneEvent::PacketSent(p) => EventView::PacketSent(p@),
            DroneEvent::PacketDropped(p) => EventView::PacketDropped(p@),
            DroneEvent::ControllerShortcut(p) => EventView::ControllerShortcut(p@),
        }
    }
}

} // verus!
