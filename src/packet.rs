//! Wire packets: the source-routing header and the five payload kinds.
use vstd::prelude::*;

verus! {

/// Identity of a network participant.
pub type NodeId = u8;

/// Number of data bytes carried by one fragment.
pub const FRAGMENT_DSIZE: usize = 128;

/// The route fixed by the sender and the cursor into it.
#[derive(Debug, PartialEq, Eq)]
pub struct SourceRoutingHeader {
    /// Position in `hops` that the current holder is expected to occupy.
    pub hop_index: usize,
    pub hops: Vec<NodeId>,
}

/// Mathematical model of a routing header.
pub struct RouteView {
    pub hop_index: int,
    pub hops: Seq<NodeId>,
}

impl View for SourceRoutingHeader {
    type V = RouteView;

    open spec fn view(&self) -> RouteView {
        RouteView { hop_index: self.hop_index as int, hops: self.hops@ }
    }
}

impl Clone for SourceRoutingHeader {
    fn clone(&self) -> (r: Self)
        ensures
            r@ == self@,
    {
        SourceRoutingHeader { hop_index: self.hop_index, hops: self.hops.clone() }
    }
}

impl SourceRoutingHeader {
    /// The header of a packet that is not routed (flood requests travel hop by hop).
    pub fn empty_route() -> (r: Self)
        ensures
            r@ == empty_route_view(),
    {
        SourceRoutingHeader { hop_index: 0, hops: Vec::new() }
    }
}

pub open spec fn empty_route_view() -> RouteView {
    RouteView { hop_index: 0, hops: Seq::empty() }
}

/// A chunk of a message.
#[derive(Debug, Clone, Copy, PartialEq, Eq)]
pub struct Fragment {
    pub fragment_index: u64,
    pub total_n_fragments: u64,
    pub length: u8,
    pub data: [u8; FRAGMENT_DSIZE],
}

/// Acknowledges one fragment.
#[derive(Debug, Clone, Copy, PartialEq, Eq)]
pub struct Ack {
    pub fragment_index: u64,
}

/// Why a fragment could not be delivered.
#[derive(Debug, Clone, Copy, PartialEq, Eq)]
pub enum NackType {
    /// The route named this node as next hop but it has no link to it.
    ErrorInRouting(NodeId),
    /// The route ended at a relay node.
    DestinationIsDrone,
    /// The fragment was lost to simulated link loss.
    Dropped,
    /// The packet reached a node that its route does not name at the cursor.
    UnexpectedRecipient(NodeId),
}

/// Reports a failed fragment back to its sender.
#[derive(Debug, Clone, Copy, PartialEq, Eq)]
pub struct Nack {
    pub fragment_index: u64,
    pub nack_type: NackType,
}

/// Kind of network participant, as recorded in a flood path trace.
#[derive(Debug, Clone, Copy, PartialEq, Eq)]
pub enum NodeType {
    Client,
    Drone,
    Server,
}

/// Topology-discovery probe.
#[derive(Debug, PartialEq, Eq)]
pub struct FloodRequest {
    pub flood_id: u64,
    pub initiator_id: NodeId,
    /// Every participant visited so far, in order.
    pub path_trace: Vec<(NodeId, NodeType)>,
}

pub struct FloodRequestView {
    pub flood_id: u64,
    pub initiator_id: NodeId,
    pub path_trace: Seq<(NodeId, NodeType)>,
}

impl View for FloodRequest {
    type V = FloodRequestView;

    open spec fn view(&self) -> FloodRequestView {
        FloodRequestView {
            flood_id: self.flood_id,
            initiator_id: self.initiator_id,
            path_trace: self.path_trace@,
        }
    }
}

/// Topology-discovery result.
#[derive(Debug, PartialEq, Eq)]
pub struct FloodResponse {
    pub flood_id: u64,
    pub path_trace: Vec<(NodeId, NodeType)>,
}

pub struct FloodResponseView {
    pub flood_id: u64,
    pub path_trace: Seq<(NodeId, NodeType)>,
}

impl View for FloodResponse {
    type V = FloodResponseView;

    open spec fn view(&self) -> FloodResponseView {
        FloodResponseView { flood_id: self.flood_id, path_trace: self.path_trace@ }
    }
}

/// An element-wise copy of a path trace.
pub fn copy_trace(trace: &Vec<(NodeId, NodeType)>) -> (r: Vec<(NodeId, NodeType)>)
    ensures
        r@ == trace@,
{
    let mut r: Vec<(NodeId, NodeType)> = Vec::new();
    let mut i: usize = 0;
    while i < trace.len()
        invariant
            i <= trace@.len(),
            r@ == trace@.subrange(0, i as int),
        decreases trace@.len() - i,
    {
        r.push(trace[i]);
        i = i + 1;
        assert(r@ =~= trace@.subrange(0, i as int));
    }
    assert(r@ =~= trace@);
    r
}

impl Clone for FloodRequest {
    fn clone(&self) -> (r: Self)
        ensures
            r@ == self@,
    {
        let path_trace = copy_trace(&self.path_trace);
        FloodRequest { flood_id: self.flood_id, initiator_id: self.initiator_id, path_trace }
    }
}

impl Clone for FloodResponse {
    fn clone(&self) -> (r: Self)
        ensures
            r@ == self@,
    {
        let path_trace = copy_trace(&self.path_trace);
        FloodResponse { flood_id: self.flood_id, path_trace }
    }
}

/// The identities recorded in a path trace, in order.
pub open spec fn trace_ids(trace: Seq<(NodeId, NodeType)>) -> Seq<NodeId> {
    trace.map_values(|e: (NodeId, NodeType)| e.0)
}

/// `s` read from its last element to its first.
pub open spec fn reversed<A>(s: Seq<A>) -> Seq<A> {
    Seq::new(s.len(), |i: int| s[s.len() - 1 - i])
}

/// The response that closes a flood at the node that holds `req`: it keeps the
/// trace as discovered and is routed back along the trace, from its end.
pub open spec fn response_view(req: FloodRequestView, session_id: u64) -> PacketView {
    PacketView {
        pack_type: PayloadView::FloodResponse(
            FloodResponseView { flood_id: req.flood_id, path_trace: req.path_trace },
        ),
        routing_header: RouteView { hop_index: 0, hops: reversed(trace_ids(req.path_trace)) },
        session_id,
    }
}

impl FloodRequest {
    /// Records that the request has reached `node_id`.
    pub fn increment(&mut self, node_id: NodeId, node_type: NodeType)
        ensures
            final(self)@ == (FloodRequestView {
                path_trace: old(self)@.path_trace.push((node_id, node_type)),
                ..old(self)@
            }),
    {
        self.path_trace.push((node_id, node_type));
    }

    /// Builds the response to this request, routed back along its trace.
    pub fn generate_response(&self, session_id: u64) -> (r: Packet)
        ensures
            r@ == response_view(self@, session_id),
    {
        let n = self.path_trace.len();
        let mut hops: Vec<NodeId> = Vec::new();
        let mut i: usize = n;
        while i > 0
            invariant
                i <= n == self.path_trace@.len(),
                hops@.len() == n - i,
                forall|k: int| 0 <= k < n - i ==> hops@[k] == self.path_trace@[n - 1 - k].0,
            decreases i,
        {
            i = i - 1;
            hops.push(self.path_trace[i].0);
        }
        assert(hops@ =~= reversed(trace_ids(self.path_trace@)));
        Packet::new_flood_response(
            SourceRoutingHeader { hop_index: 0, hops },
            session_id,
            FloodResponse { flood_id: self.flood_id, path_trace: copy_trace(&self.path_trace) },
        )
    }
}

/// The payload of a packet: exactly one of five kinds.
#[derive(Debug, PartialEq, Eq)]
pub enum PacketType {
    MsgFragment(Fragment),
    Ack(Ack),
    Nack(Nack),
    FloodRequest(FloodRequest),
    FloodResponse(FloodResponse),
}

pub enum PayloadView {
    MsgFragment(Fragment),
    Ack(Ack),
    Nack(Nack),
    FloodRequest(FloodRequestView),
    FloodResponse(FloodResponseView),
}

impl View for PacketType {
    type V = PayloadView;

    open spec fn view(&self) -> PayloadView {
        match self {
            PacketType::MsgFragment(f) => PayloadView::MsgFragment(*f),
            PacketType::Ack(a) => PayloadView::Ack(*a),
            PacketType::Nack(n) => PayloadView::Nack(*n),
            PacketType::FloodRequest(r) => PayloadView::FloodRequest(r@),
            PacketType::FloodResponse(r) => PayloadView::FloodResponse(r@),
        }
    }
}

impl Clone for PacketType {
    fn clone(&self) -> (r: Self)
        ensures
            r@ == self@,
    {
        match self {
            PacketType::MsgFragment(f) => PacketType::MsgFragment(*f),
            PacketType::Ack(a) => PacketType::Ack(*a),
            PacketType::Nack(n) => PacketType::Nack(*n),
            PacketType::FloodRequest(r) => PacketType::FloodRequest(r.clone()),
            PacketType::FloodResponse(r) => PacketType::FloodResponse(r.clone()),
        }
    }
}

/// The envelope that travels between nodes.
#[derive(Debug, PartialEq, Eq)]
pub struct Packet {
    pub pack_type: PacketType,
    pub routing_header: SourceRoutingHeader,
    /// Groups the packets of one logical exchange.
    pub session_id: u64,
}

pub struct PacketView {
    pub pack_type: PayloadView,
    pub routing_header: RouteView,
    pub session_id: u64,
}

impl View for Packet {
    type V = PacketView;

    open spec fn view(&self) -> PacketView {
        PacketView {
            pack_type: self.pack_type@,
            routing_header: self.routing_header@,
            session_id: self.session_id,
        }
    }
}

impl Clone for Packet {
    fn clone(&self) -> (r: Self)
        ensures
            r@ == self@,
    {
        Packet {
            pack_type: self.pack_type.clone(),
            routing_header: self.routing_header.clone(),
            session_id: self.session_id,
        }
    }
}

impl Packet {
    pub fn new_fragment(routing_header: SourceRoutingHeader, session_id: u64, fragment: Fragment) -> (r: Self)
        ensures
            r@ == (PacketView {
                pack_type: PayloadView::MsgFragment(fragment),
                routing_header: routing_header@,
                session_id,
            }),
    {
        Packet { pack_type: PacketType::MsgFragment(fragment), routing_header, session_id }
    }

    pub fn new_ack(routing_header: SourceRoutingHeader, session_id: u64, fragment_index: u64) -> (r: Self)
        ensures
            r@ == (PacketView {
                pack_type: PayloadView::Ack(Ack { fragment_index }),
                routing_header: routing_header@,
                session_id,
            }),
    {
        Packet { pack_type: PacketType::Ack(Ack { fragment_index }), routing_header, session_id }
    }

    pub fn new_nack(routing_header: SourceRoutingHeader, session_id: u64, nack: Nack) -> (r: Self)
        ensures
            r@ == (PacketView {
                pack_type: PayloadView::Nack(nack),
                routing_header: routing_header@,
                session_id,
            }),
    {
        Packet { pack_type: PacketType::Nack(nack), routing_header, session_id }
    }

    pub fn new_flood_request(
        routing_header: SourceRoutingHeader,
        session_id: u64,
        flood_request: FloodRequest,
    ) -> (r: Self)
        ensures
            r@ == (PacketView {
                pack_type: PayloadView::FloodRequest(flood_request@),
                routing_header: routing_header@,
                session_id,
            }),
    {
        Packet { pack_type: PacketType::FloodRequest(flood_request), routing_header, session_id }
    }

    pub fn new_flood_response(
        routing_header: SourceRoutingHeader,
        session_id: u64,
        flood_response: FloodResponse,
    ) -> (r: Self)
        ensures
            r@ == (PacketView {
                pack_type: PayloadView::FloodResponse(flood_response@),
                routing_header: routing_header@,
                session_id,
            }),
    {
        Packet { pack_type: PacketType::FloodResponse(flood_response), routing_header, session_id }
    }
}

} // verus!
