//! The relay node: forwarding along source routes, loss simulation, negative
//! acknowledgements, flood discovery and reconfiguration.
use vstd::prelude::*;

use std::collections::{HashMap, HashSet};

use crate::controller::{DroneCommand, DroneEvent, EventView};
use crate::loss::{draw_millionths, drops, valid_pdr, PDR_SCALE};
use crate::packet::{
    response_view, FloodRequest, FloodRequestView, Fragment, Nack, NackType, NodeId, NodeType,
    Packet, PacketType, PacketView, PayloadView, RouteView, SourceRoutingHeader,
};
use crate::routing::{back_route, back_route_of};

verus! {

broadcast use vstd::std_specs::hash::group_hash_axioms;

/// What handling one input asks of the world around the node, in order.
#[derive(Debug, PartialEq, Eq)]
pub enum Action {
    /// Hand the packet to the link toward this neighbour.
    Send(NodeId, Packet),
    /// Report to the supervisor.
    Report(DroneEvent),
}

pub enum ActionView {
    Send(NodeId, PacketView),
    Report(EventView),
}

impl View for Action {
    type V = ActionView;

    open spec fn view(&self) -> ActionView {
        match self {
            Action::Send(n, p) => ActionView::Send(*n, p@),
            Action::Report(e) => ActionView::Report(e@),
        }
    }
}

/// The model of a list of actions.
pub open spec fn actions_view(acts: Seq<Action>) -> Seq<ActionView> {
    acts.map_values(|a: Action| a@)
}

/// Mathematical model of a node.
pub struct DroneView<L> {
    pub id: NodeId,
    /// Drop rate in millionths.
    pub pdr: u32,
    /// Outbound link of each known neighbour.
    pub links: Map<NodeId, L>,
    /// The (flood id, initiator id) pairs already seen.
    pub seen: Set<(u64, NodeId)>,
}

/// The key under which a (flood id, initiator id) pair is remembered.
pub open spec fn flood_key(flood_id: u64, initiator_id: NodeId) -> u128 {
    (flood_id as int * 256 + initiator_id as int) as u128
}

/// A relay node whose links to neighbours are of type `L`.
pub struct BetterCallDrone<L> {
    id: NodeId,
    pdr: u32,
    pub packet_send: HashMap<NodeId, L>,
    received_flood_ids: HashSet<u128>,
}

impl<L> View for BetterCallDrone<L> {
    type V = DroneView<L>;

    closed spec fn view(&self) -> DroneView<L> {
        DroneView {
            id: self.id,
            pdr: self.pdr,
            links: self.packet_send@,
            seen: Set::new(|k: (u64, NodeId)| self.received_flood_ids@.contains(flood_key(k.0, k.1))),
        }
    }
}

/// Ack, Nack and FloodResponse packets: control traffic already on its way back.
pub open spec fn is_control(p: PayloadView) -> bool {
    p is Ack || p is Nack || p is FloodResponse
}

/// `p` with its cursor moved to the next hop.
pub open spec fn advanced(p: PacketView) -> PacketView {
    PacketView {
        routing_header: RouteView {
            hop_index: p.routing_header.hop_index + 1,
            hops: p.routing_header.hops,
        },
        ..p
    }
}

/// The negative acknowledgement sent along `route`.
pub open spec fn nack_packet(route: Seq<NodeId>, session_id: u64, fragment_index: u64, nack_type: NackType) -> PacketView {
    PacketView {
        pack_type: PayloadView::Nack(Nack { fragment_index, nack_type }),
        routing_header: RouteView { hop_index: 1, hops: route },
        session_id,
    }
}

/// Signalling that `p` failed with `nack_type`: control traffic goes to the
/// supervisor as a shortcut; anything else gets a Nack toward its sender, sent
/// only where the link to the immediate predecessor is known.
pub open spec fn nack_spec<L>(d: DroneView<L>, p: PacketView, fragment_index: u64, nack_type: NackType) -> Seq<ActionView> {
    if is_control(p.pack_type) {
        seq![ActionView::Report(EventView::ControllerShortcut(p))]
    } else {
        let route = back_route(p.routing_header.hops, p.routing_header.hop_index, d.id);
        if route.len() > 1 && d.links.contains_key(route[1]) {
            seq![ActionView::Send(route[1], nack_packet(route, p.session_id, fragment_index, nack_type))]
        } else {
            Seq::empty()
        }
    }
}

/// `d` is the hop that the cursor of `p` names.
pub open spec fn is_current_hop<L>(d: DroneView<L>, p: PacketView) -> bool {
    let h = p.routing_header;
    0 <= h.hop_index < h.hops.len() && h.hops[h.hop_index] == d.id
}

/// Forwarding `p` one hop along its route.
pub open spec fn forward_spec<L>(d: DroneView<L>, p: PacketView, fragment_index: u64) -> Seq<ActionView> {
    let h = p.routing_header;
    if !is_current_hop(d, p) {
        nack_spec(d, p, fragment_index, NackType::UnexpectedRecipient(d.id))
    } else if h.hop_index + 1 < h.hops.len() {
        let next = h.hops[h.hop_index + 1];
        if d.links.contains_key(next) {
            seq![
                ActionView::Send(next, advanced(p)),
                ActionView::Report(EventView::PacketSent(advanced(p))),
            ]
        } else {
            nack_spec(d, advanced(p), fragment_index, NackType::ErrorInRouting(next))
        }
    } else {
        nack_spec(d, p, fragment_index, NackType::DestinationIsDrone)
    }
}

/// Handling fragment packet `p`, lost to simulated loss or not.
pub open spec fn fragment_spec<L>(d: DroneView<L>, p: PacketView, fragment_index: u64, dropped: bool) -> Seq<ActionView> {
    if dropped {
        nack_spec(d, p, fragment_index, NackType::Dropped).push(
            ActionView::Report(EventView::PacketDropped(p)),
        )
    } else {
        forward_spec(d, p, fragment_index)
    }
}

/// The node reached by a flood request before this one: the last entry of its trace.
pub open spec fn previous_hop(req: FloodRequestView) -> Option<NodeId> {
    if req.path_trace.len() > 0 {
        Some(req.path_trace.last().0)
    } else {
        None
    }
}

/// The neighbours a flood request is passed on to: all but the one it came from.
pub open spec fn flood_targets<L>(d: DroneView<L>, prev: Option<NodeId>) -> Set<NodeId> {
    d.links.dom().filter(|n: NodeId| prev != Some(n))
}

/// Lists each of `targets` once, in some order.
pub open spec fn lists_each_once(order: Seq<NodeId>, targets: Set<NodeId>) -> bool {
    order.no_duplicates() && order.to_set() == targets
}

/// One send of `p` to each node of `order`.
pub open spec fn broadcast(order: Seq<NodeId>, p: PacketView) -> Seq<ActionView> {
    order.map_values(|n: NodeId| ActionView::Send(n, p))
}

/// A fresh, unrouted packet that carries flood request `req`.
pub open spec fn flood_packet(req: FloodRequestView, session_id: u64) -> PacketView {
    PacketView {
        pack_type: PayloadView::FloodRequest(req),
        routing_header: crate::packet::empty_route_view(),
        session_id,
    }
}

/// `req` once this node has appended itself to the trace.
pub open spec fn visited<L>(d: DroneView<L>, req: FloodRequestView) -> FloodRequestView {
    FloodRequestView { path_trace: req.path_trace.push((d.id, NodeType::Drone)), ..req }
}

/// The node once it has seen flood request `req`.
pub open spec fn after_flood<L>(d: DroneView<L>, req: FloodRequestView) -> DroneView<L> {
    DroneView { seen: d.seen.insert((req.flood_id, req.initiator_id)), ..d }
}

/// Handling flood request `req`: `acts` closes the flood here with a response
/// routed back, or passes the request on to every neighbour but the previous hop.
pub open spec fn flood_spec<L>(d: DroneView<L>, req: FloodRequestView, session_id: u64, acts: Seq<ActionView>) -> bool {
    let req2 = visited(d, req);
    let targets = flood_targets(d, previous_hop(req));
    if d.seen.contains((req.flood_id, req.initiator_id)) || targets.is_empty() {
        acts == forward_spec(d, response_view(req2, session_id), 0)
    } else {
        exists|order: Seq<NodeId>|
            lists_each_once(order, targets) && acts == #[trigger] broadcast(order, flood_packet(req2, session_id))
    }
}

/// The key of a flood, as stored by a node.
fn flood_key_of(flood_id: u64, initiator_id: NodeId) -> (r: u128)
    ensures
        r == flood_key(flood_id, initiator_id),
{
    flood_id as u128 * 256 + initiator_id as u128
}

proof fn lemma_flood_key_injective(a: u64, b: NodeId, c: u64, e: NodeId)
    requires
        flood_key(a, b) == flood_key(c, e),
    ensures
        a == c && b == e,
{
    assert(a as int * 256 + b as int == c as int * 256 + e as int);
    if a < c {
        assert(a as int * 256 + 256 <= c as int * 256);
    } else if c < a {
        assert(c as int * 256 + 256 <= a as int * 256);
    }
}

/// The node after a supervisor command other than `Crash`.
pub open spec fn command_spec<L>(d: DroneView<L>, command: DroneCommand<L>) -> DroneView<L> {
    match command {
        DroneCommand::RemoveSender(n) => DroneView { links: d.links.remove(n), ..d },
        DroneCommand::AddSender(n, link) => if d.links.contains_key(n) {
            d
        } else {
            DroneView { links: d.links.insert(n, link), ..d }
        },
        DroneCommand::SetPacketDropRate(pdr) => if valid_pdr(pdr) {
            DroneView { pdr: pdr as u32, ..d }
        } else {
            d
        },
        DroneCommand::Crash => d,
    }
}

/// Handling packet `p` in node `d` ends in node `d2` with actions `acts`;
/// `draw` is the loss draw that a fragment meets.
pub open spec fn handles<L>(d: DroneView<L>, p: PacketView, draw: u32, d2: DroneView<L>, acts: Seq<ActionView>) -> bool {
    match p.pack_type {
        PayloadView::MsgFragment(f) => d2 == d && acts == fragment_spec(
            d,
            p,
            f.fragment_index,
            drops(d.pdr, draw),
        ),
        PayloadView::FloodRequest(req) => d2 == after_flood(d, req) && flood_spec(
            d,
            req,
            p.session_id,
            acts,
        ),
        _ => d2 == d && acts == forward_spec(d, p, 0),
    }
}

/// What draining one queued packet at shutdown asks for: a fragment is refused
/// with `ErrorInRouting` naming this node, a flood request is discarded, and
/// other packets are forwarded.
pub open spec fn drain_one<L>(d: DroneView<L>, p: PacketView) -> Seq<ActionView> {
    match p.pack_type {
        PayloadView::MsgFragment(f) => nack_spec(d, p, f.fragment_index, NackType::ErrorInRouting(d.id)),
        PayloadView::FloodRequest(_) => Seq::empty(),
        _ => forward_spec(d, p, 0),
    }
}

/// Draining `queued` in order at shutdown.
pub open spec fn drain_spec<L>(d: DroneView<L>, queued: Seq<PacketView>) -> Seq<ActionView>
    decreases queued.len(),
{
    if queued.len() == 0 {
        Seq::empty()
    } else {
        drain_spec(d, queued.drop_last()) + drain_one(d, queued.last())
    }
}

/// The models of a list of packets.
pub open spec fn packets_view(ps: Seq<Packet>) -> Seq<PacketView> {
    ps.map_values(|p: Packet| p@)
}

impl<L> BetterCallDrone<L> {
    /// A node with identity `id`, its initial links and drop rate (in millionths).
    pub fn new(id: NodeId, packet_send: HashMap<NodeId, L>, pdr: u32) -> (r: Self)
        requires
            pdr <= PDR_SCALE,
        ensures
            r@ == (DroneView { id, pdr, links: packet_send@, seen: Set::<(u64, NodeId)>::empty() }),
    {
        let r = BetterCallDrone { id, pdr, packet_send, received_flood_ids: HashSet::new() };
        assert(r@.seen =~= Set::<(u64, NodeId)>::empty());
        r
    }

    /// This node's identity.
    pub fn id(&self) -> (r: NodeId)
        ensures
            r == self@.id,
    {
        self.id
    }

    /// The drop rate, in millionths.
    pub fn pdr(&self) -> (r: u32)
        ensures
            r == self@.pdr,
    {
        self.pdr
    }

    /// Signals that `packet` failed with `nack_type` (see [`nack_spec`]).
    pub fn send_nack(&self, packet: Packet, fragment_index: u64, nack_type: NackType) -> (acts: Vec<Action>)
        ensures
            actions_view(acts@) == nack_spec(self@, packet@, fragment_index, nack_type),
    {
        match packet.pack_type {
            PacketType::Nack(_) | PacketType::Ack(_) | PacketType::FloodResponse(_) => {
                let acts = vec![Action::Report(DroneEvent::ControllerShortcut(packet))];
                assert(actions_view(acts@) =~= nack_spec(self@, packet@, fragment_index, nack_type));
                acts
            },
            _ => {
                let route = back_route_of(
                    &packet.routing_header.hops,
                    packet.routing_header.hop_index,
                    self.id,
                );
                if route.len() > 1 && self.packet_send.contains_key(&route[1]) {
                    let to = route[1];
                    let nack = Packet {
                        pack_type: PacketType::Nack(Nack { fragment_index, nack_type }),
                        routing_header: SourceRoutingHeader { hop_index: 1, hops: route },
                        session_id: packet.session_id,
                    };
                    let acts = vec![Action::Send(to, nack)];
                    assert(actions_view(acts@) =~= nack_spec(self@, packet@, fragment_index, nack_type));
                    acts
                } else {
                    let acts: Vec<Action> = Vec::new();
                    assert(actions_view(acts@) =~= nack_spec(self@, packet@, fragment_index, nack_type));
                    acts
                }
            },
        }
    }

    /// The neighbours other than `prev`, each once.
    fn neighbours_except(&self, prev: Option<NodeId>) -> (r: Vec<NodeId>)
        ensures
            lists_each_once(r@, flood_targets(self@, prev)),
    {
        let mut r: Vec<NodeId> = Vec::new();
        let ghost keys = vstd::std_specs::iter::IteratorSpec::remaining(
            &vstd::std_specs::hash::spec_keys_iter(&self.packet_send),
        );
        let ghost mut count: int = 0;
        for n in it: self.packet_send.keys()
            invariant
                it.seq() == keys,
                count == it.index(),
                it.seq().no_duplicates(),
                it.seq().unref().to_set() == self.packet_send@.dom(),
                r@.no_duplicates(),
                forall|k: NodeId|
                    r@.contains(k) <==> (exists|j: int|
                        0 <= j < count && *keys[j] == k && prev != Some(k)),
        {
            let ghost i = it.index();
            let ghost r0 = r@;
            assert(*n == *it.seq()[i]);
            let keep = match prev {
                Some(p) => *n != p,
                None => true,
            };
            if keep {
                assert(!r@.contains(*n));
                r.push(*n);
            }
            assert(forall|m: int| 0 <= m < r0.len() ==> r@[m] == r0[m]);
            assert forall|k: NodeId|
                r@.contains(k) <==> (exists|j: int|
                    0 <= j < i + 1 && *keys[j] == k && prev != Some(k)) by {
                if r@.contains(k) {
                    if r0.contains(k) {
                        let j = choose|j: int| 0 <= j < i && *it.seq()[j] == k && prev != Some(k);
                        assert(0 <= j < i + 1 && *it.seq()[j] == k && prev != Some(k));
                    } else {
                        assert(*it.seq()[i] == k);
                    }
                }
                if exists|j: int| 0 <= j < i + 1 && *it.seq()[j] == k && prev != Some(k) {
                    let j = choose|j: int| 0 <= j < i + 1 && *it.seq()[j] == k && prev != Some(k);
                    if j < i {
                        assert(r0.contains(k));
                        let m = choose|m: int| 0 <= m < r0.len() && r0[m] == k;
                        assert(r@[m] == k);
                    } else {
                        assert(r@[r@.len() - 1] == k);
                    }
                }
            }
            proof {
                count = count + 1;
            }
        }
        proof {
            let s = keys;
            assert(count == s.len());
            assert forall|k: NodeId| r@.to_set().contains(k) <==> flood_targets(self@, prev).contains(k) by {
                if self.packet_send@.dom().contains(k) {
                    assert(s.unref().to_set().contains(k));
                    let j = choose|j: int| 0 <= j < s.unref().len() && s.unref()[j] == k;
                    assert(*s[j] == k);
                }
                if r@.contains(k) {
                    let j = choose|j: int| 0 <= j < count && *s[j] == k && prev != Some(k);
                    assert(s.unref()[j] == k);
                    assert(s.unref().to_set().contains(k));
                }
            }
        }
        assert(r@.to_set() =~= flood_targets(self@, prev));
        r
    }

    /// Draws whether a fragment is lost to simulated loss.
    pub fn should_drop_packet(&self) -> (r: bool)
        ensures
            exists|draw: u32| draw < PDR_SCALE && r == drops(self@.pdr, draw),
    {
        self.drops_at(draw_millionths())
    }

    /// Whether a loss draw of `draw` millionths takes a fragment at this node's rate.
    pub fn drops_at(&self, draw: u32) -> (r: bool)
        requires
            draw < PDR_SCALE,
        ensures
            r == drops(self@.pdr, draw),
    {
        draw <= self.pdr
    }

    /// Handles a fragment that arrived with `routing_header`; `dropped` says
    /// whether simulated loss takes it.
    pub fn handle_fragment(
        &self,
        routing_header: &SourceRoutingHeader,
        session_id: u64,
        fragment: &Fragment,
        dropped: bool,
    ) -> (acts: Vec<Action>)
        ensures
            actions_view(acts@) == fragment_spec(
                self@,
                PacketView {
                    pack_type: PayloadView::MsgFragment(*fragment),
                    routing_header: routing_header@,
                    session_id,
                },
                fragment.fragment_index,
                dropped,
            ),
    {
        let packet = Packet {
            routing_header: routing_header.clone(),
            session_id,
            pack_type: PacketType::MsgFragment(*fragment),
        };
        if dropped {
            let dropped_packet = packet.clone();
            let mut acts = self.send_nack(packet, fragment.fragment_index, NackType::Dropped);
            let ghost a0 = acts@;
            acts.push(Action::Report(DroneEvent::PacketDropped(dropped_packet)));
            assert(actions_view(acts@) =~= actions_view(a0).push(acts@.last()@));
            acts
        } else {
            self.forward_packet(packet, fragment.fragment_index)
        }
    }

    /// Sends the response that closes `flood_request` at this node back along its trace.
    pub fn forward_flood_response(&self, flood_request: &FloodRequest, session_id: u64) -> (acts: Vec<Action>)
        ensures
            actions_view(acts@) == forward_spec(self@, response_view(flood_request@, session_id), 0),
    {
        let packet = flood_request.generate_response(session_id);
        self.forward_packet(packet, 0)
    }

    /// Handles a flood request (see [`flood_spec`]).
    pub fn handle_ndp(&mut self, flood_request: FloodRequest, session_id: u64) -> (acts: Vec<Action>)
        ensures
            final(self)@ == after_flood(old(self)@, flood_request@),
            flood_spec(old(self)@, flood_request@, session_id, actions_view(acts@)),
    {
        let ghost d0 = self@;
        let ghost req0 = flood_request@;
        let n = flood_request.path_trace.len();
        let prev = if n > 0 {
            Some(flood_request.path_trace[n - 1].0)
        } else {
            None
        };
        assert(prev == previous_hop(req0));
        let mut flood_request = flood_request;
        flood_request.increment(self.id, NodeType::Drone);
        assert(flood_request@ == visited(d0, req0));
        let key = flood_key_of(flood_request.flood_id, flood_request.initiator_id);
        let ghost pair = (req0.flood_id, req0.initiator_id);
        proof {
            assert forall|k: (u64, NodeId)| #[trigger] flood_key(k.0, k.1) == key implies k == pair by {
                lemma_flood_key_injective(k.0, k.1, pair.0, pair.1);
            }
        }
        if self.received_flood_ids.contains(&key) {
            assert(d0.seen.contains(pair));
            assert(self@.seen =~= after_flood(d0, req0).seen);
            let acts = self.forward_flood_response(&flood_request, session_id);
            assert(flood_spec(d0, req0, session_id, actions_view(acts@)));
            acts
        } else {
            assert(!d0.seen.contains(pair));
            self.received_flood_ids.insert(key);
            assert(self@.seen =~= after_flood(d0, req0).seen);
            let targets = self.neighbours_except(prev);
            if targets.len() == 0 {
                assert(targets@.to_set() =~= Set::<NodeId>::empty());
                let acts = self.forward_flood_response(&flood_request, session_id);
                assert(flood_targets(d0, previous_hop(req0)).is_empty());
                assert(flood_spec(d0, req0, session_id, actions_view(acts@)));
                acts
            } else {
                assert(targets@.contains(targets@[0]));
                let ghost fp = flood_packet(flood_request@, session_id);
                let mut acts: Vec<Action> = Vec::new();
                let mut i: usize = 0;
                while i < targets.len()
                    invariant
                        i <= targets@.len(),
                        fp == flood_packet(flood_request@, session_id),
                        actions_view(acts@) =~= broadcast(targets@.subrange(0, i as int), fp),
                    decreases targets@.len() - i,
                {
                    let p = Packet::new_flood_request(
                        SourceRoutingHeader::empty_route(),
                        session_id,
                        flood_request.clone(),
                    );
                    let ghost a0 = acts@;
                    acts.push(Action::Send(targets[i], p));
                    assert(actions_view(acts@) =~= actions_view(a0).push(ActionView::Send(targets@[i as int], fp)));
                    i = i + 1;
                    assert(actions_view(acts@) =~= broadcast(targets@.subrange(0, i as int), fp));
                }
                assert(targets@.subrange(0, i as int) =~= targets@);
                assert(actions_view(acts@) == broadcast(targets@, fp));
                assert(lists_each_once(targets@, flood_targets(d0, previous_hop(req0))));
                assert(flood_targets(d0, previous_hop(req0)).contains(targets@[0]));
                assert(fp == flood_packet(visited(d0, req0), session_id));
                assert(flood_spec(d0, req0, session_id, actions_view(acts@)));
                acts
            }
        }
    }

    /// Handles one packet from the inbound stream; a fragment first meets
    /// simulated loss (see [`handles`]).
    pub fn handle_packet(&mut self, packet: Packet) -> (acts: Vec<Action>)
        ensures
            exists|draw: u32|
                draw < PDR_SCALE && handles(old(self)@, packet@, draw, final(self)@, actions_view(acts@)),
    {
        let ghost p0 = packet@;
        match packet.pack_type {
            PacketType::MsgFragment(fragment) => {
                let dropped = self.should_drop_packet();
                let acts = self.handle_fragment(&packet.routing_header, packet.session_id, &fragment, dropped);
                let ghost draw = choose|draw: u32| draw < PDR_SCALE && dropped == drops(self@.pdr, draw);
                assert(handles(self@, p0, draw, self@, actions_view(acts@)));
                acts
            },
            PacketType::FloodRequest(flood_request) => {
                let acts = self.handle_ndp(flood_request, packet.session_id);
                assert(handles(old(self)@, p0, 0, self@, actions_view(acts@)));
                acts
            },
            _ => {
                let acts = self.forward_packet(packet, 0);
                assert(handles(self@, p0, 0, self@, actions_view(acts@)));
                acts
            },
        }
    }

    /// Drains the packets still queued when the node stops (see [`drain_spec`]).
    /// The node is consumed: nothing is handled after this.
    pub fn crash_drone(self, queued: Vec<Packet>) -> (acts: Vec<Action>)
        ensures
            actions_view(acts@) == drain_spec(self@, packets_view(queued@)),
    {
        let mut acts: Vec<Action> = Vec::new();
        let mut i: usize = 0;
        while i < queued.len()
            invariant
                i <= queued@.len(),
                actions_view(acts@) == drain_spec(self@, packets_view(queued@.subrange(0, i as int))),
            decreases queued@.len() - i,
        {
            let packet = queued[i].clone();
            let ghost p = packet@;
            let mut more = match &packet.pack_type {
                PacketType::MsgFragment(fragment) => {
                    let fragment_index = fragment.fragment_index;
                    self.send_nack(packet, fragment_index, NackType::ErrorInRouting(self.id))
                },
                PacketType::FloodRequest(_) => Vec::new(),
                _ => self.forward_packet(packet, 0),
            };
            assert(actions_view(more@) =~= drain_one(self@, p));
            let ghost a0 = acts@;
            let ghost m0 = more@;
            acts.append(&mut more);
            assert(actions_view(acts@) =~= actions_view(a0) + actions_view(m0));
            i = i + 1;
            let ghost done = packets_view(queued@.subrange(0, i as int));
            assert(done.drop_last() =~= packets_view(queued@.subrange(0, i - 1)));
            assert(done.last() == p);
        }
        assert(queued@.subrange(0, i as int) =~= queued@);
        acts
    }

    /// Learns the link to neighbour `node_id`, unless one is already known:
    /// the existing link is then kept.
    pub fn add_sender(&mut self, node_id: NodeId, sender: L)
        ensures
            final(self)@ == command_spec(old(self)@, DroneCommand::AddSender(node_id, sender)),
    {
        if !self.packet_send.contains_key(&node_id) {
            self.packet_send.insert(node_id, sender);
        }
    }

    /// Sets the drop rate to `pdr` millionths when it lies within [0, 1];
    /// leaves it unchanged otherwise.
    pub fn set_pdr(&mut self, pdr: i64)
        ensures
            final(self)@ == command_spec(old(self)@, DroneCommand::<L>::SetPacketDropRate(pdr)),
    {
        if 0 <= pdr && pdr <= PDR_SCALE as i64 {
            self.pdr = pdr as u32;
        }
    }

    /// Forgets the link to neighbour `node_id`, if any.
    pub fn remove_sender(&mut self, node_id: NodeId)
        ensures
            final(self)@ == command_spec(old(self)@, DroneCommand::<L>::RemoveSender(node_id)),
    {
        if self.packet_send.contains_key(&node_id) {
            self.packet_send.remove(&node_id);
        }
        assert(self@.links =~= old(self)@.links.remove(node_id));
    }

    /// Applies a reconfiguration command; `Crash` is handled by [`Self::crash_drone`].
    pub fn handle_command(&mut self, command: DroneCommand<L>)
        requires
            !(command is Crash),
        ensures
            final(self)@ == command_spec(old(self)@, command),
    {
        match command {
            DroneCommand::AddSender(node_id, sender) => self.add_sender(node_id, sender),
            DroneCommand::SetPacketDropRate(pdr) => self.set_pdr(pdr),
            DroneCommand::RemoveSender(node_id) => self.remove_sender(node_id),
            DroneCommand::Crash => {},
        }
    }

    /// Forwards `packet` to the next hop of its route (see [`forward_spec`]).
    pub fn forward_packet(&self, packet: Packet, fragment_index: u64) -> (acts: Vec<Action>)
        ensures
            actions_view(acts@) == forward_spec(self@, packet@, fragment_index),
    {
        let ghost p0 = packet@;
        let hop_index = packet.routing_header.hop_index;
        let n = packet.routing_header.hops.len();
        if hop_index < n && packet.routing_header.hops[hop_index] == self.id {
            if hop_index + 1 < n {
                let next_hop = packet.routing_header.hops[hop_index + 1];
                let mut packet = packet;
                packet.routing_header.hop_index = hop_index + 1;
                assert(packet@ == advanced(p0));
                if self.packet_send.contains_key(&next_hop) {
                    let sent = packet.clone();
                    let acts = vec![Action::Send(next_hop, packet), Action::Report(DroneEvent::PacketSent(sent))];
                    assert(actions_view(acts@) =~= forward_spec(self@, p0, fragment_index));
                    acts
                } else {
                    self.send_nack(packet, fragment_index, NackType::ErrorInRouting(next_hop))
                }
            } else {
                self.send_nack(packet, fragment_index, NackType::DestinationIsDrone)
            }
        } else {
            self.send_nack(packet, fragment_index, NackType::UnexpectedRecipient(self.id))
        }
    }
}

} // verus!
