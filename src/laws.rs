//! Properties of the node that relate its operations, proved over their models.
use vstd::prelude::*;

use crate::controller::{DroneCommand, EventView};
use crate::drone::{
    advanced, after_flood, broadcast, drain_one, drain_spec, flood_packet, flood_spec,
    flood_targets, forward_spec, handles, is_current_hop, lists_each_once, nack_packet,
    previous_hop, visited, ActionView, DroneView,
};
use crate::loss::{valid_pdr, PDR_SCALE};
use crate::packet::{
    response_view, reversed, trace_ids, FloodRequestView, NackType, NodeId, NodeType, PacketView,
    PayloadView,
};
use crate::routing::{first_position, lemma_first_position_unique, mark_holder};

verus! {

/// At drop rate 0, a fragment whose route names this node at the cursor and a
/// known neighbour next is forwarded with the cursor advanced by exactly one, and
/// a `PacketSent` event carries the advanced header; this holds for every draw
/// but the lowest, which the rule "a draw not above the rate drops" leaves to loss.
pub proof fn law_zero_rate_forwards<L>(
    d: DroneView<L>,
    p: PacketView,
    draw: u32,
    d2: DroneView<L>,
    acts: Seq<ActionView>,
)
    requires
        d.pdr == 0,
        0 < draw < PDR_SCALE,
        p.pack_type is MsgFragment,
        is_current_hop(d, p),
        p.routing_header.hop_index + 1 < p.routing_header.hops.len(),
        d.links.contains_key(p.routing_header.hops[p.routing_header.hop_index + 1]),
        handles(d, p, draw, d2, acts),
    ensures
        d2 == d,
        acts == seq![
            ActionView::Send(p.routing_header.hops[p.routing_header.hop_index + 1], advanced(p)),
            ActionView::Report(EventView::PacketSent(advanced(p))),
        ],
        advanced(p).routing_header.hop_index == p.routing_header.hop_index + 1,
        advanced(p).routing_header.hops == p.routing_header.hops,
{
}

/// At drop rate 1, every fragment is dropped whatever the draw: a `PacketDropped`
/// event carries the packet as it arrived, after a `Dropped` Nack sent to the
/// node that precedes this one on the route, along the visited route reversed
/// (when this node occurs once on the route so far and knows that predecessor).
pub proof fn law_full_rate_drops<L>(
    d: DroneView<L>,
    p: PacketView,
    draw: u32,
    d2: DroneView<L>,
    acts: Seq<ActionView>,
)
    requires
        d.pdr == PDR_SCALE,
        draw < PDR_SCALE,
        p.pack_type is MsgFragment,
        handles(d, p, draw, d2, acts),
    ensures
        d2 == d,
        acts.len() >= 1,
        acts.last() == ActionView::Report(EventView::PacketDropped(p)),
        ({
            let h = p.routing_header;
            let i = h.hop_index;
            (is_current_hop(d, p) && i >= 1 && (forall|j: int| 0 <= j < i ==> h.hops[j] != d.id)
                && d.links.contains_key(h.hops[i - 1])) ==> acts == seq![
                ActionView::Send(
                    h.hops[i - 1],
                    nack_packet(
                        reversed(h.hops.subrange(0, i + 1)),
                        p.session_id,
                        p.pack_type->MsgFragment_0.fragment_index,
                        NackType::Dropped,
                    ),
                ),
                ActionView::Report(EventView::PacketDropped(p)),
            ]
        }),
{
    let h = p.routing_header;
    let i = h.hop_index;
    if is_current_hop(d, p) && i >= 1 && (forall|j: int| 0 <= j < i ==> h.hops[j] != d.id) {
        let marked = mark_holder(h.hops, i, d.id);
        assert(marked =~= h.hops);
        lemma_first_position_unique(marked, d.id, i);
        assert(first_position(marked, d.id) == i);
    }
}

/// A drop rate outside [0, 1] is refused: the node is left as it was.
pub proof fn law_invalid_rate_unchanged<L>(d: DroneView<L>, pdr: i64)
    requires
        !valid_pdr(pdr),
    ensures
        crate::drone::command_spec(d, DroneCommand::<L>::SetPacketDropRate(pdr)) == d,
{
}

/// Adding a link for a neighbour already known keeps the existing link, so the
/// packets sent afterwards still go through it.
pub proof fn law_add_existing_keeps_link<L>(
    d: DroneView<L>,
    n: NodeId,
    link: L,
    p: PacketView,
    fragment_index: u64,
)
    requires
        d.links.contains_key(n),
    ensures
        crate::drone::command_spec(d, DroneCommand::AddSender(n, link)).links[n] == d.links[n],
        forward_spec(crate::drone::command_spec(d, DroneCommand::AddSender(n, link)), p, fragment_index)
            == forward_spec(d, p, fragment_index),
{
}

/// A flood request with no neighbour to pass it on to yields one flood response,
/// forwarded back; its trace is the request's trace with this node appended, and
/// its route is that trace read backwards.
pub proof fn law_dead_end_flood_responds<L>(
    d: DroneView<L>,
    req: FloodRequestView,
    session_id: u64,
    acts: Seq<ActionView>,
)
    requires
        flood_targets(d, previous_hop(req)).is_empty(),
        flood_spec(d, req, session_id, acts),
    ensures
        acts == forward_spec(d, response_view(visited(d, req), session_id), 0),
        response_view(visited(d, req), session_id).pack_type == PayloadView::FloodResponse(
            crate::packet::FloodResponseView {
                flood_id: req.flood_id,
                path_trace: req.path_trace.push((d.id, NodeType::Drone)),
            },
        ),
        response_view(visited(d, req), session_id).routing_header.hops == reversed(
            trace_ids(req.path_trace.push((d.id, NodeType::Drone))),
        ),
{
}

/// No action in `acts` passes a flood request on.
pub open spec fn no_flood_request_sent(acts: Seq<ActionView>) -> bool {
    forall|i: int|
        0 <= i < acts.len() ==> !(#[trigger] acts[i] matches ActionView::Send(_, q)
            && q.pack_type is FloodRequest)
}

/// A flood request seen a second time (same flood id and initiator) is not passed
/// on again: the node only answers it with a response sent back.
pub proof fn law_repeated_flood_not_rebroadcast<L>(
    d: DroneView<L>,
    first: FloodRequestView,
    second: FloodRequestView,
    session_id: u64,
    acts: Seq<ActionView>,
)
    requires
        second.flood_id == first.flood_id,
        second.initiator_id == first.initiator_id,
        flood_spec(after_flood(d, first), second, session_id, acts),
    ensures
        acts == forward_spec(
            after_flood(d, first),
            response_view(visited(after_flood(d, first), second), session_id),
            0,
        ),
        no_flood_request_sent(acts),
{
    let d1 = after_flood(d, first);
    assert(d1.seen.contains((second.flood_id, second.initiator_id)));
    let r = response_view(visited(d1, second), session_id);
    let h = r.routing_header;
    if is_current_hop(d1, r) && h.hop_index + 1 < h.hops.len()
        && d1.links.contains_key(h.hops[h.hop_index + 1]) {
        assert(advanced(r).pack_type is FloodResponse);
    }
}

/// Every send in `acts` names a neighbour whose link `d` knows.
pub open spec fn sends_to_known_links<L>(d: DroneView<L>, acts: Seq<ActionView>) -> bool {
    forall|i: int|
        0 <= i < acts.len() ==> (#[trigger] acts[i] matches ActionView::Send(n, _) ==> d.links.contains_key(n))
}

proof fn lemma_forward_sends_to_known_links<L>(d: DroneView<L>, p: PacketView, fragment_index: u64)
    ensures
        sends_to_known_links(d, forward_spec(d, p, fragment_index)),
{
}

/// Handling a packet only ever sends on links the node knows, and leaves them as
/// they were.
pub proof fn law_packets_sent_on_known_links<L>(
    d: DroneView<L>,
    p: PacketView,
    draw: u32,
    d2: DroneView<L>,
    acts: Seq<ActionView>,
)
    requires
        handles(d, p, draw, d2, acts),
    ensures
        d2.links == d.links,
        sends_to_known_links(d, acts),
{
    match p.pack_type {
        PayloadView::MsgFragment(f) => {
            lemma_forward_sends_to_known_links(d, p, f.fragment_index);
        },
        PayloadView::FloodRequest(req) => {
            let req2 = visited(d, req);
            let targets = flood_targets(d, previous_hop(req));
            if d.seen.contains((req.flood_id, req.initiator_id)) || targets.is_empty() {
                lemma_forward_sends_to_known_links(d, response_view(req2, p.session_id), 0);
            } else {
                let order = choose|order: Seq<NodeId>|
                    lists_each_once(order, targets) && acts == #[trigger] broadcast(
                        order,
                        flood_packet(req2, p.session_id),
                    );
                assert forall|i: int| 0 <= i < acts.len() implies (#[trigger] acts[i] matches ActionView::Send(
                    n,
                    _,
                ) ==> d.links.contains_key(n)) by {
                    assert(order.to_set().contains(order[i]));
                }
            }
        },
        _ => {
            lemma_forward_sends_to_known_links(d, p, 0);
        },
    }
}

/// Draining the queue at shutdown only sends on links the node knows.
pub proof fn law_drain_sends_on_known_links<L>(d: DroneView<L>, queued: Seq<PacketView>)
    ensures
        sends_to_known_links(d, drain_spec(d, queued)),
    decreases queued.len(),
{
    if queued.len() > 0 {
        law_drain_sends_on_known_links(d, queued.drop_last());
        let p = queued.last();
        match p.pack_type {
            PayloadView::MsgFragment(f) => {},
            PayloadView::FloodRequest(_) => {},
            _ => {
                lemma_forward_sends_to_known_links(d, p, 0);
            },
        }
        let a = drain_spec(d, queued.drop_last());
        let b = drain_one(d, p);
        assert forall|i: int| 0 <= i < (a + b).len() implies (#[trigger] (a + b)[i] matches ActionView::Send(
            n,
            _,
        ) ==> d.links.contains_key(n)) by {
            if i >= a.len() {
                assert((a + b)[i] == b[i - a.len()]);
            } else {
                assert((a + b)[i] == a[i]);
            }
        }
    }
}

/// Supervisor commands keep the drop rate within [0, 1].
pub proof fn law_commands_keep_rate_valid<L>(d: DroneView<L>, command: DroneCommand<L>)
    requires
        d.pdr <= PDR_SCALE,
    ensures
        crate::drone::command_spec(d, command).pdr <= PDR_SCALE,
{
}

} // verus!
