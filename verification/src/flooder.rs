/*!
    The flood-discovery algorithm. `Flooder` is the capability contract a
    hosting node implements (identity, neighbor table, flood history,
    monitoring sink); the provided `handle_flood_request` runs the whole
    algorithm against that contract: it extends the path trace, suppresses
    duplicates, re-broadcasts a fresh flood to every neighbor but the
    sender, or terminates the flood and routes a response back along the
    reversed trace.
*/

use vstd::prelude::*;

use crate::packet::{
    FloodId, FloodRequest, FloodRequestV, NodeId, NodeType, Packet, PacketTypeV, PacketV,
    SourceRoutingHeader, SourceRoutingHeaderV, FloodResponseV, reverse_trace_ids,
};

verus! {

/// Error produced during the handling of a flood request: the response's
/// computed next hop has no live neighbor channel.
#[derive(Debug)]
pub struct FloodingError;

/// Whether a node receiving this flood re-broadcasts it: the flood is new
/// to the node and the node has more than one neighbor. In every other
/// case the node terminates the flood and answers it.
pub open spec fn propagates<F: Flooder>(node: &F, f: FloodRequestV) -> bool {
    !node.seen().contains(f.flood_key()) && node.neighbour_ids().len() > 1
}

/// The view of the packet a propagating node broadcasts: the inbound
/// routing header and session, around the extended flood request.
pub open spec fn broadcast_packet(h: SourceRoutingHeaderV, sid: u64, f: FloodRequestV) -> PacketV {
    PacketV { routing_header: h, session_id: sid, pack_type: PacketTypeV::FloodRequest(f) }
}

/// The view of the response packet a terminating node sends: the reversed
/// trace as the route home, with the current-hop index already advanced
/// past the terminator itself.
pub open spec fn response_packet(sid: u64, f: FloodRequestV) -> PacketV {
    PacketV {
        routing_header: SourceRoutingHeaderV {
            hop_index: 1,
            hops: reverse_trace_ids(f.path_trace),
        },
        session_id: sid,
        pack_type: PacketTypeV::FloodResponse(
            FloodResponseV { flood_id: f.flood_id, path_trace: f.path_trace },
        ),
    }
}

/// The neighbor a terminating node forwards its response to: the hop after
/// the terminator on the reversed path, that is, the node the flood was
/// received from.
pub open spec fn response_next_hop(f: FloodRequestV) -> NodeId
    recommends
        f.path_trace.len() >= 2,
{
    reverse_trace_ids(f.path_trace)[1]
}

/// The broadcast copies a propagating node hands out: one per neighbor, in
/// table order, skipping the neighbor the flood came from.
pub open spec fn fanout_transmissions(
    neis: Seq<NodeId>,
    sender_id: NodeId,
    p: PacketV,
) -> Seq<(NodeId, PacketV)>
    decreases neis.len(),
{
    if neis.len() == 0 {
        Seq::empty()
    } else {
        let rest = fanout_transmissions(neis.drop_last(), sender_id, p);
        if neis.last() != sender_id {
            rest.push((neis.last(), p))
        } else {
            rest
        }
    }
}

/// The monitoring reports matching `fanout_transmissions`, packet only.
pub open spec fn fanout_reports(neis: Seq<NodeId>, sender_id: NodeId, p: PacketV) -> Seq<PacketV>
    decreases neis.len(),
{
    if neis.len() == 0 {
        Seq::empty()
    } else {
        let rest = fanout_reports(neis.drop_last(), sender_id, p);
        if neis.last() != sender_id {
            rest.push(p)
        } else {
            rest
        }
    }
}

/// Gives a node the ability to handle a flood request in the network.
pub trait Flooder: Sized {
    /// The node's stable identifier.
    spec fn node_id(&self) -> NodeId;

    /// The kind tag the node writes into path traces.
    spec fn node_type_spec(&self) -> NodeType;

    /// The ids of the node's immediate neighbors, in table order.
    spec fn neighbour_ids(&self) -> Seq<NodeId>;

    /// The flood identifiers currently recorded in the node's history.
    spec fn seen(&self) -> Set<FloodId>;

    /// Whether the node's history has room to keep an identifier at all.
    /// A history of capacity zero holds nothing, so such a node cannot
    /// record the floods it handles.
    spec fn can_record(&self) -> bool;

    /// Everything the node has handed to a neighbor so far, in order:
    /// destination and packet.
    spec fn transmissions(&self) -> Seq<(NodeId, PacketV)>;

    /// Every packet reported to the monitoring sink so far, in order.
    spec fn reported(&self) -> Seq<PacketV>;

    /// Retrieves the ID of the node.
    fn get_id(&self) -> (r: NodeId)
        ensures
            r == self.node_id(),
    ;

    /// Retrieves the kind tag of the node.
    fn get_node_type(&self) -> (r: NodeType)
        ensures
            r == self.node_type_spec(),
    ;

    /// Retrieves the ids of the neighbors of the node.
    fn get_neighbours(&self) -> (r: Vec<NodeId>)
        ensures
            r@ == self.neighbour_ids(),
    ;

    /// Checks if the node has already seen a flood.
    fn has_seen_flood(&self, flood_id: FloodId) -> (r: bool)
        ensures
            r == self.seen().contains(flood_id),
    ;

    /// Records the flood id inside the history of floods that have already
    /// been seen. The history is bounded: recording can push out older
    /// entries, never invents one, and keeps the id only where the history
    /// has room for anything at all.
    fn insert_flood(&mut self, flood_id: FloodId)
        ensures
            final(self).node_id() == old(self).node_id(),
            final(self).node_type_spec() == old(self).node_type_spec(),
            final(self).neighbour_ids() == old(self).neighbour_ids(),
            final(self).can_record() == old(self).can_record(),
            old(self).can_record() ==> final(self).seen().contains(flood_id),
            final(self).seen().subset_of(old(self).seen().insert(flood_id)),
            final(self).transmissions() == old(self).transmissions(),
            final(self).reported() == old(self).reported(),
    ;

    /// Hands a packet to the neighbor with the given id.
    fn forward_packet(&mut self, dest: NodeId, p: Packet)
        requires
            old(self).neighbour_ids().contains(dest),
        ensures
            final(self).node_id() == old(self).node_id(),
            final(self).node_type_spec() == old(self).node_type_spec(),
            final(self).neighbour_ids() == old(self).neighbour_ids(),
            final(self).can_record() == old(self).can_record(),
            final(self).seen() == old(self).seen(),
            final(self).transmissions() == old(self).transmissions().push((dest, p@)),
            final(self).reported() == old(self).reported(),
    ;

    /// Reports a transmitted packet to the monitoring sink.
    fn send_to_controller(&mut self, p: Packet)
        ensures
            final(self).node_id() == old(self).node_id(),
            final(self).node_type_spec() == old(self).node_type_spec(),
            final(self).neighbour_ids() == old(self).neighbour_ids(),
            final(self).can_record() == old(self).can_record(),
            final(self).seen() == old(self).seen(),
            final(self).transmissions() == old(self).transmissions(),
            final(self).reported() == old(self).reported().push(p@),
    ;

    /// Provided method that handles an incoming flood request.
    ///
    /// The node first appends itself to the path trace. A flood it has
    /// already seen, or one arriving at a node with at most one neighbor,
    /// is terminated: the node builds the response, advances the route
    /// home, and forwards it to the hop before itself — or reports no
    /// route. Any other flood is re-broadcast to every neighbor but the
    /// sender, and its identifier is recorded once — kept for as long as
    /// the node's bounded history holds it.
    ///
    /// # Errors
    ///
    /// Will return `Err` if the flood response cannot be sent: its next
    /// hop is not among this node's neighbors. Nothing is transmitted or
    /// reported in that case.
    fn handle_flood_request(
        &mut self,
        routing_header: &SourceRoutingHeader,
        sid: u64,
        flood_r: &mut FloodRequest,
    ) -> (r: Result<(), FloodingError>)
        requires
            (old(self).seen().contains(old(flood_r)@.flood_key()) || old(
                self,
            ).neighbour_ids().len() <= 1) ==> old(flood_r)@.path_trace.len() >= 1,
        ensures
            final(self).node_id() == old(self).node_id(),
            final(self).node_type_spec() == old(self).node_type_spec(),
            final(self).neighbour_ids() == old(self).neighbour_ids(),
            final(self).can_record() == old(self).can_record(),
            final(flood_r)@ == old(flood_r)@.extended(
                old(self).node_id(),
                old(self).node_type_spec(),
            ),
            ({
                let f0 = old(flood_r)@;
                let f1 = f0.extended(old(self).node_id(), old(self).node_type_spec());
                if !old(self).seen().contains(f0.flood_key()) && old(
                    self,
                ).neighbour_ids().len() > 1 {
                    let p = broadcast_packet(routing_header@, sid, f1);
                    &&& r is Ok
                    &&& final(self).transmissions() == old(self).transmissions()
                        + fanout_transmissions(old(self).neighbour_ids(), f0.sender_id(), p)
                    &&& final(self).reported() == old(self).reported() + fanout_reports(
                        old(self).neighbour_ids(),
                        f0.sender_id(),
                        p,
                    )
                    &&& old(self).can_record() ==> final(self).seen().contains(f0.flood_key())
                    &&& final(self).seen().subset_of(old(self).seen().insert(f0.flood_key()))
                } else {
                    let resp = response_packet(sid, f1);
                    let nh = response_next_hop(f1);
                    &&& final(self).seen() == old(self).seen()
                    &&& if old(self).neighbour_ids().contains(nh) {
                        &&& r is Ok
                        &&& final(self).transmissions() == old(self).transmissions().push(
                            (nh, resp),
                        )
                        &&& final(self).reported() == old(self).reported().push(resp)
                    } else {
                        &&& r is Err
                        &&& final(self).transmissions() == old(self).transmissions()
                        &&& final(self).reported() == old(self).reported()
                    }
                }
            }),
    {
        let sender_id: NodeId = match self.last_trace_entry_id(flood_r) {
            Some(id) => id,
            None => flood_r.initiator_id,
        };
        let flood_tuple_id: FloodId = (flood_r.initiator_id, flood_r.flood_id);

        let my_id = self.get_id();
        let my_type = self.get_node_type();
        flood_r.increment(my_id, my_type);

        let neighbours = self.get_neighbours();
        if self.has_seen_flood(flood_tuple_id) || neighbours.len() <= 1 {
            let mut new_packet: Packet = flood_r.generate_response(sid);
            new_packet.routing_header.increase_hop_index();
            let next_hop: NodeId = new_packet.routing_header.current_hop().unwrap();
            if contains_id(&neighbours, next_hop) {
                self.forward_packet(next_hop, new_packet.clone());
                self.send_to_controller(new_packet);
                Ok(())
            } else {
                Err(FloodingError)
            }
        } else {
            let ghost nids = self.neighbour_ids();
            let ghost seen0 = self.seen();
            let ghost base_trans = self.transmissions();
            let ghost base_reps = self.reported();
            let ghost pv = broadcast_packet(routing_header@, sid, flood_r@);
            let n = neighbours.len();
            let mut i: usize = 0;
            while i < n
                invariant
                    0 <= i <= n,
                    n == neighbours@.len(),
                    neighbours@ == nids,
                    nids == self.neighbour_ids(),
                    self.node_id() == old(self).node_id(),
                    self.node_type_spec() == old(self).node_type_spec(),
                    self.can_record() == old(self).can_record(),
                    self.seen() == seen0,
                    flood_r@ == old(flood_r)@.extended(old(self).node_id(), old(self).node_type_spec()),
                    pv == broadcast_packet(routing_header@, sid, flood_r@),
                    self.transmissions() == base_trans + fanout_transmissions(
                        nids.subrange(0, i as int),
                        sender_id,
                        pv,
                    ),
                    self.reported() == base_reps + fanout_reports(
                        nids.subrange(0, i as int),
                        sender_id,
                        pv,
                    ),
                decreases n - i,
            {
                let ghost prefix = nids.subrange(0, i as int);
                let nid = neighbours[i];
                if nid != sender_id {
                    let new_packet = Packet::new_flood_request(
                        routing_header.clone(),
                        sid,
                        flood_r.clone(),
                    );
                    self.forward_packet(nid, new_packet.clone());
                    self.send_to_controller(new_packet);
                }
                proof {
                    let next = nids.subrange(0, i + 1 as int);
                    assert(next.drop_last() =~= prefix);
                    assert(next.last() == nids[i as int]);
                    assert(self.transmissions() =~= base_trans + fanout_transmissions(
                        next,
                        sender_id,
                        pv,
                    ));
                    assert(self.reported() =~= base_reps + fanout_reports(
                        next,
                        sender_id,
                        pv,
                    ));
                }
                i += 1;
            }
            proof {
                assert(nids.subrange(0, n as int) =~= nids);
            }
            self.insert_flood(flood_tuple_id);
            Ok(())
        }
    }

    /// The id written in the last path-trace entry, if the trace is not
    /// empty.
    fn last_trace_entry_id(&self, flood_r: &FloodRequest) -> (r: Option<NodeId>)
        ensures
            r == (if flood_r@.path_trace.len() == 0 {
                None::<NodeId>
            } else {
                Some(flood_r@.path_trace.last().0)
            }),
    {
        let n = flood_r.path_trace.len();
        if n == 0 {
            None
        } else {
            Some(flood_r.path_trace[n - 1].0)
        }
    }
}

/// Whether the vector of ids holds the given id.
pub(crate) fn contains_id(v: &Vec<NodeId>, x: NodeId) -> (r: bool)
    ensures
        r == v@.contains(x),
{
    let mut i: usize = 0;
    while i < v.len()
        invariant
            0 <= i <= v@.len(),
            forall|j: int| 0 <= j < i ==> v@[j] != x,
        decreases v@.len() - i,
    {
        if v[i] == x {
            return true;
        }
        i += 1;
    }
    false
}

/// Propagation fan-out law: a node whose duplicate-free neighbor table
/// holds the sender sends exactly one broadcast copy per other neighbor.
pub proof fn lemma_propagation_fan_out(neis: Seq<NodeId>, sender_id: NodeId, p: PacketV)
    requires
        neis.no_duplicates(),
        neis.contains(sender_id),
    ensures
        fanout_transmissions(neis, sender_id, p).len() == neis.len() - 1,
        fanout_reports(neis, sender_id, p).len() == neis.len() - 1,
    decreases neis.len(),
{
    if neis.last() == sender_id {
        assert(!neis.drop_last().contains(sender_id)) by {
            if neis.drop_last().contains(sender_id) {
                let j = choose|j: int| 0 <= j < neis.len() - 1 && neis[j] == sender_id;
                assert(neis[j] == neis[neis.len() - 1]);
            }
        }
        lemma_fan_out_to_strangers(neis.drop_last(), sender_id, p);
    } else {
        assert(neis.drop_last().contains(sender_id)) by {
            let j = choose|j: int| 0 <= j < neis.len() && neis[j] == sender_id;
            assert(neis.drop_last()[j] == sender_id);
        }
        lemma_propagation_fan_out(neis.drop_last(), sender_id, p);
    }
}

/// A sender that is not in the neighbor table excludes nobody: one copy
/// goes to every neighbor.
pub proof fn lemma_fan_out_to_strangers(neis: Seq<NodeId>, sender_id: NodeId, p: PacketV)
    requires
        !neis.contains(sender_id),
    ensures
        fanout_transmissions(neis, sender_id, p).len() == neis.len(),
        fanout_reports(neis, sender_id, p).len() == neis.len(),
    decreases neis.len(),
{
    if neis.len() > 0 {
        assert(!neis.drop_last().contains(sender_id)) by {
            if neis.drop_last().contains(sender_id) {
                let j = choose|j: int| 0 <= j < neis.len() - 1 && neis[j] == sender_id;
                assert(neis[j] == sender_id);
            }
        }
        assert(neis.last() != sender_id) by {
            assert(neis[neis.len() - 1] == neis.last());
        }
        lemma_fan_out_to_strangers(neis.drop_last(), sender_id, p);
    }
}

/// Leaf termination law: a node with at most one neighbor terminates a
/// flood on arrival, whatever its history holds.
pub proof fn lemma_leaf_terminates<F: Flooder>(node: &F, f: FloodRequestV)
    requires
        node.neighbour_ids().len() <= 1,
    ensures
        !propagates(node, f),
{
}

/// Duplicate suppression law: a flood identifier already recorded causes
/// termination on every arrival, however many neighbors the node has.
pub proof fn lemma_duplicate_suppressed<F: Flooder>(node: &F, f: FloodRequestV)
    requires
        node.seen().contains(f.flood_key()),
    ensures
        !propagates(node, f),
{
}

/// Trace growth law: whichever branch the handler takes, the path trace
/// grows by exactly one entry — the handling node itself.
pub proof fn lemma_trace_growth(f: FloodRequestV, node_id: NodeId, node_type: NodeType)
    ensures
        f.extended(node_id, node_type).path_trace.len() == f.path_trace.len() + 1,
        f.extended(node_id, node_type).path_trace.last() == (node_id, node_type),
{
}

} // verus!
