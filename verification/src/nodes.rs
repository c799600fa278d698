/*!
    Concrete nodes implementing the `Flooder` capability contract. A
    `LocalNode` keeps every transmission in vectors of its own, so its
    behavior can be inspected directly; a `ChannelNode` hands packets to
    its neighbors over real channels. Both back their flood history with
    the ring buffer.
*/

use vstd::prelude::*;
use vstd::std_specs::cmp::PartialEqSpec;

use crate::flooder::Flooder;
use crate::packet::{copy_id_vec, FloodId, NodeId, NodeType, Packet, PacketV};
use crate::ring_buffer::{insert_model, RingBuffer};

verus! {

#[verifier::external_type_specification]
#[verifier::external_body]
#[verifier::reject_recursive_types(T)]
/// Declares crossbeam_channel's sending half so nodes can hold and pass
/// such channels; the library never looks inside one.
pub struct ExSender<T>(crossbeam_channel::Sender<T>);

/// Relies on crossbeam_channel's `impl Clone for Sender`: the result is
/// another sending handle to the same channel. Nothing more is claimed of
/// it; channels stay opaque to the library.
pub assume_specification<T>[ <crossbeam_channel::Sender<T> as Clone>::clone ](
    s: &crossbeam_channel::Sender<T>,
) -> crossbeam_channel::Sender<T>;

/// Relies on crossbeam_channel::Sender::send: the packet is handed to the
/// channel's queue, to be taken by the receiving node (and is dropped if
/// every receiver has disconnected). Delivery is fire-and-forget here, as
/// the algorithm never reads an acknowledgement.
#[verifier::external_body]
fn channel_send(c: &crossbeam_channel::Sender<Packet>, p: Packet) {
    let _ = c.send(p);
}

/// The recorded identifiers of a history buffer, as a set.
pub open spec fn history_set(s: Seq<FloodId>) -> Set<FloodId> {
    s.to_set()
}

/// The ids of a neighbor table given as (id, channel) pairs, in table
/// order.
pub open spec fn table_ids(pairs: Seq<(NodeId, crossbeam_channel::Sender<Packet>)>) -> Seq<NodeId> {
    Seq::new(pairs.len(), |i: int| pairs[i].0)
}

/// Tuple equality on flood identifiers is exactly what `==` computes, so
/// a ring-buffer membership answer speaks of the entries themselves.
proof fn lemma_flood_id_obeys_eq()
    ensures
        <FloodId as PartialEqSpec>::obeys_eq_spec(),
        forall|a: FloodId, b: FloodId| #[trigger] a.eq_spec(&b) <==> a == b,
{
}

/// A membership answer of `RingBuffer::contains`, phrased over `eq_spec`,
/// is a membership answer for the history set.
proof fn lemma_history_contains(h: Seq<FloodId>, flood_id: FloodId, r: bool)
    requires
        r == exists|i: int| 0 <= i < h.len() && h[i].eq_spec(&flood_id),
    ensures
        r == history_set(h).contains(flood_id),
{
    lemma_flood_id_obeys_eq();
    if r {
        let i = choose|i: int| 0 <= i < h.len() && h[i].eq_spec(&flood_id);
        assert(h[i] == flood_id);
        assert(h.contains(flood_id));
    } else if h.contains(flood_id) {
        let i = choose|i: int| 0 <= i < h.len() && h[i] == flood_id;
        assert(h[i].eq_spec(&flood_id));
    }
}

/// One bounded insert keeps the identifier whenever the history has room
/// for anything, and adds nothing else to the history set.
proof fn lemma_history_insert(pre: Seq<FloodId>, cap: nat, flood_id: FloodId)
    ensures
        cap >= 1 ==> history_set(insert_model(pre, cap, flood_id)).contains(flood_id),
        history_set(insert_model(pre, cap, flood_id)).subset_of(
            history_set(pre).insert(flood_id),
        ),
{
    let post = insert_model(pre, cap, flood_id);
    if cap >= 1 {
        assert(post[post.len() - 1] == flood_id);
        assert(post.contains(flood_id));
    }
    assert forall|x: FloodId| post.to_set().contains(x) implies history_set(pre).insert(
        flood_id,
    ).contains(x) by {
        let i = choose|i: int| 0 <= i < post.len() && post[i] == x;
        if cap == 0 {
            assert(post[i] == pre[i]);
            assert(pre.contains(x));
        } else if i < post.len() - 1 {
            if pre.len() == cap {
                assert(post[i] == pre[i + 1]);
                assert(pre.contains(x));
            } else {
                assert(post[i] == pre[i]);
                assert(pre.contains(x));
            }
        }
    }
}

/// A node that records its outbound traffic in vectors: the reference
/// implementation of the `Flooder` contract, and the one tests observe.
pub struct LocalNode {
    id: NodeId,
    node_type: NodeType,
    neighbours: Vec<NodeId>,
    history: RingBuffer<FloodId>,
    sent: Vec<(NodeId, Packet)>,
    reports: Vec<Packet>,
}

impl LocalNode {
    /// Creates a node with no traffic recorded and an empty history of the
    /// given capacity. A capacity of zero gives a history that can hold
    /// nothing, so such a node never remembers a flood.
    pub fn new(
        id: NodeId,
        node_type: NodeType,
        neighbours: Vec<NodeId>,
        history_capacity: usize,
    ) -> (r: Self)
        ensures
            r.node_id() == id,
            r.node_type_spec() == node_type,
            r.neighbour_ids() == neighbours@,
            r.can_record() == (history_capacity >= 1),
            r.seen() == Set::<FloodId>::empty(),
            r.transmissions() == Seq::<(NodeId, PacketV)>::empty(),
            r.reported() == Seq::<PacketV>::empty(),
    {
        let r = LocalNode {
            id,
            node_type,
            neighbours,
            history: RingBuffer::with_capacity(history_capacity),
            sent: Vec::new(),
            reports: Vec::new(),
        };
        proof {
            assert(r.seen() =~= Set::<FloodId>::empty());
            assert(r.transmissions() =~= Seq::<(NodeId, PacketV)>::empty());
            assert(r.reported() =~= Seq::<PacketV>::empty());
        }
        r
    }

    /// The packets handed to neighbors so far, oldest first, each beside
    /// its destination.
    pub fn sent_packets(&self) -> (r: &Vec<(NodeId, Packet)>)
        ensures
            self.transmissions() == (Seq::new(r@.len(), |i: int| (r@[i].0, r@[i].1@))),
    {
        &self.sent
    }

    /// The packets reported to the monitoring record so far, oldest first.
    pub fn reported_packets(&self) -> (r: &Vec<Packet>)
        ensures
            self.reported() == (Seq::new(r@.len(), |i: int| r@[i]@)),
    {
        &self.reports
    }
}

impl Flooder for LocalNode {
    closed spec fn node_id(&self) -> NodeId {
        self.id
    }

    closed spec fn node_type_spec(&self) -> NodeType {
        self.node_type
    }

    closed spec fn neighbour_ids(&self) -> Seq<NodeId> {
        self.neighbours@
    }

    closed spec fn seen(&self) -> Set<FloodId> {
        history_set(self.history@)
    }

    closed spec fn can_record(&self) -> bool {
        self.history.capacity() >= 1
    }

    closed spec fn transmissions(&self) -> Seq<(NodeId, PacketV)> {
        Seq::new(self.sent@.len(), |i: int| (self.sent@[i].0, self.sent@[i].1@))
    }

    closed spec fn reported(&self) -> Seq<PacketV> {
        Seq::new(self.reports@.len(), |i: int| self.reports@[i]@)
    }

    fn get_id(&self) -> (r: NodeId) {
        self.id
    }

    fn get_node_type(&self) -> (r: NodeType) {
        self.node_type
    }

    fn get_neighbours(&self) -> (r: Vec<NodeId>) {
        copy_id_vec(&self.neighbours)
    }

    fn has_seen_flood(&self, flood_id: FloodId) -> (r: bool) {
        proof {
            lemma_flood_id_obeys_eq();
        }
        let r = self.history.contains(&flood_id);
        proof {
            lemma_history_contains(self.history@, flood_id, r);
        }
        r
    }

    fn insert_flood(&mut self, flood_id: FloodId) {
        let ghost pre = self.history@;
        let ghost cap = self.history.capacity();
        let _ = self.history.insert(flood_id);
        proof {
            lemma_history_insert(pre, cap, flood_id);
        }
    }

    fn forward_packet(&mut self, dest: NodeId, p: Packet) {
        let ghost pv = p@;
        self.sent.push((dest, p));
        proof {
            assert(self.transmissions() =~= old(self).transmissions().push((dest, pv)));
        }
    }

    fn send_to_controller(&mut self, p: Packet) {
        let ghost pv = p@;
        self.reports.push(p);
        proof {
            assert(self.reported() =~= old(self).reported().push(pv));
        }
    }
}

/// A node whose neighbor table maps ids to real outbound channels; what
/// it transmits leaves through those channels, and a matching ghost log
/// keeps the record its contract speaks of.
pub struct ChannelNode {
    id: NodeId,
    node_type: NodeType,
    packet_send: Vec<(NodeId, crossbeam_channel::Sender<Packet>)>,
    controller: crossbeam_channel::Sender<Packet>,
    history: RingBuffer<FloodId>,
    sent_log: Ghost<Seq<(NodeId, PacketV)>>,
    report_log: Ghost<Seq<PacketV>>,
}

impl ChannelNode {
    /// Creates a node talking to the given neighbors, reporting to the
    /// given controller channel, with an empty history of the given
    /// capacity. A capacity of zero gives a history that can hold nothing,
    /// so such a node never remembers a flood.
    pub fn new(
        id: NodeId,
        node_type: NodeType,
        packet_send: Vec<(NodeId, crossbeam_channel::Sender<Packet>)>,
        controller: crossbeam_channel::Sender<Packet>,
        history_capacity: usize,
    ) -> (r: Self)
        ensures
            r.node_id() == id,
            r.node_type_spec() == node_type,
            r.neighbour_ids() == table_ids(packet_send@),
            r.can_record() == (history_capacity >= 1),
            r.seen() == Set::<FloodId>::empty(),
            r.transmissions() == Seq::<(NodeId, PacketV)>::empty(),
            r.reported() == Seq::<PacketV>::empty(),
    {
        let r = ChannelNode {
            id,
            node_type,
            packet_send,
            controller,
            history: RingBuffer::with_capacity(history_capacity),
            sent_log: Ghost(Seq::empty()),
            report_log: Ghost(Seq::empty()),
        };
        proof {
            assert(r.seen() =~= Set::<FloodId>::empty());
        }
        r
    }
}

impl Flooder for ChannelNode {
    closed spec fn node_id(&self) -> NodeId {
        self.id
    }

    closed spec fn node_type_spec(&self) -> NodeType {
        self.node_type
    }

    closed spec fn neighbour_ids(&self) -> Seq<NodeId> {
        table_ids(self.packet_send@)
    }

    closed spec fn seen(&self) -> Set<FloodId> {
        history_set(self.history@)
    }

    closed spec fn can_record(&self) -> bool {
        self.history.capacity() >= 1
    }

    closed spec fn transmissions(&self) -> Seq<(NodeId, PacketV)> {
        self.sent_log@
    }

    closed spec fn reported(&self) -> Seq<PacketV> {
        self.report_log@
    }

    fn get_id(&self) -> (r: NodeId) {
        self.id
    }

    fn get_node_type(&self) -> (r: NodeType) {
        self.node_type
    }

    fn get_neighbours(&self) -> (r: Vec<NodeId>) {
        let n = self.packet_send.len();
        let mut r: Vec<NodeId> = Vec::new();
        let mut i: usize = 0;
        while i < n
            invariant
                0 <= i <= n,
                n == self.packet_send@.len(),
                r@ == table_ids(self.packet_send@).subrange(0, i as int),
            decreases n - i,
        {
            r.push(self.packet_send[i].0);
            proof {
                assert(r@ =~= table_ids(self.packet_send@).subrange(0, i + 1 as int));
            }
            i += 1;
        }
        proof {
            assert(r@ =~= table_ids(self.packet_send@));
        }
        r
    }

    fn has_seen_flood(&self, flood_id: FloodId) -> (r: bool) {
        proof {
            lemma_flood_id_obeys_eq();
        }
        let r = self.history.contains(&flood_id);
        proof {
            lemma_history_contains(self.history@, flood_id, r);
        }
        r
    }

    fn insert_flood(&mut self, flood_id: FloodId) {
        let ghost pre = self.history@;
        let ghost cap = self.history.capacity();
        let _ = self.history.insert(flood_id);
        proof {
            lemma_history_insert(pre, cap, flood_id);
        }
    }

    fn forward_packet(&mut self, dest: NodeId, p: Packet) {
        self.sent_log = Ghost(self.sent_log@.push((dest, p@)));
        let n = self.packet_send.len();
        let mut i: usize = 0;
        while i < n
            invariant
                0 <= i <= n,
                n == self.packet_send@.len(),
                *self == (ChannelNode { sent_log: self.sent_log, ..*old(self) }),
                self.sent_log@ == old(self).sent_log@.push((dest, p@)),
                forall|j: int| 0 <= j < i ==> table_ids(self.packet_send@)[j] != dest,
            decreases n - i,
        {
            if self.packet_send[i].0 == dest {
                channel_send(&self.packet_send[i].1, p);
                return ;
            }
            i += 1;
        }
        proof {
            assert(!table_ids(self.packet_send@).contains(dest));
            assert(false);
        }
    }

    fn send_to_controller(&mut self, p: Packet) {
        let ghost pv = p@;
        channel_send(&self.controller, p);
        self.report_log = Ghost(self.report_log@.push(pv));
    }
}

} // verus!

