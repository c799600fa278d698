/*!
    The wire-level values the flood algorithm reads and builds: a hop-by-hop
    source route, a flood request carrying its path trace, and the flood
    response that retraces that path. The surrounding network model owns the
    full packet vocabulary; this module keeps only the parts the flood
    handler touches, as plain data with a mathematical view.
*/

use vstd::prelude::*;

verus! {

/// Identifier of a node in the network.
pub type NodeId = u8;

/// A flood instance is identified network-wide by (initiator id, flood number).
pub type FloodId = (NodeId, u64);

/// Kind tag a node writes beside its id in the path trace.
#[derive(Clone, Copy, Debug, PartialEq, Eq)]
pub enum NodeType {
    Client,
    Drone,
    Server,
}

/// Mathematical view of a `SourceRoutingHeader`.
pub struct SourceRoutingHeaderV {
    pub hop_index: int,
    pub hops: Seq<NodeId>,
}

/// An ordered hop list plus the index of the hop currently holding the
/// packet; advancing the index selects the next hop of a routed response.
#[derive(Debug, PartialEq, Eq)]
pub struct SourceRoutingHeader {
    pub hop_index: usize,
    pub hops: Vec<NodeId>,
}

impl View for SourceRoutingHeader {
    type V = SourceRoutingHeaderV;

    open spec fn view(&self) -> SourceRoutingHeaderV {
        SourceRoutingHeaderV { hop_index: self.hop_index as int, hops: self.hops@ }
    }
}

impl Clone for SourceRoutingHeader {
    /// Cloning keeps the route.
    fn clone(&self) -> (r: Self)
        ensures
            r@ == self@,
    {
        SourceRoutingHeader { hop_index: self.hop_index, hops: copy_id_vec(&self.hops) }
    }
}

impl SourceRoutingHeader {
    /// Moves the current-hop index one position forward.
    pub fn increase_hop_index(&mut self)
        requires
            old(self).hop_index < usize::MAX,
        ensures
            final(self)@.hop_index == old(self)@.hop_index + 1,
            final(self)@.hops == old(self)@.hops,
    {
        self.hop_index += 1;
    }

    /// The hop the index points at, if the index is inside the route.
    pub fn current_hop(&self) -> (r: Option<NodeId>)
        ensures
            r == (if self@.hop_index < self@.hops.len() {
                Some(self@.hops[self@.hop_index])
            } else {
                None::<NodeId>
            }),
    {
        if self.hop_index < self.hops.len() {
            Some(self.hops[self.hop_index])
        } else {
            None
        }
    }
}

/// Mathematical view of a `FloodRequest`.
pub struct FloodRequestV {
    pub flood_id: u64,
    pub initiator_id: NodeId,
    pub path_trace: Seq<(NodeId, NodeType)>,
}

impl FloodRequestV {
    /// The dedup key of this flood.
    pub open spec fn flood_key(self) -> FloodId {
        (self.initiator_id, self.flood_id)
    }

    /// The node immediately upstream: the last entry of the path trace, or
    /// the initiator while the trace is still empty.
    pub open spec fn sender_id(self) -> NodeId {
        if self.path_trace.len() == 0 {
            self.initiator_id
        } else {
            self.path_trace.last().0
        }
    }

    /// This flood as it looks after one more node appended itself.
    pub open spec fn extended(self, node_id: NodeId, node_type: NodeType) -> FloodRequestV {
        FloodRequestV { path_trace: self.path_trace.push((node_id, node_type)), ..self }
    }
}

/// A flood message: who started the flood, its number, and the ordered
/// record of every node it has passed through.
#[derive(Debug, PartialEq, Eq)]
pub struct FloodRequest {
    pub flood_id: u64,
    pub initiator_id: NodeId,
    pub path_trace: Vec<(NodeId, NodeType)>,
}

impl View for FloodRequest {
    type V = FloodRequestV;

    open spec fn view(&self) -> FloodRequestV {
        FloodRequestV {
            flood_id: self.flood_id,
            initiator_id: self.initiator_id,
            path_trace: self.path_trace@,
        }
    }
}

impl Clone for FloodRequest {
    /// Cloning keeps the identifier and the trace.
    fn clone(&self) -> (r: Self)
        ensures
            r@ == self@,
    {
        FloodRequest {
            flood_id: self.flood_id,
            initiator_id: self.initiator_id,
            path_trace: copy_trace_vec(&self.path_trace),
        }
    }
}

/// Mathematical view of a `FloodResponse`.
pub struct FloodResponseV {
    pub flood_id: u64,
    pub path_trace: Seq<(NodeId, NodeType)>,
}

/// The answer a terminating node sends back: the flood number and the
/// completed path trace the initiator will read.
#[derive(Debug, PartialEq, Eq)]
pub struct FloodResponse {
    pub flood_id: u64,
    pub path_trace: Vec<(NodeId, NodeType)>,
}

impl View for FloodResponse {
    type V = FloodResponseV;

    open spec fn view(&self) -> FloodResponseV {
        FloodResponseV { flood_id: self.flood_id, path_trace: self.path_trace@ }
    }
}

impl Clone for FloodResponse {
    /// Cloning keeps the flood number and the trace.
    fn clone(&self) -> (r: Self)
        ensures
            r@ == self@,
    {
        FloodResponse { flood_id: self.flood_id, path_trace: copy_trace_vec(&self.path_trace) }
    }
}

/// Mathematical view of a `PacketType`.
pub enum PacketTypeV {
    FloodRequest(FloodRequestV),
    FloodResponse(FloodResponseV),
}

/// The two packet payloads the flood handler transmits.
#[derive(Debug, PartialEq, Eq)]
pub enum PacketType {
    FloodRequest(FloodRequest),
    FloodResponse(FloodResponse),
}

impl View for PacketType {
    type V = PacketTypeV;

    open spec fn view(&self) -> PacketTypeV {
        match self {
            PacketType::FloodRequest(f) => PacketTypeV::FloodRequest(f@),
            PacketType::FloodResponse(f) => PacketTypeV::FloodResponse(f@),
        }
    }
}

impl Clone for PacketType {
    /// Cloning keeps the payload.
    fn clone(&self) -> (r: Self)
        ensures
            r@ == self@,
    {
        match self {
            PacketType::FloodRequest(f) => PacketType::FloodRequest(f.clone()),
            PacketType::FloodResponse(f) => PacketType::FloodResponse(f.clone()),
        }
    }
}

/// Mathematical view of a `Packet`.
pub struct PacketV {
    pub routing_header: SourceRoutingHeaderV,
    pub session_id: u64,
    pub pack_type: PacketTypeV,
}

/// One transmission unit: a routed payload under a session number.
#[derive(Debug, PartialEq, Eq)]
pub struct Packet {
    pub routing_header: SourceRoutingHeader,
    pub session_id: u64,
    pub pack_type: PacketType,
}

impl View for Packet {
    type V = PacketV;

    open spec fn view(&self) -> PacketV {
        PacketV {
            routing_header: self.routing_header@,
            session_id: self.session_id,
            pack_type: self.pack_type@,
        }
    }
}

impl Clone for Packet {
    /// Cloning keeps the route, the session number and the payload.
    fn clone(&self) -> (r: Self)
        ensures
            r@ == self@,
    {
        Packet {
            routing_header: self.routing_header.clone(),
            session_id: self.session_id,
            pack_type: self.pack_type.clone(),
        }
    }
}

impl Packet {
    /// Wraps a flood request to be broadcast to one neighbor.
    pub fn new_flood_request(
        routing_header: SourceRoutingHeader,
        session_id: u64,
        flood_r: FloodRequest,
    ) -> (r: Packet)
        ensures
            r@ == (PacketV {
                routing_header: routing_header@,
                session_id,
                pack_type: PacketTypeV::FloodRequest(flood_r@),
            }),
    {
        Packet { routing_header, session_id, pack_type: PacketType::FloodRequest(flood_r) }
    }
}

/// The ids of a path trace in reverse visitation order: the route a response
/// follows home.
pub open spec fn reverse_trace_ids(trace: Seq<(NodeId, NodeType)>) -> Seq<NodeId> {
    trace.reverse().map_values(|e: (NodeId, NodeType)| e.0)
}

impl FloodRequest {
    /// Appends a visited node to the path trace.
    pub fn increment(&mut self, node_id: NodeId, node_type: NodeType)
        ensures
            final(self)@ == old(self)@.extended(node_id, node_type),
    {
        self.path_trace.push((node_id, node_type));
    }

    /// Builds the response packet that will retrace the (reversed) path
    /// back to the initiator; its current-hop index starts at the
    /// terminating node itself.
    pub fn generate_response(&self, session_id: u64) -> (r: Packet)
        ensures
            r@ == (PacketV {
                routing_header: SourceRoutingHeaderV {
                    hop_index: 0,
                    hops: reverse_trace_ids(self@.path_trace),
                },
                session_id,
                pack_type: PacketTypeV::FloodResponse(
                    FloodResponseV { flood_id: self@.flood_id, path_trace: self@.path_trace },
                ),
            }),
    {
        let n = self.path_trace.len();
        let mut hops: Vec<NodeId> = Vec::new();
        let mut i: usize = 0;
        while i < n
            invariant
                n == self@.path_trace.len(),
                0 <= i <= n,
                hops@ == reverse_trace_ids(self@.path_trace).subrange(0, i as int),
            decreases n - i,
        {
            hops.push(self.path_trace[n - 1 - i].0);
            proof {
                assert(hops@ =~= reverse_trace_ids(self@.path_trace).subrange(0, i + 1 as int));
            }
            i += 1;
        }
        proof {
            assert(hops@ =~= reverse_trace_ids(self@.path_trace));
        }
        Packet {
            routing_header: SourceRoutingHeader { hop_index: 0, hops },
            session_id,
            pack_type: PacketType::FloodResponse(
                FloodResponse { flood_id: self.flood_id, path_trace: copy_trace_vec(&self.path_trace) },
            ),
        }
    }
}

/// Copies a vector of node ids, element by element.
pub fn copy_id_vec(v: &Vec<NodeId>) -> (r: Vec<NodeId>)
    ensures
        r@ == v@,
{
    let mut r: Vec<NodeId> = Vec::new();
    let mut i: usize = 0;
    while i < v.len()
        invariant
            0 <= i <= v@.len(),
            r@ == v@.subrange(0, i as int),
        decreases v@.len() - i,
    {
        r.push(v[i]);
        proof {
            assert(r@ =~= v@.subrange(0, i + 1 as int));
        }
        i += 1;
    }
    proof {
        assert(r@ =~= v@);
    }
    r
}

/// Copies a path trace, element by element.
pub fn copy_trace_vec(v: &Vec<(NodeId, NodeType)>) -> (r: Vec<(NodeId, NodeType)>)
    ensures
        r@ == v@,
{
    let mut r: Vec<(NodeId, NodeType)> = Vec::new();
    let mut i: usize = 0;
    while i < v.len()
        invariant
            0 <= i <= v@.len(),
            r@ == v@.subrange(0, i as int),
        decreases v@.len() - i,
    {
        r.push(v[i]);
        proof {
            assert(r@ =~= v@.subrange(0, i + 1 as int));
        }
        i += 1;
    }
    proof {
        assert(r@ =~= v@);
    }
    r
}

} // verus!
