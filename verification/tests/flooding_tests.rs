use floodnet::flooder::Flooder;
use floodnet::nodes::LocalNode;
use floodnet::packet::{FloodRequest, NodeType, PacketType, SourceRoutingHeader};

fn empty_header() -> SourceRoutingHeader {
    SourceRoutingHeader { hop_index: 0, hops: Vec::new() }
}

// A node with two neighbors receiving a never-seen flood re-broadcasts it
// to everyone but the sender, records the id once, and extends the trace.
#[test]
fn fan_out_excludes_the_sender() {
    let mut node = LocalNode::new(2, NodeType::Drone, vec![1, 3], 64);
    let mut flood = FloodRequest {
        flood_id: 7,
        initiator_id: 1,
        path_trace: vec![(1, NodeType::Client)],
    };

    let r = node.handle_flood_request(&empty_header(), 5, &mut flood);
    assert!(r.is_ok());
    assert_eq!(flood.path_trace, vec![(1, NodeType::Client), (2, NodeType::Drone)]);

    let sent = node.sent_packets();
    assert_eq!(sent.len(), 1);
    assert_eq!(sent[0].0, 3);
    assert_eq!(sent[0].1.session_id, 5);
    match &sent[0].1.pack_type {
        PacketType::FloodRequest(f) => {
            assert_eq!(f.flood_id, 7);
            assert_eq!(f.initiator_id, 1);
            assert_eq!(f.path_trace, vec![(1, NodeType::Client), (2, NodeType::Drone)]);
        }
        PacketType::FloodResponse(_) => panic!("expected a broadcast copy"),
    }
    assert_eq!(node.reported_packets().len(), 1);
}

// With three neighbors and the sender among them, exactly two copies go
// out.
#[test]
fn fan_out_reaches_every_other_neighbour() {
    let mut node = LocalNode::new(2, NodeType::Drone, vec![1, 3, 4], 64);
    let mut flood = FloodRequest {
        flood_id: 1,
        initiator_id: 1,
        path_trace: vec![(1, NodeType::Client)],
    };

    let r = node.handle_flood_request(&empty_header(), 9, &mut flood);
    assert!(r.is_ok());
    let sent = node.sent_packets();
    assert_eq!(sent.len(), 2);
    assert_eq!(sent[0].0, 3);
    assert_eq!(sent[1].0, 4);
    assert_eq!(node.reported_packets().len(), 2);
}

// An empty path trace means the sender is the initiator itself.
#[test]
fn empty_trace_takes_initiator_as_sender() {
    let mut node = LocalNode::new(2, NodeType::Drone, vec![1, 3], 64);
    let mut flood = FloodRequest { flood_id: 4, initiator_id: 1, path_trace: Vec::new() };

    let r = node.handle_flood_request(&empty_header(), 11, &mut flood);
    assert!(r.is_ok());
    assert_eq!(flood.path_trace, vec![(2, NodeType::Drone)]);
    let sent = node.sent_packets();
    assert_eq!(sent.len(), 1);
    assert_eq!(sent[0].0, 3);
}

// A node with exactly one neighbor terminates on first arrival and routes
// the response back to the node before it on the trace.
#[test]
fn leaf_terminates_on_first_arrival() {
    let mut node = LocalNode::new(4, NodeType::Server, vec![3], 64);
    let mut flood = FloodRequest {
        flood_id: 9,
        initiator_id: 1,
        path_trace: vec![(1, NodeType::Client), (2, NodeType::Drone), (3, NodeType::Drone)],
    };

    let r = node.handle_flood_request(&empty_header(), 21, &mut flood);
    assert!(r.is_ok());
    assert_eq!(flood.path_trace.len(), 4);

    let sent = node.sent_packets();
    assert_eq!(sent.len(), 1);
    assert_eq!(sent[0].0, 3);
    let response = &sent[0].1;
    assert_eq!(response.session_id, 21);
    assert_eq!(response.routing_header.hops, vec![4, 3, 2, 1]);
    assert_eq!(response.routing_header.hop_index, 1);
    match &response.pack_type {
        PacketType::FloodResponse(f) => {
            assert_eq!(f.flood_id, 9);
            assert_eq!(
                f.path_trace,
                vec![
                    (1, NodeType::Client),
                    (2, NodeType::Drone),
                    (3, NodeType::Drone),
                    (4, NodeType::Server),
                ]
            );
        }
        PacketType::FloodRequest(_) => panic!("expected a response"),
    }
    assert_eq!(node.reported_packets().len(), 1);
}

// A flood id already recorded is terminated on every later arrival: no
// re-broadcast, one routed response.
#[test]
fn duplicate_arrival_is_suppressed() {
    let mut node = LocalNode::new(2, NodeType::Drone, vec![1, 3, 4], 64);

    let mut first = FloodRequest {
        flood_id: 7,
        initiator_id: 1,
        path_trace: vec![(1, NodeType::Client)],
    };
    assert!(node.handle_flood_request(&empty_header(), 5, &mut first).is_ok());
    assert_eq!(node.sent_packets().len(), 2);

    // The same flood reaches node 2 again over a cycle.
    let mut second = FloodRequest {
        flood_id: 7,
        initiator_id: 1,
        path_trace: vec![(1, NodeType::Client), (3, NodeType::Drone)],
    };
    assert!(node.handle_flood_request(&empty_header(), 6, &mut second).is_ok());

    let sent = node.sent_packets();
    assert_eq!(sent.len(), 3);
    assert_eq!(sent[2].0, 3);
    match &sent[2].1.pack_type {
        PacketType::FloodResponse(f) => assert_eq!(f.flood_id, 7),
        PacketType::FloodRequest(_) => panic!("a duplicate must not be re-broadcast"),
    }
}

// The path trace grows by exactly one entry on either branch.
#[test]
fn trace_grows_by_one_on_both_branches() {
    let mut node = LocalNode::new(2, NodeType::Drone, vec![1, 3], 64);

    let mut propagated = FloodRequest {
        flood_id: 3,
        initiator_id: 1,
        path_trace: vec![(1, NodeType::Client)],
    };
    let before = propagated.path_trace.len();
    assert!(node.handle_flood_request(&empty_header(), 1, &mut propagated).is_ok());
    assert_eq!(propagated.path_trace.len(), before + 1);

    let mut leaf = LocalNode::new(5, NodeType::Server, vec![1], 64);
    let mut terminated = FloodRequest {
        flood_id: 3,
        initiator_id: 1,
        path_trace: vec![(1, NodeType::Client)],
    };
    let before = terminated.path_trace.len();
    assert!(leaf.handle_flood_request(&empty_header(), 1, &mut terminated).is_ok());
    assert_eq!(terminated.path_trace.len(), before + 1);
}

// A response whose next hop is not a neighbor fails with no packet sent
// and no report made.
#[test]
fn unreachable_next_hop_sends_nothing() {
    let mut node = LocalNode::new(5, NodeType::Server, vec![8], 64);
    let mut flood = FloodRequest {
        flood_id: 2,
        initiator_id: 1,
        path_trace: vec![(1, NodeType::Client), (3, NodeType::Drone)],
    };

    // One neighbor, so the node terminates; the route home points at node
    // 3, which is not in the table.
    let r = node.handle_flood_request(&empty_header(), 8, &mut flood);
    assert!(r.is_err());
    assert_eq!(node.sent_packets().len(), 0);
    assert_eq!(node.reported_packets().len(), 0);
    // The trace was still extended.
    assert_eq!(flood.path_trace.len(), 3);
}

// A node whose history has capacity zero can remember nothing, so the
// same flood is re-broadcast on every arrival instead of suppressed.
#[test]
fn zero_capacity_history_never_suppresses() {
    let mut node = LocalNode::new(2, NodeType::Drone, vec![1, 3], 0);

    let mut first = FloodRequest {
        flood_id: 7,
        initiator_id: 1,
        path_trace: vec![(1, NodeType::Client)],
    };
    assert!(node.handle_flood_request(&empty_header(), 5, &mut first).is_ok());
    assert_eq!(node.sent_packets().len(), 1);

    let mut again = FloodRequest {
        flood_id: 7,
        initiator_id: 1,
        path_trace: vec![(1, NodeType::Client)],
    };
    assert!(node.handle_flood_request(&empty_header(), 6, &mut again).is_ok());
    let sent = node.sent_packets();
    assert_eq!(sent.len(), 2);
    match &sent[1].1.pack_type {
        PacketType::FloodRequest(_) => {}
        PacketType::FloodResponse(_) => panic!("nothing was recorded, so no suppression"),
    }
}
