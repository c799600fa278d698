use crossbeam_channel::unbounded;
use floodnet::flooder::Flooder;
use floodnet::nodes::ChannelNode;
use floodnet::packet::{FloodRequest, NodeType, Packet, PacketType, SourceRoutingHeader};

// A channel-backed node really delivers the broadcast on the right
// neighbor's channel and a copy to the controller.
#[test]
fn broadcast_arrives_on_the_neighbour_channel() {
    let (tx1, rx1) = unbounded::<Packet>();
    let (tx3, rx3) = unbounded::<Packet>();
    let (txc, rxc) = unbounded::<Packet>();

    let mut node = ChannelNode::new(2, NodeType::Drone, vec![(1, tx1), (3, tx3)], txc, 64);
    let header = SourceRoutingHeader { hop_index: 0, hops: Vec::new() };
    let mut flood = FloodRequest {
        flood_id: 7,
        initiator_id: 1,
        path_trace: vec![(1, NodeType::Client)],
    };

    assert!(node.handle_flood_request(&header, 5, &mut flood).is_ok());

    // Nothing goes back to the sender.
    assert!(rx1.try_recv().is_err());

    let forwarded = rx3.try_recv().expect("node 3 must receive the broadcast");
    assert_eq!(forwarded.session_id, 5);
    match forwarded.pack_type {
        PacketType::FloodRequest(f) => {
            assert_eq!(f.flood_id, 7);
            assert_eq!(f.path_trace, vec![(1, NodeType::Client), (2, NodeType::Drone)]);
        }
        PacketType::FloodResponse(_) => panic!("expected a broadcast copy"),
    }
    assert!(rx3.try_recv().is_err());

    let report = rxc.try_recv().expect("the controller must get a report");
    assert_eq!(report.session_id, 5);
    assert!(rxc.try_recv().is_err());
}

// A duplicate flood at a channel-backed node turns into a response on the
// channel of the hop before it.
#[test]
fn duplicate_answers_over_the_return_channel() {
    let (tx1, rx1) = unbounded::<Packet>();
    let (tx3, rx3) = unbounded::<Packet>();
    let (txc, _rxc) = unbounded::<Packet>();

    let mut node = ChannelNode::new(2, NodeType::Drone, vec![(1, tx1), (3, tx3)], txc, 64);
    let header = SourceRoutingHeader { hop_index: 0, hops: Vec::new() };

    let mut first = FloodRequest {
        flood_id: 7,
        initiator_id: 1,
        path_trace: vec![(1, NodeType::Client)],
    };
    assert!(node.handle_flood_request(&header, 5, &mut first).is_ok());
    rx3.try_recv().expect("first arrival is re-broadcast");

    let mut second = FloodRequest {
        flood_id: 7,
        initiator_id: 1,
        path_trace: vec![(1, NodeType::Client), (3, NodeType::Drone)],
    };
    assert!(node.handle_flood_request(&header, 6, &mut second).is_ok());

    let response = rx3.try_recv().expect("the response goes back to node 3");
    assert_eq!(response.routing_header.hops, vec![2, 3, 1]);
    assert_eq!(response.routing_header.hop_index, 1);
    match response.pack_type {
        PacketType::FloodResponse(f) => assert_eq!(f.flood_id, 7),
        PacketType::FloodRequest(_) => panic!("a duplicate must not be re-broadcast"),
    }
    assert!(rx1.try_recv().is_err());
}
