use nodesea::dht::{
    Bucket, BucketError, DhtError, DhtNode, Node, NodeID, RoutingTable, RoutingTableError,
    BUCKET_SIZE, NODE_ID_BYTES,
};

#[test]
fn test_add() {
    let mut bucket = Bucket::new();
    let node = Node::new(String::from("127.0.0.1"), 12400);
    let result = bucket.add(node);
    assert!(result.is_ok());
    assert_eq!(bucket.nodes().len(), 1);
}

#[test]
fn test_range_split_distributes_nodes_by_next_bit() {
    let mut bucket = Bucket::new();
    let mut zero_id = [0u8; NODE_ID_BYTES];
    zero_id[0] = 0x01;
    let mut one_id = [0u8; NODE_ID_BYTES];
    one_id[0] = 0x80;

    bucket
        .add(Node::from_id(NodeID::from_id(zero_id), "a".into(), 1))
        .unwrap();
    bucket
        .add(Node::from_id(NodeID::from_id(one_id), "b".into(), 2))
        .unwrap();

    let (zero, one) = bucket.split();

    assert!(zero.contains(&NodeID::from_id(zero_id)));
    assert!(!zero.contains(&NodeID::from_id(one_id)));
    assert!(one.contains(&NodeID::from_id(one_id)));
    assert!(!one.contains(&NodeID::from_id(zero_id)));
    assert_eq!(zero.nodes().len(), 1);
    assert_eq!(one.nodes().len(), 1);
}

#[test]
fn test_add_overflow() {
    let mut bucket = Bucket::new();
    for p in 0..BUCKET_SIZE {
        let mut id = [0u8; NODE_ID_BYTES];
        id[NODE_ID_BYTES - 1] = p as u8;
        let result = bucket.add(Node::from_id(
            NodeID::from_id(id),
            String::from("127.0.0.1"),
            p as u16,
        ));
        assert!(result.is_ok())
    }
    for p in BUCKET_SIZE..2 * BUCKET_SIZE {
        let mut id = [0u8; NODE_ID_BYTES];
        id[NODE_ID_BYTES - 1] = p as u8;
        let result = bucket.add(Node::from_id(
            NodeID::from_id(id),
            String::from("127.0.0.1"),
            p as u16,
        ));
        assert!(result.is_err())
    }
    assert_eq!(bucket.nodes().len(), BUCKET_SIZE);
}

#[test]
fn test_add_same_node_id_updates_endpoint() {
    let mut bucket = Bucket::new();
    let id = NodeID::from_id([0x80; NODE_ID_BYTES]);

    assert!(bucket
        .add(Node::from_id(id, "127.0.0.1".into(), 6881))
        .is_ok());
    assert!(bucket
        .add(Node::from_id(id, "127.0.0.2".into(), 6882))
        .is_ok());

    assert_eq!(bucket.nodes().len(), 1);
    let node = bucket.nodes().first().expect("updated node should exist");
    assert_eq!(node.id(), &id);
    assert_eq!(node.address(), "127.0.0.2");
    assert_eq!(node.port(), 6882);
}

#[test]
fn test_add_rejects_exact_duplicate() {
    let mut bucket = Bucket::new();
    let id = NodeID::from_id([0x80; NODE_ID_BYTES]);
    let node = Node::from_id(id, "127.0.0.1".into(), 6881);

    assert!(bucket.add(node.clone()).is_ok());
    assert_eq!(bucket.add(node), Err(BucketError::NodeAlreadyInBucket));
    assert_eq!(bucket.nodes().len(), 1);
}

#[test]
fn node_test_new() {
    let id = NodeID::new();
    assert_eq!(id.node_id().len(), 20);
}

#[test]
fn test_distance() {
    let id1 = NodeID::from_id([0; 20]);

    let mut data = [0u8; 20];
    data[19] = 1;

    let id2 = NodeID::from_id(data);

    assert_eq!(id1.get_distance(&id2), data);
}

#[test]
fn routingtable_test_new() {
    let local = NodeID::new();
    let rt = RoutingTable::new(local);
    assert_eq!(rt.buckets().len(), 1);
    assert!(rt.buckets()[0].contains(&local));
    assert!(rt.buckets()[0].nodes().is_empty());
}

#[test]
fn test_insert_self_returns_error() {
    let local = NodeID::from_id([0u8; NODE_ID_BYTES]);
    let mut table = RoutingTable::new(local);

    let result = table.insert(Node::from_id(local, "127.0.0.1".into(), 6881));

    assert_eq!(
        result,
        Err(DhtError::RoutingTable(RoutingTableError::NodeIsSelf))
    );
}

#[test]
fn test_insert_full_bucket_returns_error() {
    let local = NodeID::from_id([0u8; NODE_ID_BYTES]);
    let mut table = RoutingTable::new(local);

    for value in 0..BUCKET_SIZE {
        let mut id = [0u8; NODE_ID_BYTES];
        id[0] = 0x80;
        id[NODE_ID_BYTES - 1] = value as u8;
        assert!(table
            .insert(Node::from_id(NodeID::from_id(id), "a".into(), 6881))
            .is_ok());
    }

    let mut id = [0u8; NODE_ID_BYTES];
    id[0] = 0x80;
    id[NODE_ID_BYTES - 1] = BUCKET_SIZE as u8;
    assert_eq!(
        table.insert(Node::from_id(NodeID::from_id(id), "a".into(), 6881)),
        Err(DhtError::Bucket(BucketError::Full))
    );
}

#[test]
fn test_full_bucket_containing_local_id_is_split() {
    let local = NodeID::from_id([0u8; 20]);
    let mut table = RoutingTable::new(local);

    for value in 0..BUCKET_SIZE - 1 {
        let mut id = [0u8; 20];
        id[0] = 0x80;
        id[19] = value as u8;
        table
            .insert(Node::from_id(NodeID::from_id(id), "a".into(), 6881))
            .unwrap();
    }

    let mut left_id = [0u8; 20];
    left_id[19] = 1;
    table
        .insert(Node::from_id(NodeID::from_id(left_id), "b".into(), 6882))
        .unwrap();

    let mut new_id = [0u8; 20];
    new_id[0] = 0x80;
    new_id[19] = 100;
    table
        .insert(Node::from_id(NodeID::from_id(new_id), "c".into(), 6883))
        .unwrap();

    assert_eq!(table.buckets().len(), 2);
    assert!(table
        .buckets()
        .iter()
        .all(|bucket| bucket.nodes().len() <= BUCKET_SIZE));
}

#[test]
fn test_routing_table_insert() {
    let local = NodeID::from_id([0u8; NODE_ID_BYTES]);

    let mut table = RoutingTable::new(local);

    let mut id = [0u8; NODE_ID_BYTES];
    id[NODE_ID_BYTES - 1] = 1;
    let result = table.insert(Node::from_id(NodeID::from_id(id), "127.0.0.1".into(), 6881));
    assert!(result.is_ok());
    assert_eq!(table.buckets()[0].nodes().len(), 1);
}

#[test]
fn test_find_closest() {
    let local = NodeID::from_id([0; NODE_ID_BYTES]);

    let mut table = RoutingTable::new(local);

    let mut id1 = [0; NODE_ID_BYTES];
    id1[NODE_ID_BYTES - 1] = 1;

    let mut id2 = [0; NODE_ID_BYTES];
    id2[NODE_ID_BYTES - 1] = 2;

    let result = table.insert(Node::from_id(NodeID::from_id(id1), "a".into(), 1));
    assert!(result.is_ok());

    let result = table.insert(Node::from_id(NodeID::from_id(id2), "b".into(), 2));
    assert!(result.is_ok());

    let result = table.find_closest(&NodeID::from_id([0; NODE_ID_BYTES]), 1);

    let node = result[0].id().node_id();
    assert_eq!(node[NODE_ID_BYTES - 1], 1);
}

#[test]
fn public_dht_api_supports_routing_table_queries() {
    let local = NodeID::from_id([0u8; 20]);
    let mut table = RoutingTable::new(local);

    let mut remote_id = [0u8; 20];
    remote_id[19] = 1;
    assert!(table
        .insert(Node::from_id(
            NodeID::from_id(remote_id),
            "127.0.0.1".into(),
            6881,
        ))
        .is_ok());

    let target = NodeID::from_id([0u8; 20]);
    let closest = table.find_closest(&target, 1);

    assert_eq!(closest.len(), 1);
    assert_eq!(closest[0].id().node_id(), &remote_id);
}

#[test]
fn public_dht_node_wraps_local_identity_and_routing_table() {
    let local_id = NodeID::from_id([0u8; 20]);
    let local = Node::from_id(local_id, "127.0.0.1".into(), 6881);
    let mut dht_node = DhtNode::new(local.clone());

    assert_eq!(dht_node.id(), local.id());
    assert_eq!(dht_node.local(), &local);
    assert!(dht_node
        .routing_table()
        .find_closest(&local_id, 1)
        .is_empty());

    let mut remote_id = [0u8; 20];
    remote_id[19] = 1;
    let remote = Node::from_id(NodeID::from_id(remote_id), "127.0.0.2".into(), 6882);

    assert!(dht_node.insert(remote).is_ok());
    let closest = dht_node.routing_table().find_closest(&local_id, 1);

    assert_eq!(closest.len(), 1);
    assert_eq!(closest[0].id().node_id(), &remote_id);
}

#[test]
fn public_dht_node_rejects_inserting_itself() {
    let local_id = NodeID::from_id([0u8; 20]);
    let local = Node::from_id(local_id, "127.0.0.1".into(), 6881);
    let mut dht_node = DhtNode::new(local.clone());

    assert_eq!(
        dht_node.insert(local),
        Err(DhtError::RoutingTable(RoutingTableError::NodeIsSelf))
    );
}

#[test]
fn splits_follow_the_local_path_only_while_full() {
    let local = NodeID::from_id([0u8; NODE_ID_BYTES]);
    let mut table = RoutingTable::new(local);
    for value in 1..=BUCKET_SIZE {
        let mut id = [0u8; NODE_ID_BYTES];
        id[1] = value as u8;
        table
            .insert(Node::from_id(NodeID::from_id(id), "a".into(), 6881))
            .unwrap();
    }
    assert_eq!(table.buckets().len(), 1);

    // The new node shares its first twelve bits with all stored nodes and
    // the local node, so the full bucket splits thirteen times.
    let mut id = [0u8; NODE_ID_BYTES];
    id[1] = 9;
    assert!(table
        .insert(Node::from_id(NodeID::from_id(id), "b".into(), 6882))
        .is_ok());
    assert_eq!(table.buckets().len(), 14);

    // A full bucket away from the local identifier is never split.
    let mut far = RoutingTable::new(local);
    for value in 0..BUCKET_SIZE {
        let mut id = [0u8; NODE_ID_BYTES];
        id[0] = 0x80;
        id[NODE_ID_BYTES - 1] = value as u8;
        far.insert(Node::from_id(NodeID::from_id(id), "a".into(), 6881))
            .unwrap();
    }
    let mut id = [0u8; NODE_ID_BYTES];
    id[0] = 0x80;
    id[NODE_ID_BYTES - 1] = 200;
    assert_eq!(
        far.insert(Node::from_id(NodeID::from_id(id), "a".into(), 6881)),
        Err(DhtError::Bucket(BucketError::Full))
    );
    assert_eq!(far.buckets().len(), 2);
    assert_eq!(far.find_closest(&local, 100).len(), BUCKET_SIZE);
}

#[test]
fn first_insert_into_a_new_table_succeeds() {
    let table_id = NodeID::from_id([7u8; NODE_ID_BYTES]);
    let mut table = RoutingTable::new(table_id);
    assert_eq!(table.buckets().len(), 1);
    assert!(table.buckets()[0].nodes().is_empty());
    assert!(table
        .insert(Node::from_id(NodeID::from_id([1u8; NODE_ID_BYTES]), "a".into(), 1))
        .is_ok());
}
