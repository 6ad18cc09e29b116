//! Data structures used by the DHT routing layer.
//!
//! The module provides node identifiers, node metadata, routing-table
//! buckets, a local DHT node, and the errors produced while updating the
//! routing table.

pub mod bucket;
pub mod errors;
pub mod node;
pub mod routingtable;

pub use bucket::{Bucket, BUCKET_SIZE};
pub use errors::{BucketError, DhtError, RoutingTableError};
pub use node::{Node, NodeID, NodeView, NODE_ID_BYTES};
pub use routingtable::RoutingTable;

use vstd::prelude::*;

verus! {

/// Represents a local DHT node and its routing table.
pub struct DhtNode {
    local: Node,
    routing_table: RoutingTable,
}

impl DhtNode {
    /// The node is well formed: its routing table is well formed and belongs
    /// to the local node's identifier.
    pub closed spec fn wf(&self) -> bool {
        &&& self.routing_table.wf()
        &&& self.routing_table.local() == self.local@.id
    }

    /// The local node.
    pub closed spec fn local_view(&self) -> NodeView {
        self.local@
    }

    /// The routing table.
    pub closed spec fn table(&self) -> RoutingTable {
        self.routing_table
    }

    /// Creates a DHT node for the given local node, with an empty routing
    /// table.
    pub fn new(local: Node) -> (r: Self)
        ensures
            r.wf(),
            r.local_view() == local@,
            r.table()@ == Set::<NodeView>::empty(),
    {
        let local_id = *local.id();
        DhtNode { local, routing_table: RoutingTable::new(local_id) }
    }

    /// Returns the local node's ID.
    pub fn id(&self) -> (r: &NodeID)
        ensures
            r@ == self.local_view().id,
    {
        self.local.id()
    }

    /// Returns a reference to the local node.
    pub fn local(&self) -> (r: &Node)
        ensures
            r@ == self.local_view(),
    {
        &self.local
    }

    /// Returns a reference to the routing table.
    pub fn routing_table(&self) -> (r: &RoutingTable)
        requires
            self.wf(),
        ensures
            *r == self.table(),
            r.wf(),
    {
        &self.routing_table
    }

    /// Records a node observation in the routing table.
    ///
    /// Observing an existing node ID refreshes its endpoint and routing
    /// metadata without adding another entry. Errors are those of
    /// [`RoutingTable::insert`].
    pub fn insert(&mut self, node: Node) -> (r: Result<(), DhtError>)
        requires
            old(self).wf(),
        ensures
            final(self).wf(),
            final(self).local_view() == old(self).local_view(),
            node@.id == old(self).local_view().id ==> r == Err::<(), DhtError>(
                DhtError::RoutingTable(RoutingTableError::NodeIsSelf),
            ) && final(self).table()@ == old(self).table()@,
            node@.id != old(self).local_view().id ==> (r == Ok::<(), DhtError>(())
                && final(self).table()@ == routingtable::with_node(old(self).table()@, node@))
                || (r == Err::<(), DhtError>(DhtError::Bucket(BucketError::Full))
                && final(self).table()@ == old(self).table()@),
            node@.id != old(self).local_view().id ==> (r is Err <==> routingtable::blocked(
                final(self).table().bucket_list(),
                node@.id,
                old(self).local_view().id,
            )),
    {
        match self.routing_table.insert(node) {
            Ok(()) => Ok(()),
            Err(error) => Err(error),
        }
    }
}

} // verus!
