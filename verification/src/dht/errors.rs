//! Errors produced while updating the DHT routing structures.

use vstd::prelude::*;

verus! {

/// Errors returned when updating a routing-table bucket.
#[derive(Debug, Clone, Copy, PartialEq, Eq, Structural)]
pub enum BucketError {
    /// The bucket has reached its maximum capacity.
    Full,
    /// The exact node is already stored in the bucket.
    NodeAlreadyInBucket,
}

/// Errors returned when updating a routing table.
#[derive(Debug, Clone, Copy, PartialEq, Eq, Structural)]
pub enum RoutingTableError {
    /// The inserted node has the same identifier as the local node.
    NodeIsSelf,
}

/// Errors returned by DHT data structures.
#[derive(Debug, Clone, Copy, PartialEq, Eq, Structural)]
pub enum DhtError {
    /// An error occurred while updating a bucket.
    Bucket(BucketError),
    /// An error occurred while updating the routing table.
    RoutingTable(RoutingTableError),
}

impl From<BucketError> for DhtError {
    fn from(error: BucketError) -> (r: DhtError) {
        DhtError::Bucket(error)
    }
}

impl vstd::std_specs::convert::FromSpecImpl<BucketError> for DhtError {
    open spec fn obeys_from_spec() -> bool {
        true
    }

    open spec fn from_spec(error: BucketError) -> DhtError {
        DhtError::Bucket(error)
    }
}

impl From<RoutingTableError> for DhtError {
    fn from(error: RoutingTableError) -> (r: DhtError) {
        DhtError::RoutingTable(error)
    }
}

impl vstd::std_specs::convert::FromSpecImpl<RoutingTableError> for DhtError {
    open spec fn obeys_from_spec() -> bool {
        true
    }

    open spec fn from_spec(error: RoutingTableError) -> DhtError {
        DhtError::RoutingTable(error)
    }
}

} // verus!
