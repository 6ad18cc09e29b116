//! Bit flags representing libtorrent alert categories, as set in the
//! `alert_mask` integer setting.

use vstd::prelude::*;

verus! {

/// The bit of error notifications.
pub const ERROR_NOTIFICATION: u32 = 1u32 << 0u32;

/// The bit of peer notifications.
pub const PEER_NOTIFICATION: u32 = 1u32 << 1u32;

/// The bit of port mapping notifications.
pub const PORT_MAPPING_NOTIFICATION: u32 = 1u32 << 2u32;

/// The bit of storage notifications.
pub const STORAGE_NOTIFICATION: u32 = 1u32 << 3u32;

/// The bit of tracker notifications.
pub const TRACKER_NOTIFICATION: u32 = 1u32 << 4u32;

/// The bit of connection notifications.
pub const CONNECT_NOTIFICATION: u32 = 1u32 << 5u32;

/// The bit of status notifications.
pub const STATUS_NOTIFICATION: u32 = 1u32 << 6u32;

/// The bit of iP block notifications.
pub const IP_BLOCK_NOTIFICATION: u32 = 1u32 << 8u32;

/// The bit of performance warnings.
pub const PERFORMANCE_WARNING: u32 = 1u32 << 9u32;

/// The bit of dHT notifications.
pub const DHT_NOTIFICATION: u32 = 1u32 << 10u32;

/// The bit of session log notifications.
pub const SESSION_LOG_NOTIFICATION: u32 = 1u32 << 13u32;

/// The bit of torrent log notifications.
pub const TORRENT_LOG_NOTIFICATION: u32 = 1u32 << 14u32;

/// The bit of peer log notifications.
pub const PEER_LOG_NOTIFICATION: u32 = 1u32 << 15u32;

/// The bit of incoming request notifications.
pub const INCOMING_REQUEST_NOTIFICATION: u32 = 1u32 << 16u32;

/// The bit of dHT log notifications.
pub const DHT_LOG_NOTIFICATION: u32 = 1u32 << 17u32;

/// The bit of dHT operation notifications.
pub const DHT_OPERATION_NOTIFICATION: u32 = 1u32 << 18u32;

/// The bit of port mapping log notifications.
pub const PORT_MAPPING_LOG_NOTIFICATION: u32 = 1u32 << 19u32;

/// The bit of piece picker log notifications.
pub const PICKER_LOG_NOTIFICATION: u32 = 1u32 << 20u32;

/// The bit of file progress notifications.
pub const FILE_PROGRESS_NOTIFICATION: u32 = 1u32 << 21u32;

/// The bit of piece progress notifications.
pub const PIECE_PROGRESS_NOTIFICATION: u32 = 1u32 << 22u32;

/// The bit of upload notifications.
pub const UPLOAD_NOTIFICATION: u32 = 1u32 << 23u32;

/// The bit of block progress notifications.
pub const BLOCK_PROGRESS_NOTIFICATION: u32 = 1u32 << 24u32;

/// A set of libtorrent alert categories.
#[derive(Debug, Clone, Copy, PartialEq, Eq, Hash, Structural)]
pub struct AlertCategory {
    bits: u32,
}

impl AlertCategory {
    /// The bits of the set.
    pub closed spec fn spec_bits(&self) -> u32 {
        self.bits
    }

    /// The set whose bits are `bits`, unknown bits included.
    pub fn from_bits_retain(bits: u32) -> (r: Self)
        ensures
            r.spec_bits() == bits,
    {
        AlertCategory { bits }
    }

    /// The set of no category.
    pub fn empty() -> (r: Self)
        ensures
            r.spec_bits() == 0,
    {
        AlertCategory { bits: 0 }
    }

    /// Enables all alert category bits.
    pub fn all() -> (r: Self)
        ensures
            r.spec_bits() == u32::MAX,
    {
        AlertCategory { bits: u32::MAX }
    }

    /// The bits of the set.
    pub fn bits(&self) -> (r: u32)
        ensures
            r == self.spec_bits(),
    {
        self.bits
    }

    /// The categories of either set.
    pub fn union(self, other: Self) -> (r: Self)
        ensures
            r.spec_bits() == self.spec_bits() | other.spec_bits(),
    {
        AlertCategory { bits: self.bits | other.bits }
    }

    /// The categories of both sets.
    pub fn intersection(self, other: Self) -> (r: Self)
        ensures
            r.spec_bits() == self.spec_bits() & other.spec_bits(),
    {
        AlertCategory { bits: self.bits & other.bits }
    }

    /// Whether every category of `other` is in the set.
    pub fn contains(&self, other: Self) -> (r: bool)
        ensures
            r == (self.spec_bits() & other.spec_bits() == other.spec_bits()),
    {
        self.bits & other.bits == other.bits
    }

    /// Whether the set has no category.
    pub fn is_empty(&self) -> (r: bool)
        ensures
            r == (self.spec_bits() == 0),
    {
        self.bits == 0
    }
}

/// A union contains each of its parts: the bits of `a | b` include those of
/// `a` and those of `b`, as `contains` tests them.
pub proof fn law_union_contains_parts(a: u32, b: u32)
    ensures
        (a | b) & a == a,
        (a | b) & b == b,
{
    assert((a | b) & a == a) by (bit_vector);
    assert((a | b) & b == b) by (bit_vector);
}

} // verus!
