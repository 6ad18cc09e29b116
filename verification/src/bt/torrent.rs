//! Torrent identities and their wire representation.

use vstd::prelude::*;

use super::identity::{hex_lower, InfoHashV1, InfoHashV2};

verus! {

/// The v1 and/or v2 hash identity of one torrent.
#[derive(Debug, Clone, Copy, PartialEq, Eq, Hash, PartialOrd, Ord, Default)]
pub struct TorrentId {
    v1: Option<InfoHashV1>,
    v2: Option<InfoHashV2>,
}

impl TorrentId {
    /// The v1 hash, if present.
    pub closed spec fn spec_v1(&self) -> Option<InfoHashV1> {
        self.v1
    }

    /// The v2 hash, if present.
    pub closed spec fn spec_v2(&self) -> Option<InfoHashV2> {
        self.v2
    }

    /// Identities with the same hashes are the same identity.
    pub proof fn lemma_eq(a: Self, b: Self)
        requires
            a.spec_v1() == b.spec_v1(),
            a.spec_v2() == b.spec_v2(),
        ensures
            a == b,
    {
    }

    /// Creates a torrent identity from its available hashes.
    pub fn new(v1: Option<InfoHashV1>, v2: Option<InfoHashV2>) -> (r: Self)
        ensures
            r.spec_v1() == v1,
            r.spec_v2() == v2,
    {
        TorrentId { v1, v2 }
    }

    /// Returns the v1 hash, if present.
    pub fn v1(&self) -> (r: Option<InfoHashV1>)
        ensures
            r == self.spec_v1(),
    {
        self.v1
    }

    /// Returns the v2 hash, if present.
    pub fn v2(&self) -> (r: Option<InfoHashV2>)
        ensures
            r == self.spec_v2(),
    {
        self.v2
    }

    /// Returns whether a v1 hash is present.
    pub fn has_v1(&self) -> (r: bool)
        ensures
            r == self.spec_v1() is Some,
    {
        self.v1.is_some()
    }

    /// Returns whether a v2 hash is present.
    pub fn has_v2(&self) -> (r: bool)
        ensures
            r == self.spec_v2() is Some,
    {
        self.v2.is_some()
    }

    /// Returns whether neither hash is present.
    pub fn is_empty(&self) -> (r: bool)
        ensures
            r == (self.spec_v1() is None && self.spec_v2() is None),
    {
        self.v1.is_none() && self.v2.is_none()
    }

    /// Returns whether this is a v1-only identity.
    pub fn is_v1(&self) -> (r: bool)
        ensures
            r == (self.spec_v1() is Some && self.spec_v2() is None),
    {
        self.v1.is_some() && self.v2.is_none()
    }

    /// Returns whether this is a v2-only identity.
    pub fn is_v2(&self) -> (r: bool)
        ensures
            r == (self.spec_v1() is None && self.spec_v2() is Some),
    {
        self.v1.is_none() && self.v2.is_some()
    }

    /// Returns whether both v1 and v2 hashes are present.
    pub fn is_hybrid(&self) -> (r: bool)
        ensures
            r == (self.spec_v1() is Some && self.spec_v2() is Some),
    {
        self.v1.is_some() && self.v2.is_some()
    }

    /// Returns the identity's display text: `Hybrid(<v1>/<v2>)`, `V1(<v1>)`,
    /// `V2(<v2>)` or `Empty`, with each hash in lowercase hexadecimal.
    pub fn display_string(&self) -> (r: String)
        ensures
            r@ == match (self.spec_v1(), self.spec_v2()) {
                (Some(a), Some(b)) => "Hybrid("@ + hex_lower(a@) + "/"@ + hex_lower(b@) + ")"@,
                (Some(a), None) => "V1("@ + hex_lower(a@) + ")"@,
                (None, Some(b)) => "V2("@ + hex_lower(b@) + ")"@,
                (None, None) => "Empty"@,
            },
    {
        let mut r = String::new();
        match (self.v1, self.v2) {
            (Some(v1), Some(v2)) => {
                r.append("Hybrid(");
                r.append(v1.to_hex().as_str());
                r.append("/");
                r.append(v2.to_hex().as_str());
                r.append(")");
            },
            (Some(v1), None) => {
                r.append("V1(");
                r.append(v1.to_hex().as_str());
                r.append(")");
            },
            (None, Some(v2)) => {
                r.append("V2(");
                r.append(v2.to_hex().as_str());
                r.append(")");
            },
            (None, None) => {
                r.append("Empty");
            },
        }
        r
    }
}

/// Whether `p` is the wire form of `t`: each flag tells whether the hash is
/// present, and the bytes of an absent hash are zero.
pub open spec fn payload_encodes(t: TorrentId, p: TorrentIdPayload) -> bool {
    &&& p.has_v1 == t.spec_v1() is Some
    &&& p.has_v2 == t.spec_v2() is Some
    &&& p.v1@ == match t.spec_v1() {
        Some(h) => h@,
        None => Seq::new(20, |i: int| 0u8),
    }
    &&& p.v2@ == match t.spec_v2() {
        Some(h) => h@,
        None => Seq::new(32, |i: int| 0u8),
    }
}

/// Whether `t` is read from the wire form `p`: a hash is present exactly when
/// its flag is set, and then holds the payload's bytes.
pub open spec fn payload_decodes(p: TorrentIdPayload, t: TorrentId) -> bool {
    &&& t.spec_v1() is Some == p.has_v1
    &&& t.spec_v2() is Some == p.has_v2
    &&& t.spec_v1() matches Some(h) ==> h@ == p.v1@
    &&& t.spec_v2() matches Some(h) ==> h@ == p.v2@
}

/// Whether the bytes of each absent hash of `p` are zero, as in every
/// payload that encodes an identity.
pub open spec fn payload_canonical(p: TorrentIdPayload) -> bool {
    &&& !p.has_v1 ==> p.v1@ == Seq::new(20, |i: int| 0u8)
    &&& !p.has_v2 ==> p.v2@ == Seq::new(32, |i: int| 0u8)
}

/// Decoding the wire form of an identity gives the identity back.
pub proof fn law_payload_round_trip(t: TorrentId, p: TorrentIdPayload, back: TorrentId)
    requires
        payload_encodes(t, p),
        payload_decodes(p, back),
    ensures
        back == t,
{
    if t.spec_v1() is Some {
        InfoHashV1::lemma_view_injective(back.spec_v1().unwrap(), t.spec_v1().unwrap());
    }
    if t.spec_v2() is Some {
        InfoHashV2::lemma_view_injective(back.spec_v2().unwrap(), t.spec_v2().unwrap());
    }
    TorrentId::lemma_eq(back, t);
}

/// Encoding the identity read from a payload whose absent hashes are zero
/// gives the payload back.
pub proof fn law_canonical_payload_round_trip(p: TorrentIdPayload, t: TorrentId, back: TorrentIdPayload)
    requires
        payload_canonical(p),
        payload_decodes(p, t),
        payload_encodes(t, back),
    ensures
        back == p,
{
    assert(back.v1 =~= p.v1) by {
        assert forall|i: int| 0 <= i < 20 implies back.v1[i] == p.v1[i] by {
            assert(back.v1@[i] == p.v1@[i]);
        }
    }
    assert(back.v2 =~= p.v2) by {
        assert forall|i: int| 0 <= i < 32 implies back.v2[i] == p.v2[i] by {
            assert(back.v2@[i] == p.v2@[i]);
        }
    }
}

/// Wire representation of a v1, v2, or hybrid torrent identity, as exchanged
/// with the native engine.
#[derive(Debug, Clone, Copy, PartialEq, Eq)]
pub struct TorrentIdPayload {
    /// SHA-1 v1 infohash bytes, or zeroes when no v1 hash is present.
    pub v1: [u8; 20],
    /// SHA-256 v2 infohash bytes, or zeroes when no v2 hash is present.
    pub v2: [u8; 32],
    /// Whether `v1` contains a valid v1 hash.
    pub has_v1: bool,
    /// Whether `v2` contains a valid v2 hash.
    pub has_v2: bool,
}

impl TorrentIdPayload {
    /// Encodes a torrent identity, zeroing the bytes of an absent hash.
    pub fn from_torrent_id(value: &TorrentId) -> (r: Self)
        ensures
            payload_encodes(*value, r),
    {
        let v1 = match value.v1() {
            Some(hash) => *hash.as_bytes(),
            None => [0u8; 20],
        };
        let v2 = match value.v2() {
            Some(hash) => *hash.as_bytes(),
            None => [0u8; 32],
        };
        let r = TorrentIdPayload { v1, v2, has_v1: value.has_v1(), has_v2: value.has_v2() };
        assert(value.spec_v1() is None ==> r.v1@ =~= Seq::new(20, |i: int| 0u8));
        assert(value.spec_v2() is None ==> r.v2@ =~= Seq::new(32, |i: int| 0u8));
        r
    }

    /// Decodes a torrent identity, keeping the hashes whose flag is set.
    pub fn into_torrent_id(self) -> (r: TorrentId)
        ensures
            payload_decodes(self, r),
    {
        let v1 = if self.has_v1 {
            Some(InfoHashV1::from_bytes(self.v1))
        } else {
            None
        };
        let v2 = if self.has_v2 {
            Some(InfoHashV2::from_bytes(self.v2))
        } else {
            None
        };
        TorrentId::new(v1, v2)
    }
}

} // verus!
