//! DHT node identifiers, the XOR metric and node endpoints.

use vstd::prelude::*;

verus! {

/// Number of bytes in a DHT node identifier.
pub const NODE_ID_BYTES: usize = 20;

/// Position-wise XOR of two byte sequences of equal length.
pub open spec fn xor_bytes(a: Seq<u8>, b: Seq<u8>) -> Seq<u8> {
    Seq::new(a.len(), |i: int| a[i] ^ b[i])
}

/// Strict lexicographic order on byte sequences: the order of the unsigned
/// big-endian numbers they spell when both have the same length.
pub open spec fn lex_lt(a: Seq<u8>, b: Seq<u8>) -> bool
    decreases a.len(),
{
    if a.len() == 0 || b.len() == 0 {
        false
    } else if a[0] != b[0] {
        a[0] < b[0]
    } else {
        lex_lt(a.drop_first(), b.drop_first())
    }
}

/// No sequence precedes itself.
pub proof fn lemma_lex_irreflexive(a: Seq<u8>)
    ensures
        !lex_lt(a, a),
    decreases a.len(),
{
    if a.len() > 0 {
        lemma_lex_irreflexive(a.drop_first());
    }
}

/// The order is asymmetric.
pub proof fn lemma_lex_asymmetric(a: Seq<u8>, b: Seq<u8>)
    ensures
        !(lex_lt(a, b) && lex_lt(b, a)),
    decreases a.len(),
{
    if a.len() > 0 && b.len() > 0 && a[0] == b[0] {
        lemma_lex_asymmetric(a.drop_first(), b.drop_first());
    }
}

/// The order is transitive.
pub proof fn lemma_lex_transitive(a: Seq<u8>, b: Seq<u8>, c: Seq<u8>)
    requires
        lex_lt(a, b),
        lex_lt(b, c),
    ensures
        lex_lt(a, c),
    decreases a.len(),
{
    if a[0] == b[0] && b[0] == c[0] {
        lemma_lex_transitive(a.drop_first(), b.drop_first(), c.drop_first());
    }
}

/// Two different sequences of the same length are ordered one way or the
/// other.
pub proof fn lemma_lex_total(a: Seq<u8>, b: Seq<u8>)
    requires
        a.len() == b.len(),
        a != b,
    ensures
        lex_lt(a, b) || lex_lt(b, a),
    decreases a.len(),
{
    if a.len() == 0 {
        assert(a =~= b);
    } else if a[0] == b[0] {
        if a.drop_first() == b.drop_first() {
            assert(a =~= b) by {
                assert forall|i: int| 0 <= i < a.len() implies a[i] == b[i] by {
                    if i > 0 {
                        assert(a[i] == a.drop_first()[i - 1]);
                        assert(b[i] == b.drop_first()[i - 1]);
                    }
                }
            }
        }
        lemma_lex_total(a.drop_first(), b.drop_first());
    }
}

/// No sequence precedes a sequence of zero bytes.
pub proof fn lemma_lex_not_below_zero(a: Seq<u8>, z: Seq<u8>)
    requires
        forall|i: int| 0 <= i < z.len() ==> z[i] == 0,
    ensures
        !lex_lt(a, z),
    decreases a.len(),
{
    if a.len() > 0 && z.len() > 0 && a[0] == z[0] {
        lemma_lex_not_below_zero(a.drop_first(), z.drop_first());
    }
}

/// An identifier is at distance zero from itself.
pub proof fn lemma_xor_self_zero(t: Seq<u8>)
    ensures
        forall|i: int| 0 <= i < xor_bytes(t, t).len() ==> #[trigger] xor_bytes(t, t)[i] == 0,
{
    assert forall|i: int| 0 <= i < xor_bytes(t, t).len() implies #[trigger] xor_bytes(t, t)[i] == 0 by {
        let x = t[i];
        assert(x ^ x == 0) by (bit_vector);
    }
}

/// XOR with a fixed byte is injective.
proof fn lemma_xor_byte_injective(t: u8, a: u8, b: u8)
    by (bit_vector)
    requires
        t ^ a == t ^ b,
    ensures
        a == b,
{
}

/// Two identifiers at the same XOR distance from a target are equal.
pub proof fn lemma_xor_injective(t: Seq<u8>, a: Seq<u8>, b: Seq<u8>)
    requires
        a.len() == t.len(),
        b.len() == t.len(),
        xor_bytes(t, a) == xor_bytes(t, b),
    ensures
        a == b,
{
    assert forall|i: int| 0 <= i < a.len() implies a[i] == b[i] by {
        assert(xor_bytes(t, a)[i] == xor_bytes(t, b)[i]);
        assert(xor_bytes(t, a)[i] == t[i] ^ a[i]);
        assert(xor_bytes(t, b)[i] == t[i] ^ b[i]);
        lemma_xor_byte_injective(t[i], a[i], b[i]);
    }
    assert(a =~= b);
}

/// Compares two distances as unsigned big-endian numbers.
pub fn distance_lt(a: &[u8; 20], b: &[u8; 20]) -> (r: bool)
    ensures
        r == lex_lt(a@, b@),
{
    let mut i: usize = 0;
    assert(a@.skip(0) =~= a@);
    assert(b@.skip(0) =~= b@);
    while i < NODE_ID_BYTES
        invariant
            i <= NODE_ID_BYTES,
            a@.len() == NODE_ID_BYTES,
            b@.len() == NODE_ID_BYTES,
            lex_lt(a@, b@) == lex_lt(a@.skip(i as int), b@.skip(i as int)),
        decreases NODE_ID_BYTES - i,
    {
        assert(a@.skip(i as int)[0] == a@[i as int]);
        assert(b@.skip(i as int)[0] == b@[i as int]);
        if a[i] != b[i] {
            return a[i] < b[i];
        }
        assert(a@.skip(i as int).drop_first() =~= a@.skip(i + 1));
        assert(b@.skip(i as int).drop_first() =~= b@.skip(i + 1));
        i = i + 1;
    }
    false
}

/// A 160-bit DHT node identifier.
#[derive(Clone, Copy, Debug, Eq, Hash)]
pub struct NodeID([u8; 20]);

impl View for NodeID {
    type V = Seq<u8>;

    closed spec fn view(&self) -> Seq<u8> {
        self.0@
    }
}

impl NodeID {
    /// Every identifier is exactly `NODE_ID_BYTES` long.
    pub proof fn lemma_len(&self)
        ensures
            self@.len() == NODE_ID_BYTES,
    {
    }

    /// Creates an identifier from its raw bytes.
    pub fn from_id(id: [u8; 20]) -> (r: Self)
        ensures
            r@ == id@,
    {
        NodeID(id)
    }

    /// Returns the raw bytes of the identifier.
    pub fn node_id(&self) -> (r: &[u8; 20])
        ensures
            r@ == self@,
    {
        &self.0
    }

    /// Returns the XOR distance between two identifiers, byte by byte.
    pub fn get_distance(&self, other: &NodeID) -> (distance: [u8; 20])
        ensures
            distance@ == xor_bytes(self@, other@),
    {
        let mut distance = [0u8; 20];
        let mut i: usize = 0;
        while i < NODE_ID_BYTES
            invariant
                i <= NODE_ID_BYTES,
                distance@.len() == NODE_ID_BYTES,
                forall|j: int| 0 <= j < i ==> distance@[j] == self.0@[j] ^ other.0@[j],
            decreases NODE_ID_BYTES - i,
        {
            distance[i] = self.0[i] ^ other.0[i];
            i = i + 1;
        }
        assert(distance@ =~= xor_bytes(self@, other@));
        distance
    }
}

impl PartialEq for NodeID {
    fn eq(&self, other: &Self) -> (r: bool) {
        let mut i: usize = 0;
        while i < NODE_ID_BYTES
            invariant
                i <= NODE_ID_BYTES,
                forall|j: int| 0 <= j < i ==> self.0@[j] == other.0@[j],
            decreases NODE_ID_BYTES - i,
        {
            if self.0[i] != other.0[i] {
                return false;
            }
            i = i + 1;
        }
        assert(self.0@ =~= other.0@);
        true
    }
}

impl vstd::std_specs::cmp::PartialEqSpecImpl for NodeID {
    open spec fn obeys_eq_spec() -> bool {
        true
    }

    open spec fn eq_spec(&self, other: &Self) -> bool {
        self@ == other@
    }
}

/// Fresh random bytes for a node identifier.
///
/// Calls `rand::rng().fill` on a 20-byte buffer. Nothing is promised of the
/// bytes: they come from the thread-local random generator.
#[verifier::external_body]
fn random_id_bytes() -> [u8; 20] {
    let mut id = [0u8; 20];
    rand::RngExt::fill(&mut rand::rng(), &mut id);
    id
}

impl NodeID {
    /// Creates a random identifier.
    pub fn new() -> (r: Self) {
        NodeID(random_id_bytes())
    }
}

/// The abstract value of a node: its identifier, address and port.
pub struct NodeView {
    pub id: Seq<u8>,
    pub address: Seq<char>,
    pub port: u16,
}

/// A DHT node identity and its network endpoint.
#[derive(Clone, Debug)]
pub struct Node {
    id: NodeID,
    address: String,
    port: u16,
}

impl View for Node {
    type V = NodeView;

    closed spec fn view(&self) -> NodeView {
        NodeView { id: self.id@, address: self.address@, port: self.port }
    }
}

impl Node {
    /// A node's identifier is `NODE_ID_BYTES` long.
    pub proof fn lemma_id_len(&self)
        ensures
            self@.id.len() == NODE_ID_BYTES,
    {
        self.id.lemma_len();
    }

    /// Creates a node with a random identifier.
    pub fn new(address: String, port: u16) -> (r: Self)
        ensures
            r@.address == address@,
            r@.port == port,
    {
        Node { id: NodeID::new(), address, port }
    }

    /// Creates a node with the given identifier.
    pub fn from_id(id: NodeID, address: String, port: u16) -> (r: Self)
        ensures
            r@ == (NodeView { id: id@, address: address@, port }),
    {
        Node { id, address, port }
    }

    /// Returns the node's identifier.
    pub fn id(&self) -> (r: &NodeID)
        ensures
            r@ == self@.id,
    {
        &self.id
    }

    /// Returns the node's network address.
    pub fn address(&self) -> (r: &str)
        ensures
            r@ == self@.address,
    {
        self.address.as_str()
    }

    /// Returns the node's port.
    pub fn port(&self) -> (r: u16)
        ensures
            r == self@.port,
    {
        self.port
    }
}

impl PartialEq for Node {
    fn eq(&self, other: &Self) -> (r: bool) {
        self.id == other.id && self.port == other.port && self.address == other.address
    }
}

impl vstd::std_specs::cmp::PartialEqSpecImpl for Node {
    open spec fn obeys_eq_spec() -> bool {
        true
    }

    open spec fn eq_spec(&self, other: &Self) -> bool {
        self@ == other@
    }
}

} // verus!
