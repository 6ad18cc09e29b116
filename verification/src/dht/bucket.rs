//! Routing-table buckets and the identifier prefix ranges they cover.

use vstd::prelude::*;

use super::errors::BucketError;
use super::node::{Node, NodeID, NodeView, NODE_ID_BYTES};

verus! {

/// The maximum number of nodes that can be stored in a bucket.
pub const BUCKET_SIZE: usize = 8;

/// The number of bits in a node identifier, which bounds a prefix's depth.
pub const ID_BITS: usize = 160;

/// Bit `pos` of an identifier, counting from the most significant bit of the
/// first byte (big-endian bit order).
pub open spec fn id_bit(id: Seq<u8>, pos: int) -> u8 {
    (id[pos / 8] >> ((7 - pos % 8) as u8)) & 1u8
}

/// Whether the first `depth` bits of `id` equal those of `prefix`.
pub open spec fn prefix_matches(prefix: Seq<u8>, depth: int, id: Seq<u8>) -> bool {
    forall|p: int| 0 <= p < depth ==> #[trigger] id_bit(id, p) == id_bit(prefix, p)
}

/// `byte` with bit `k` (counted from the least significant bit) set to `bit`.
pub open spec fn with_bit(byte: u8, k: u8, bit: u8) -> u8 {
    (byte & !(1u8 << k)) | (bit << k)
}

/// Whether no two entries of `s` share an identifier.
pub open spec fn ids_distinct(s: Seq<NodeView>) -> bool {
    forall|i: int, j: int| 0 <= i < s.len() && 0 <= j < s.len() && i != j ==> s[i].id != s[j].id
}

/// Whether every entry of `s` has an identifier of `NODE_ID_BYTES` bytes.
pub open spec fn ids_sized(s: Seq<NodeView>) -> bool {
    forall|i: int| 0 <= i < s.len() ==> (#[trigger] s[i]).id.len() == NODE_ID_BYTES
}

/// Whether a node belongs to the `0` child of range `r` when `r` is split.
pub open spec fn goes_to_zero(r: BucketRangeView) -> spec_fn(NodeView) -> bool {
    |n: NodeView| r.child(0).contains(n.id)
}

/// Whether a node belongs to the `1` child of range `r` when `r` is split.
pub open spec fn goes_to_one(r: BucketRangeView) -> spec_fn(NodeView) -> bool {
    |n: NodeView| !r.child(0).contains(n.id)
}

/// Whether some entry of `s` has identifier `id`.
pub open spec fn has_id(s: Seq<NodeView>, id: Seq<u8>) -> bool {
    exists|i: int| 0 <= i < s.len() && #[trigger] s[i].id == id
}

/// The abstract value of a prefix range: the first `depth` bits of `prefix`.
pub struct BucketRangeView {
    pub prefix: Seq<u8>,
    pub depth: nat,
}

impl BucketRangeView {
    /// The range is well formed: a 20-byte prefix and at most 160 bits deep.
    pub open spec fn wf(self) -> bool {
        self.prefix.len() == NODE_ID_BYTES && self.depth <= ID_BITS
    }

    /// Whether an identifier lies in the range.
    pub open spec fn contains(self, id: Seq<u8>) -> bool {
        prefix_matches(self.prefix, self.depth as int, id)
    }

    /// The range one bit deeper whose next prefix bit is `bit`.
    pub open spec fn child(self, bit: u8) -> BucketRangeView {
        let byte = self.depth / 8;
        BucketRangeView {
            prefix: self.prefix.update(
                byte as int,
                with_bit(self.prefix[byte as int], (7 - self.depth % 8) as u8, bit),
            ),
            depth: self.depth + 1,
        }
    }
}

/// Setting one bit of a byte leaves every other bit alone.
proof fn lemma_with_bit(x: u8, k: u8, bit: u8, j: u8)
    by (bit_vector)
    requires
        k < 8,
        j < 8,
        bit <= 1,
    ensures
        ((with_bit(x, k, bit) >> j) & 1u8) == (if j == k {
            bit
        } else {
            (x >> j) & 1u8
        }),
{
}

/// A single bit is either 0 or 1.
proof fn lemma_bit_le_one(x: u8, j: u8)
    by (bit_vector)
    ensures
        ((x >> j) & 1u8) <= 1,
{
}

/// Every bit of an identifier is 0 or 1.
pub proof fn lemma_id_bit_le_one(id: Seq<u8>, p: int)
    requires
        0 <= p,
        p / 8 < id.len(),
    ensures
        id_bit(id, p) <= 1,
{
    lemma_bit_le_one(id[p / 8], (7 - p % 8) as u8);
}

impl BucketRangeView {
    /// The child's prefix agrees with the parent on every bit but the one at
    /// the parent's depth, which holds `bit`.
    pub proof fn lemma_child_bits(self, bit: u8)
        requires
            self.wf(),
            self.depth < ID_BITS,
            bit <= 1,
        ensures
            self.child(bit).wf(),
            forall|p: int|
                0 <= p < ID_BITS ==> #[trigger] id_bit(self.child(bit).prefix, p) == (if p
                    == self.depth {
                    bit
                } else {
                    id_bit(self.prefix, p)
                }),
    {
        let c = self.child(bit);
        let byte = self.depth / 8;
        let k = (7 - self.depth % 8) as u8;
        assert forall|p: int| 0 <= p < ID_BITS implies #[trigger] id_bit(c.prefix, p) == (if p
            == self.depth {
            bit
        } else {
            id_bit(self.prefix, p)
        }) by {
            let j = (7 - p % 8) as u8;
            if p / 8 == byte {
                lemma_with_bit(self.prefix[byte as int], k, bit, j);
                if p != self.depth {
                    assert(j != k);
                }
            }
        }
    }

    /// An identifier lies in a child range exactly when it lies in the parent
    /// range and its bit at the parent's depth is the child's bit.
    pub proof fn lemma_child_contains(self, bit: u8, id: Seq<u8>)
        requires
            self.wf(),
            self.depth < ID_BITS,
            bit <= 1,
            id.len() == NODE_ID_BYTES,
        ensures
            self.child(bit).contains(id) <==> (self.contains(id) && id_bit(id, self.depth as int)
                == bit),
    {
        self.lemma_child_bits(bit);
        let c = self.child(bit);
        if c.contains(id) {
            assert forall|p: int| 0 <= p < self.depth implies #[trigger] id_bit(id, p) == id_bit(
                self.prefix,
                p,
            ) by {
                assert(id_bit(id, p) == id_bit(c.prefix, p));
            }
            assert(id_bit(id, self.depth as int) == id_bit(c.prefix, self.depth as int));
        }
        if self.contains(id) && id_bit(id, self.depth as int) == bit {
            assert forall|p: int| 0 <= p < c.depth implies #[trigger] id_bit(id, p) == id_bit(
                c.prefix,
                p,
            ) by {
                if p < self.depth {
                    assert(id_bit(id, p) == id_bit(self.prefix, p));
                }
            }
        }
    }

    /// Every identifier lies in exactly one of the two children of a range it
    /// lies in.
    pub proof fn lemma_children_partition(self, id: Seq<u8>)
        requires
            self.wf(),
            self.depth < ID_BITS,
            id.len() == NODE_ID_BYTES,
        ensures
            self.contains(id) <==> (self.child(0).contains(id) || self.child(1).contains(id)),
            !(self.child(0).contains(id) && self.child(1).contains(id)),
    {
        self.lemma_child_contains(0, id);
        self.lemma_child_contains(1, id);
        lemma_bit_le_one(id[(self.depth / 8) as int], (7 - self.depth % 8) as u8);
    }
}

/// The child of a range one bit deeper: its depth is one more, its prefix
/// agrees with the parent's on every bit before the parent's depth and holds
/// `bit` there, and it contains exactly the identifiers of the parent whose
/// bit at the parent's depth is `bit`. `BucketRange::child` computes this
/// child.
pub proof fn law_range_child(r: BucketRangeView, bit: u8)
    requires
        r.wf(),
        r.depth < ID_BITS,
        bit <= 1,
    ensures
        r.child(bit).wf(),
        r.child(bit).depth == r.depth + 1,
        forall|p: int| 0 <= p < r.depth ==> #[trigger] id_bit(r.child(bit).prefix, p) == id_bit(r.prefix, p),
        id_bit(r.child(bit).prefix, r.depth as int) == bit,
        forall|id: Seq<u8>|
            id.len() == NODE_ID_BYTES ==> (#[trigger] r.child(bit).contains(id) <==> (r.contains(id)
                && id_bit(id, r.depth as int) == bit)),
{
    r.lemma_child_bits(bit);
    assert forall|id: Seq<u8>| id.len() == NODE_ID_BYTES implies (#[trigger] r.child(bit).contains(
        id,
    ) <==> (r.contains(id) && id_bit(id, r.depth as int) == bit)) by {
        r.lemma_child_contains(bit, id);
    }
}

/// Filtering keeps identifiers distinct.
pub proof fn lemma_filter_ids_distinct(s: Seq<NodeView>, pred: spec_fn(NodeView) -> bool)
    requires
        ids_distinct(s),
    ensures
        ids_distinct(s.filter(pred)),
    decreases s.len(),
{
    reveal(Seq::filter);
    if s.len() > 0 {
        let rest = s.drop_last();
        assert(ids_distinct(rest));
        lemma_filter_ids_distinct(rest, pred);
        let f = rest.filter(pred);
        if pred(s.last()) {
            assert forall|i: int| 0 <= i < f.len() implies f[i].id != s.last().id by {
                assert(f.contains(f[i]));
                rest.lemma_filter_contains_rev(pred, f[i]);
                let j = choose|j: int| 0 <= j < rest.len() && rest[j] == f[i];
                assert(s[j] == rest[j]);
            }
            let g = f.push(s.last());
            assert forall|i: int, j: int|
                0 <= i < g.len() && 0 <= j < g.len() && i != j implies g[i].id != g[j].id by {
                if i == f.len() {
                    assert(f[j].id != s.last().id);
                } else if j == f.len() {
                    assert(f[i].id != s.last().id);
                } else {
                    assert(g[i] == f[i] && g[j] == f[j]);
                }
            }
        }
    }
}

/// Splitting loses and duplicates no node: every node goes to exactly one
/// child, so the children together hold as many nodes as the bucket did.
pub proof fn law_split_keeps_every_node(s: Seq<NodeView>, r: BucketRangeView)
    ensures
        s.filter(goes_to_zero(r)).len() + s.filter(goes_to_one(r)).len() == s.len(),
        forall|i: int|
            0 <= i < s.len() ==> (s.filter(goes_to_zero(r)).contains(#[trigger] s[i])
                || s.filter(goes_to_one(r)).contains(s[i])),
    decreases s.len(),
{
    let p0 = goes_to_zero(r);
    let p1 = goes_to_one(r);
    if s.len() > 0 {
        let rest = s.drop_last();
        law_split_keeps_every_node(rest, r);
        assert(s.filter(p0) == (if p0(s.last()) {
            rest.filter(p0).push(s.last())
        } else {
            rest.filter(p0)
        })) by {
            reveal_with_fuel(Seq::filter, 1);
        }
        assert(s.filter(p1) == (if p1(s.last()) {
            rest.filter(p1).push(s.last())
        } else {
            rest.filter(p1)
        })) by {
            reveal_with_fuel(Seq::filter, 1);
        }
    } else {
        reveal_with_fuel(Seq::filter, 1);
    }
    assert forall|i: int| 0 <= i < s.len() implies (s.filter(p0).contains(#[trigger] s[i])
        || s.filter(p1).contains(s[i])) by {
        if p0(s[i]) {
            s.lemma_filter_contains(p0, i);
        } else {
            s.lemma_filter_contains(p1, i);
        }
    }
}

/// Filtering keeps identifier lengths.
pub proof fn lemma_filter_ids_sized(s: Seq<NodeView>, pred: spec_fn(NodeView) -> bool)
    requires
        ids_sized(s),
    ensures
        ids_sized(s.filter(pred)),
{
    let f = s.filter(pred);
    assert forall|i: int| 0 <= i < f.len() implies (#[trigger] f[i]).id.len() == NODE_ID_BYTES by {
        assert(f.contains(f[i]));
        s.lemma_filter_contains_rev(pred, f[i]);
    }
}

/// A prefix range of the identifier space.
#[derive(Clone, Debug)]
pub struct BucketRange {
    prefix: [u8; 20],
    depth: u8,
}

impl View for BucketRange {
    type V = BucketRangeView;

    closed spec fn view(&self) -> BucketRangeView {
        BucketRangeView { prefix: self.prefix@, depth: self.depth as nat }
    }
}

impl BucketRange {
    /// The root range, which contains every possible node ID.
    fn root() -> (r: Self)
        ensures
            r@.wf(),
            r@.depth == 0,
            r@.prefix == Seq::new(NODE_ID_BYTES as nat, |i: int| 0u8),
    {
        let r = BucketRange { prefix: [0;20], depth: 0 };
        assert(r@.prefix =~= Seq::new(NODE_ID_BYTES as nat, |i: int| 0u8));
        r
    }

    /// Returns whether `id` shares this range's prefix.
    ///
    /// Identifiers are compared from the most significant bit to the least
    /// significant bit; a root range has no prefix bits and contains every
    /// identifier.
    fn contains(&self, id: &NodeID) -> (r: bool)
        requires
            self@.wf(),
        ensures
            r == self@.contains(id@),
    {
        let bytes = id.node_id();
        let depth = self.depth as usize;
        let mut bit_position: usize = 0;
        while bit_position < depth
            invariant
                depth == self@.depth,
                depth <= ID_BITS,
                bit_position <= depth,
                bytes@ == id@,
                bytes@.len() == NODE_ID_BYTES,
                forall|p: int|
                    0 <= p < bit_position ==> #[trigger] id_bit(id@, p) == id_bit(self@.prefix, p),
            decreases depth - bit_position,
        {
            // Eight bits make up one byte; bits are read from bit 7 down to 0.
            let byte_position = bit_position / 8;
            let bit_in_byte = (7 - bit_position % 8) as u8;
            let prefix_bit = (self.prefix[byte_position] >> bit_in_byte) & 1;
            let id_bit_value = (bytes[byte_position] >> bit_in_byte) & 1;
            assert(prefix_bit == id_bit(self@.prefix, bit_position as int));
            assert(id_bit_value == id_bit(id@, bit_position as int));
            if prefix_bit != id_bit_value {
                return false;
            }
            bit_position = bit_position + 1;
        }
        true
    }

    /// Creates the child range whose next prefix bit is `bit`.
    fn child(&self, bit: u8) -> (r: Self)
        requires
            self@.wf(),
            self@.depth < ID_BITS,
            bit <= 1,
        ensures
            r@ == self@.child(bit),
            r@.wf(),
            r@.depth == self@.depth + 1,
            forall|p: int|
                0 <= p < ID_BITS ==> #[trigger] id_bit(r@.prefix, p) == (if p == self@.depth {
                    bit
                } else {
                    id_bit(self@.prefix, p)
                }),
            forall|id: Seq<u8>|
                id.len() == NODE_ID_BYTES ==> (#[trigger] r@.contains(id) <==> (self@.contains(id)
                    && id_bit(id, self@.depth as int) == bit)),
    {
        proof {
            self@.lemma_child_bits(bit);
            assert forall|id: Seq<u8>| id.len() == NODE_ID_BYTES implies (#[trigger] self@.child(
                bit,
            ).contains(id) <==> (self@.contains(id) && id_bit(id, self@.depth as int) == bit)) by {
                self@.lemma_child_contains(bit, id);
            }
        }
        let mut prefix = self.prefix;
        let bit_position = self.depth as usize;
        let byte_position = bit_position / 8;
        let bit_in_byte = (7 - bit_position % 8) as u8;
        let mask: u8 = 1u8 << bit_in_byte;
        let cleared = prefix[byte_position] & !mask;
        prefix[byte_position] = cleared | (bit << bit_in_byte);
        let r = BucketRange { prefix, depth: self.depth + 1 };
        assert(r@.prefix =~= self@.child(bit).prefix);
        proof {
            self@.lemma_child_bits(bit);
        }
        r
    }
}

/// Stores the nodes whose identifiers belong to one prefix range of the
/// routing table.
#[derive(Clone, Debug)]
pub struct Bucket {
    range: BucketRange,
    nodes: Vec<Node>,
}

impl Bucket {
    /// The prefix range the bucket covers.
    pub closed spec fn range_view(&self) -> BucketRangeView {
        self.range@
    }

    /// The nodes of the bucket, in storage order.
    pub closed spec fn entries(&self) -> Seq<NodeView> {
        self.nodes@.map_values(|n: Node| n@)
    }

    /// The bucket is well formed: a well-formed range, at most
    /// `BUCKET_SIZE` nodes, and no identifier stored twice.
    pub closed spec fn wf(&self) -> bool {
        &&& self.range@.wf()
        &&& self.entries().len() <= BUCKET_SIZE
        &&& ids_distinct(self.entries())
        &&& ids_sized(self.entries())
    }

    /// Facts that every well-formed bucket satisfies.
    pub proof fn lemma_wf(&self)
        requires
            self.wf(),
        ensures
            self.range_view().wf(),
            self.entries().len() <= BUCKET_SIZE,
            ids_distinct(self.entries()),
            ids_sized(self.entries()),
    {
    }

    /// Creates an empty bucket covering the whole identifier space.
    pub fn new() -> (r: Self)
        ensures
            r.wf(),
            r.entries() == Seq::<NodeView>::empty(),
            r.range_view().depth == 0,
            r.range_view().prefix == Seq::new(NODE_ID_BYTES as nat, |i: int| 0u8),
    {
        let r = Bucket { range: BucketRange::root(), nodes: Vec::new() };
        assert(r.entries() =~= Seq::<NodeView>::empty());
        r
    }

    /// Creates the initial collection of buckets: one empty root bucket.
    pub fn new_bucket_collection() -> (r: Vec<Bucket>)
        ensures
            r@.len() == 1,
            r@[0].wf(),
            r@[0].entries() == Seq::<NodeView>::empty(),
            r@[0].range_view().depth == 0,
    {
        let mut r = Vec::new();
        r.push(Bucket::new());
        r
    }

    /// Returns whether the node ID belongs to this bucket's range.
    pub fn contains(&self, id: &NodeID) -> (r: bool)
        requires
            self.wf(),
        ensures
            r == self.range_view().contains(id@),
    {
        self.range.contains(id)
    }

    /// Returns whether this bucket can be split into two child ranges.
    pub fn can_split(&self) -> (r: bool)
        requires
            self.wf(),
        ensures
            r == (self.range_view().depth < ID_BITS),
    {
        (self.range.depth as usize) < NODE_ID_BYTES * 8
    }

    /// Returns the stored nodes, in storage order.
    pub fn nodes(&self) -> (r: &[Node])
        ensures
            r@.map_values(|n: Node| n@) == self.entries(),
    {
        self.nodes.as_slice()
    }

    /// Splits this bucket into a `0` child and a `1` child.
    ///
    /// Nodes are redistributed according to the next bit after the current
    /// range prefix: a node goes to the `0` child when that child's range
    /// contains it, and to the `1` child otherwise.
    pub fn split(self) -> (r: (Bucket, Bucket))
        requires
            self.wf(),
            self.range_view().depth < ID_BITS,
        ensures
            r.0.wf(),
            r.1.wf(),
            r.0.range_view() == self.range_view().child(0),
            r.1.range_view() == self.range_view().child(1),
            r.0.entries() == self.entries().filter(goes_to_zero(self.range_view())),
            r.1.entries() == self.entries().filter(goes_to_one(self.range_view())),
    {
        let zero_range = self.range.child(0);
        let one_range = self.range.child(1);
        let ghost all = self.entries();
        let ghost c0 = self.range_view().child(0);
        let ghost p0 = goes_to_zero(self.range_view());
        let ghost p1 = goes_to_one(self.range_view());
        let mut zero = Bucket { range: zero_range, nodes: Vec::new() };
        let mut one = Bucket { range: one_range, nodes: Vec::new() };
        let mut rest = self.nodes;
        let n = rest.len();
        let mut i: usize = 0;
        assert(zero.entries() =~= all.take(0).filter(p0)) by {
            reveal(Seq::filter);
        }
        assert(one.entries() =~= all.take(0).filter(p1)) by {
            reveal(Seq::filter);
        }
        while i < n
            invariant
                n == all.len(),
                i <= n,
                rest@.map_values(|x: Node| x@) == all.skip(i as int),
                zero.range@ == c0,
                c0 == self.range_view().child(0),
                p0 == goes_to_zero(self.range_view()),
                p1 == goes_to_one(self.range_view()),
                c0.wf(),
                zero.entries() == all.take(i as int).filter(p0),
                one.entries() == all.take(i as int).filter(p1),
                one.range@ == self.range_view().child(1),
            decreases n - i,
        {
            let ghost before0 = zero.entries();
            let ghost before1 = one.entries();
            let ghost rest_view = rest@.map_values(|x: Node| x@);
            let ghost old_rest = rest@;
            assert(rest_view.len() == rest@.len());
            assert(rest_view[0] == rest@[0]@);
            assert(all.skip(i as int)[0] == all[i as int]);
            let node = rest.remove(0);
            assert(node@ == all[i as int]);
            assert forall|k: int| 0 <= k < rest@.len() implies #[trigger] rest@[k]@ == all.skip(
                i + 1,
            )[k] by {
                assert(rest@[k] == old_rest[k + 1]);
                assert(rest_view[k + 1] == old_rest[k + 1]@);
                assert(all.skip(i as int)[k + 1] == all.skip(i + 1)[k]);
            }
            assert(rest@.map_values(|x: Node| x@) =~= all.skip(i + 1));
            let node_id = node.id();
            let in_zero = zero.range.contains(node_id);
            assert(node_id@ == all[i as int].id);
            assert(in_zero == c0.contains(all[i as int].id));
            assert(p0(all[i as int]) == in_zero);
            assert(p1(all[i as int]) == !in_zero);
            assert(all.take(i + 1).drop_last() =~= all.take(i as int));
            assert(all.take(i + 1).last() == all[i as int]);
            assert(all.take(i + 1).filter(p0) == (if in_zero {
                before0.push(all[i as int])
            } else {
                before0
            })) by {
                reveal_with_fuel(Seq::filter, 1);
            }
            assert(all.take(i + 1).filter(p1) == (if in_zero {
                before1
            } else {
                before1.push(all[i as int])
            })) by {
                reveal_with_fuel(Seq::filter, 1);
            }
            if in_zero {
                zero.nodes.push(node);
                assert(zero.entries() =~= before0.push(all[i as int]));
            } else {
                one.nodes.push(node);
                assert(one.entries() =~= before1.push(all[i as int]));
            }
            i = i + 1;
        }
        assert(all.take(n as int) =~= all);
        proof {
            lemma_filter_ids_distinct(all, p0);
            lemma_filter_ids_distinct(all, p1);
            lemma_filter_ids_sized(all, p0);
            lemma_filter_ids_sized(all, p1);
            all.lemma_filter_len(p0);
            all.lemma_filter_len(p1);
            self.range_view().lemma_child_bits(1);
        }
        (zero, one)
    }

    /// Returns whether observing a node with identifier `id` would succeed:
    /// the identifier is already stored or the bucket has room.
    pub fn accepts(&self, id: &NodeID) -> (r: bool)
        requires
            self.wf(),
        ensures
            r == (has_id(self.entries(), id@) || self.entries().len() < BUCKET_SIZE),
    {
        match self.find(id) {
            Some(_) => true,
            None => self.nodes.len() < BUCKET_SIZE,
        }
    }

    /// Returns the position of the node with identifier `id`, if stored.
    fn find(&self, id: &NodeID) -> (r: Option<usize>)
        ensures
            match r {
                Some(i) => i < self.entries().len() && self.entries()[i as int].id == id@,
                None => !has_id(self.entries(), id@),
            },
    {
        let mut i: usize = 0;
        while i < self.nodes.len()
            invariant
                i <= self.nodes@.len(),
                forall|j: int| 0 <= j < i ==> self.entries()[j].id != id@,
            decreases self.nodes@.len() - i,
        {
            if self.nodes[i].id() == id {
                return Some(i);
            }
            i = i + 1;
        }
        None
    }

    /// Adds a node to the bucket.
    ///
    /// A node with an existing identifier but a different endpoint replaces
    /// the stored node without consuming another bucket slot.
    ///
    /// Returns [`BucketError::NodeAlreadyInBucket`] if the same node is
    /// already stored, and [`BucketError::Full`] if the bucket already holds
    /// `BUCKET_SIZE` other nodes.
    pub fn add(&mut self, node: Node) -> (r: Result<(), BucketError>)
        requires
            old(self).wf(),
        ensures
            final(self).wf(),
            final(self).range_view() == old(self).range_view(),
            forall|i: int|
                0 <= i < old(self).entries().len() && old(self).entries()[i].id == node@.id ==> (
                if old(self).entries()[i] == node@ {
                    r == Err::<(), BucketError>(BucketError::NodeAlreadyInBucket)
                        && final(self).entries() == old(self).entries()
                } else {
                    r == Ok::<(), BucketError>(()) && final(self).entries() == old(
                        self,
                    ).entries().update(i, node@)
                }),
            !has_id(old(self).entries(), node@.id) ==> (if old(self).entries().len()
                < BUCKET_SIZE {
                r == Ok::<(), BucketError>(()) && final(self).entries() == old(
                    self,
                ).entries().push(node@)
            } else {
                r == Err::<(), BucketError>(BucketError::Full) && final(self).entries() == old(
                    self,
                ).entries()
            }),
    {
        match self.find(node.id()) {
            Some(i) => {
                if self.nodes[i] == node {
                    return Err(BucketError::NodeAlreadyInBucket);
                }
                self.replace(i, node);
                Ok(())
            },
            None => {
                if self.nodes.len() < BUCKET_SIZE {
                    self.append(node);
                    Ok(())
                } else {
                    Err(BucketError::Full)
                }
            },
        }
    }

    /// Records a node observation.
    ///
    /// Observing a stored identifier refreshes the stored node in place;
    /// observing a new identifier stores it if the bucket has room, and
    /// otherwise returns [`BucketError::Full`].
    pub fn observe(&mut self, node: Node) -> (r: Result<(), BucketError>)
        requires
            old(self).wf(),
        ensures
            final(self).wf(),
            final(self).range_view() == old(self).range_view(),
            forall|i: int|
                0 <= i < old(self).entries().len() && old(self).entries()[i].id == node@.id ==> r
                    == Ok::<(), BucketError>(()) && final(self).entries() == old(
                    self,
                ).entries().update(i, node@),
            !has_id(old(self).entries(), node@.id) ==> (if old(self).entries().len()
                < BUCKET_SIZE {
                r == Ok::<(), BucketError>(()) && final(self).entries() == old(
                    self,
                ).entries().push(node@)
            } else {
                r == Err::<(), BucketError>(BucketError::Full) && final(self).entries() == old(
                    self,
                ).entries()
            }),
    {
        match self.find(node.id()) {
            Some(i) => {
                self.replace(i, node);
                Ok(())
            },
            None => {
                if self.nodes.len() < BUCKET_SIZE {
                    self.append(node);
                    Ok(())
                } else {
                    Err(BucketError::Full)
                }
            },
        }
    }

    /// Replaces the node at position `i` by a node with the same identifier.
    fn replace(&mut self, i: usize, node: Node)
        requires
            old(self).wf(),
            i < old(self).entries().len(),
            old(self).entries()[i as int].id == node@.id,
        ensures
            final(self).wf(),
            final(self).range_view() == old(self).range_view(),
            final(self).entries() == old(self).entries().update(i as int, node@),
            forall|j: int|
                0 <= j < old(self).entries().len() && old(self).entries()[j].id == node@.id ==> j
                    == i,
    {
        let ghost old_entries = self.entries();
        proof {
            node.lemma_id_len();
        }
        self.nodes[i] = node;
        assert(self.entries() =~= old_entries.update(i as int, node@));
    }

    /// Stores a node whose identifier is new, in a bucket with room.
    fn append(&mut self, node: Node)
        requires
            old(self).wf(),
            !has_id(old(self).entries(), node@.id),
            old(self).entries().len() < BUCKET_SIZE,
        ensures
            final(self).wf(),
            final(self).range_view() == old(self).range_view(),
            final(self).entries() == old(self).entries().push(node@),
    {
        let ghost old_entries = self.entries();
        proof {
            node.lemma_id_len();
        }
        self.nodes.push(node);
        assert(self.entries() =~= old_entries.push(node@));
        assert forall|i: int, j: int|
            0 <= i < self.entries().len() && 0 <= j < self.entries().len() && i != j implies
            self.entries()[i].id != self.entries()[j].id by {
            if i == old_entries.len() {
                assert(old_entries[j].id != node@.id);
            } else if j == old_entries.len() {
                assert(old_entries[i].id != node@.id);
            }
        }
    }
}

} // verus!
