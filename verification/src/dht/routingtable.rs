//! The routing table of a DHT node.

use vstd::prelude::*;

use super::bucket::{
    goes_to_one, goes_to_zero, has_id, id_bit, ids_distinct, ids_sized, lemma_id_bit_le_one,
    prefix_matches, Bucket, BucketRangeView, BUCKET_SIZE, ID_BITS,
};
use super::errors::{BucketError, DhtError, RoutingTableError};
use super::node::{
    distance_lt, lemma_lex_asymmetric, lemma_lex_irreflexive, lemma_lex_not_below_zero,
    lemma_lex_total, lemma_lex_transitive, lemma_xor_self_zero, lemma_xor_injective, lex_lt, xor_bytes, Node, NodeID, NodeView,
    NODE_ID_BYTES,
};

verus! {

/// Whether some bucket's range contains `id`.
pub open spec fn covered(bs: Seq<Bucket>, id: Seq<u8>) -> bool {
    exists|i: int| 0 <= i < bs.len() && #[trigger] bs[i].range_view().contains(id)
}

/// The bucket ranges partition the identifier space: every identifier lies
/// in exactly one bucket's range.
pub open spec fn partitions(bs: Seq<Bucket>) -> bool {
    &&& forall|id: Seq<u8>| id.len() == NODE_ID_BYTES ==> #[trigger] covered(bs, id)
    &&& forall|id: Seq<u8>, i: int, j: int|
        id.len() == NODE_ID_BYTES && 0 <= i < bs.len() && 0 <= j < bs.len()
            && #[trigger] bs[i].range_view().contains(id) && #[trigger] bs[j].range_view().contains(
            id,
        ) ==> i == j
}

/// Every stored node lies in the range of the bucket that holds it.
pub open spec fn placed(bs: Seq<Bucket>) -> bool {
    forall|i: int, j: int|
        0 <= i < bs.len() && 0 <= j < bs[i].entries().len() ==> bs[i].range_view().contains(
            #[trigger] bs[i].entries()[j].id,
        )
}

/// No stored node has the identifier `local`.
pub open spec fn excludes(bs: Seq<Bucket>, local: Seq<u8>) -> bool {
    forall|i: int, j: int|
        0 <= i < bs.len() && 0 <= j < bs[i].entries().len() ==> #[trigger] bs[i].entries()[j].id
            != local
}

/// Every bucket is well formed.
pub open spec fn buckets_wf(bs: Seq<Bucket>) -> bool {
    forall|i: int| 0 <= i < bs.len() ==> #[trigger] bs[i].wf()
}

/// Whether some bucket stores the node `n`.
pub open spec fn holds(bs: Seq<Bucket>, n: NodeView) -> bool {
    exists|i: int, j: int|
        0 <= i < bs.len() && 0 <= j < bs[i].entries().len() && #[trigger] bs[i].entries()[j] == n
}

/// The set of nodes stored in the buckets.
pub open spec fn stored(bs: Seq<Bucket>) -> Set<NodeView> {
    Set::new(|n: NodeView| holds(bs, n))
}

/// Whether a node with identifier `id` cannot be stored: the bucket whose
/// range contains `id` holds `BUCKET_SIZE` other nodes and either does not
/// contain `local` or is already at the maximum depth.
pub open spec fn blocked(bs: Seq<Bucket>, id: Seq<u8>, local: Seq<u8>) -> bool {
    exists|i: int|
        0 <= i < bs.len() && #[trigger] bs[i].range_view().contains(id) && bs[i].entries().len()
            == BUCKET_SIZE && !has_id(bs[i].entries(), id) && (!bs[i].range_view().contains(local)
            || bs[i].range_view().depth == ID_BITS)
}

/// The XOR distance of node `n` from `target`.
pub open spec fn distance_to(target: Seq<u8>, n: NodeView) -> Seq<u8> {
    xor_bytes(target, n.id)
}

/// Whether node `n` is strictly farther from `target` than `last`, when
/// there is a `last` distance.
pub open spec fn beyond(target: Seq<u8>, last: Option<[u8; 20]>, n: NodeView) -> bool {
    match last {
        None => true,
        Some(l) => lex_lt(l@, distance_to(target, n)),
    }
}

/// `s` with every node sharing `n`'s identifier replaced by `n`.
pub open spec fn with_node(s: Set<NodeView>, n: NodeView) -> Set<NodeView> {
    Set::new(|m: NodeView| (s.contains(m) && m.id != n.id) || m == n)
}

/// Reading a table after a node was stored gives that node back: it is
/// held, it is the only node held with its identifier, and the nodes with
/// other identifiers are those held before.
pub proof fn law_with_node(s: Set<NodeView>, n: NodeView)
    ensures
        with_node(s, n).contains(n),
        forall|m: NodeView| #[trigger] with_node(s, n).contains(m) && m.id == n.id ==> m == n,
        forall|m: NodeView|
            m.id != n.id ==> (#[trigger] with_node(s, n).contains(m) <==> s.contains(m)),
{
}

/// Whether the parent of range `r` contains `local`: `r` is the root, or
/// its prefix agrees with `local` on every bit but the last.
pub open spec fn parent_holds(r: BucketRangeView, local: Seq<u8>) -> bool {
    r.depth == 0 || prefix_matches(r.prefix, r.depth - 1, local)
}

/// The buckets lie along the local identifier's split path: every bucket is
/// the root or a child of a range that contains `local`. So only ranges that
/// contain the local identifier have ever been split.
pub open spec fn along_local_path(bs: Seq<Bucket>, local: Seq<u8>) -> bool {
    forall|i: int| 0 <= i < bs.len() ==> parent_holds(#[trigger] bs[i].range_view(), local)
}

/// Whether node `n` agrees with identifier `id` on the first `d` bits.
#[verifier::opaque]
pub open spec fn shares_prefix(id: Seq<u8>, d: int) -> spec_fn(NodeView) -> bool {
    |n: NodeView| prefix_matches(id, d, n.id)
}

/// How the bucket `bk` of a table of `new_len` buckets may have come from
/// the bucket `b0` of a table of `old_len` buckets, both holding `id`, by an
/// insert of `id`: `b0` was split, one level at a time, from its depth `d0`
/// down to the depth `dk` of `bk`, and each split added one bucket. A split
/// at depth `d` happens only while `id` is not stored, the range of depth
/// `d` around `id` also contains `local`, `d` is below `ID_BITS`, and
/// `BUCKET_SIZE` of `b0`'s nodes share `id`'s first `d` bits (the range being
/// split was full).
pub open spec fn split_from(
    b0: Bucket,
    bk: Bucket,
    old_len: nat,
    new_len: nat,
    id: Seq<u8>,
    local: Seq<u8>,
) -> bool {
    &&& b0.range_view().depth <= bk.range_view().depth
    &&& new_len == old_len + (bk.range_view().depth - b0.range_view().depth)
    &&& forall|d: int|
        b0.range_view().depth <= d < bk.range_view().depth ==> split_allowed(b0, id, local, d)
}

/// Whether the range of depth `d` around `id` may be split by an insert of
/// `id` into a table whose bucket holding `id` was `b0`: `id` is not
/// stored, the range contains `local`, `d` is below `ID_BITS`, and
/// `BUCKET_SIZE` of `b0`'s nodes share `id`'s first `d` bits.
pub open spec fn split_allowed(b0: Bucket, id: Seq<u8>, local: Seq<u8>, d: int) -> bool {
    &&& d < ID_BITS
    &&& prefix_matches(id, d, local)
    &&& !has_id(b0.entries(), id)
    &&& b0.entries().filter(shares_prefix(id, d)).len() == BUCKET_SIZE
}

/// How an insert of identifier `id` may reshape the buckets `old_bs` into
/// `new_bs`: the bucket that holds `id` afterwards came from the one that
/// held it before as [`split_from`] says, and no other bucket was split.
pub open spec fn split_along(
    old_bs: Seq<Bucket>,
    new_bs: Seq<Bucket>,
    id: Seq<u8>,
    local: Seq<u8>,
) -> bool {
    forall|i: int, j: int|
        0 <= i < old_bs.len() && 0 <= j < new_bs.len() && #[trigger] old_bs[i].range_view().contains(
            id,
        ) && #[trigger] new_bs[j].range_view().contains(id) ==> split_from(
            old_bs[i],
            new_bs[j],
            old_bs.len(),
            new_bs.len(),
            id,
            local,
        )
}

/// Whether an insert of the new identifier `id`, whose bucket holds the
/// nodes `e0` and has depth `d`, ends full: the nodes sharing `id`'s first
/// `d` bits fill a bucket, and the range cannot be split (it is `ID_BITS`
/// deep or does not contain `local`) or its split leaves `id`'s side full
/// in the same way.
pub open spec fn stays_full(e0: Seq<NodeView>, id: Seq<u8>, local: Seq<u8>, d: int) -> bool
    decreases ID_BITS - d,
{
    if e0.filter(shares_prefix(id, d)).len() < BUCKET_SIZE {
        false
    } else if d >= ID_BITS || !prefix_matches(id, d, local) {
        true
    } else {
        stays_full(e0, id, local, d + 1)
    }
}

/// A bucket with room never ends an insert full.
pub proof fn law_room_is_never_full(e0: Seq<NodeView>, id: Seq<u8>, local: Seq<u8>, d: int)
    requires
        e0.len() < BUCKET_SIZE,
    ensures
        !stays_full(e0, id, local, d),
{
    e0.lemma_filter_len(shares_prefix(id, d));
}

/// An identifier is stored among some nodes exactly when it is stored among
/// those of them that share its first `d` bits.
proof fn lemma_has_id_filter(e0: Seq<NodeView>, id: Seq<u8>, d: int)
    ensures
        has_id(e0, id) <==> has_id(e0.filter(shares_prefix(id, d)), id),
{
    let f = e0.filter(shares_prefix(id, d));
    if has_id(e0, id) {
        let j = choose|j: int| 0 <= j < e0.len() && #[trigger] e0[j].id == id;
        assert(shares_prefix(id, d)(e0[j])) by {
            reveal(shares_prefix);
        }
        e0.lemma_filter_contains(shares_prefix(id, d), j);
        let m = choose|m: int| 0 <= m < f.len() && f[m] == e0[j];
        assert(f[m].id == id);
    }
    if has_id(f, id) {
        let m = choose|m: int| 0 <= m < f.len() && #[trigger] f[m].id == id;
        assert(f.contains(f[m]));
        e0.lemma_filter_contains_rev(shares_prefix(id, d), f[m]);
        let j = choose|j: int| 0 <= j < e0.len() && e0[j] == f[m];
        assert(e0[j].id == id);
    }
}

/// Filtering a sequence with one more element at the end.
proof fn lemma_filter_push<A>(a: Seq<A>, x: A, pred: spec_fn(A) -> bool)
    ensures
        a.push(x).filter(pred) == (if pred(x) {
            a.filter(pred).push(x)
        } else {
            a.filter(pred)
        }),
{
    assert(a.push(x).drop_last() =~= a);
    reveal_with_fuel(Seq::filter, 1);
}

/// Filtering by a predicate that every element meets keeps the sequence.
proof fn lemma_filter_all<A>(s: Seq<A>, pred: spec_fn(A) -> bool)
    requires
        forall|i: int| 0 <= i < s.len() ==> pred(#[trigger] s[i]),
    ensures
        s.filter(pred) == s,
    decreases s.len(),
{
    if s.len() > 0 {
        let init = s.drop_last();
        lemma_filter_all(init, pred);
        assert(init.push(s.last()) =~= s);
        lemma_filter_push(init, s.last(), pred);
    } else {
        reveal_with_fuel(Seq::filter, 1);
    }
}

/// Filtering twice is filtering once by a predicate that, on the elements
/// of the sequence, holds exactly where both do.
proof fn lemma_filter_filter<A>(
    s: Seq<A>,
    p: spec_fn(A) -> bool,
    q: spec_fn(A) -> bool,
    r: spec_fn(A) -> bool,
)
    requires
        forall|i: int| 0 <= i < s.len() ==> (p(#[trigger] s[i]) && q(s[i])) == r(s[i]),
    ensures
        s.filter(p).filter(q) == s.filter(r),
    decreases s.len(),
{
    if s.len() > 0 {
        let init = s.drop_last();
        let x = s.last();
        assert(init.push(x) =~= s);
        assert forall|i: int| 0 <= i < init.len() implies (p(#[trigger] init[i]) && q(init[i]))
            == r(init[i]) by {
            assert(init[i] == s[i]);
        }
        lemma_filter_filter(init, p, q, r);
        lemma_filter_push(init, x, p);
        lemma_filter_push(init, x, r);
        lemma_filter_push(init.filter(p), x, q);
        assert(s[s.len() - 1] == x);
    } else {
        reveal_with_fuel(Seq::filter, 1);
    }
}

/// Splitting the range that holds `id` leaves, in the child that holds
/// `id`, exactly the old bucket's nodes that share one more bit with `id`.
proof fn lemma_split_child_entries(
    e0: Seq<NodeView>,
    id: Seq<u8>,
    r: BucketRangeView,
    entries: Seq<NodeView>,
    bit: u8,
)
    requires
        r.wf(),
        r.depth < ID_BITS,
        id.len() == NODE_ID_BYTES,
        r.contains(id),
        ids_sized(e0),
        entries == e0.filter(shares_prefix(id, r.depth as int)),
        bit <= 1,
        r.child(bit).contains(id),
    ensures
        entries.filter(
            if bit == 0 {
                goes_to_zero(r)
            } else {
                goes_to_one(r)
            },
        ) == e0.filter(shares_prefix(id, r.depth as int + 1)),
{
    reveal(shares_prefix);
    let d = r.depth as int;
    let g = if bit == 0 {
        goes_to_zero(r)
    } else {
        goes_to_one(r)
    };
    r.lemma_child_contains(bit, id);
    assert forall|i: int| 0 <= i < e0.len() implies (shares_prefix(id, d)(#[trigger] e0[i]) && g(
        e0[i],
    )) == shares_prefix(id, d + 1)(e0[i]) by {
        let x = e0[i].id;
        assert(x.len() == NODE_ID_BYTES);
        r.lemma_child_contains(0, x);
        lemma_id_bit_le_one(x, d);
        lemma_id_bit_le_one(id, d);
        // On the first `d` bits, lying in `r` and sharing `id`'s bits agree.
        assert(r.contains(x) == prefix_matches(id, d, x)) by {
            if r.contains(x) {
                assert forall|p: int| 0 <= p < d implies #[trigger] id_bit(x, p) == id_bit(id, p) by {
                    assert(id_bit(x, p) == id_bit(r.prefix, p));
                    assert(id_bit(id, p) == id_bit(r.prefix, p));
                }
            }
            if prefix_matches(id, d, x) {
                assert forall|p: int| 0 <= p < d implies #[trigger] id_bit(x, p) == id_bit(
                    r.prefix,
                    p,
                ) by {
                    assert(id_bit(x, p) == id_bit(id, p));
                    assert(id_bit(id, p) == id_bit(r.prefix, p));
                }
            }
        }
        assert(prefix_matches(id, d + 1, x) == (prefix_matches(id, d, x) && id_bit(x, d) == id_bit(
            id,
            d,
        ))) by {
            if prefix_matches(id, d, x) && id_bit(x, d) == id_bit(id, d) {
                assert forall|p: int| 0 <= p < d + 1 implies #[trigger] id_bit(x, p) == id_bit(
                    id,
                    p,
                ) by {
                    if p < d {
                        assert(id_bit(x, p) == id_bit(id, p));
                    }
                }
            }
        }
    }
    lemma_filter_filter(e0, shares_prefix(id, d), g, shares_prefix(id, d + 1));
}

/// Splitting a bucket whose range contains `local` keeps the buckets along
/// the local identifier's split path.
proof fn lemma_split_path(old_bs: Seq<Bucket>, local: Seq<u8>, idx: int, zero: Bucket, one: Bucket)
    requires
        along_local_path(old_bs, local),
        0 <= idx < old_bs.len(),
        old_bs[idx].range_view().wf(),
        old_bs[idx].range_view().depth < ID_BITS,
        old_bs[idx].range_view().contains(local),
        zero.range_view() == old_bs[idx].range_view().child(0),
        one.range_view() == old_bs[idx].range_view().child(1),
    ensures
        along_local_path(old_bs.remove(idx).insert(idx, one).insert(idx, zero), local),
{
    let new_bs = old_bs.remove(idx).insert(idx, one).insert(idx, zero);
    let r = old_bs[idx].range_view();
    r.lemma_child_bits(0);
    r.lemma_child_bits(1);
    assert forall|i: int| 0 <= i < new_bs.len() implies parent_holds(
        #[trigger] new_bs[i].range_view(),
        local,
    ) by {
        if i == idx || i == idx + 1 {
            let c = new_bs[i].range_view();
            assert(c.depth == r.depth + 1);
            assert forall|p: int| 0 <= p < c.depth - 1 implies #[trigger] id_bit(local, p) == id_bit(
                c.prefix,
                p,
            ) by {
                assert(id_bit(local, p) == id_bit(r.prefix, p));
            }
        } else if i < idx {
            assert(new_bs[i] == old_bs[i]);
        } else {
            assert(new_bs[i] == old_bs[i - 1]);
        }
    }
}

/// Replacing buckets by buckets with the same ranges keeps the partition.
proof fn lemma_same_ranges(old_bs: Seq<Bucket>, new_bs: Seq<Bucket>)
    requires
        partitions(old_bs),
        old_bs.len() == new_bs.len(),
        forall|i: int| 0 <= i < old_bs.len() ==> new_bs[i].range_view() == old_bs[i].range_view(),
    ensures
        partitions(new_bs),
{
    assert forall|id: Seq<u8>| id.len() == NODE_ID_BYTES implies #[trigger] covered(new_bs, id) by {
        assert(covered(old_bs, id));
        let i = choose|i: int| 0 <= i < old_bs.len() && #[trigger] old_bs[i].range_view().contains(
            id,
        );
        assert(new_bs[i].range_view().contains(id));
    }
    assert forall|id: Seq<u8>, i: int, j: int|
        id.len() == NODE_ID_BYTES && 0 <= i < new_bs.len() && 0 <= j < new_bs.len()
            && #[trigger] new_bs[i].range_view().contains(id) && #[trigger] new_bs[j].range_view().contains(
            id,
        ) implies i == j by {
        assert(old_bs[i].range_view().contains(id));
        assert(old_bs[j].range_view().contains(id));
    }
}

/// Storing a node in the bucket whose range contains it keeps the table
/// well formed and adds the node, replacing any node with its identifier.
proof fn lemma_store_step(
    old_bs: Seq<Bucket>,
    local: Seq<u8>,
    idx: int,
    b: Bucket,
    n: NodeView,
)
    requires
        buckets_wf(old_bs),
        partitions(old_bs),
        placed(old_bs),
        excludes(old_bs, local),
        0 <= idx < old_bs.len(),
        old_bs[idx].range_view().contains(n.id),
        n.id != local,
        b.wf(),
        b.range_view() == old_bs[idx].range_view(),
        (exists|j: int|
            0 <= j < old_bs[idx].entries().len() && old_bs[idx].entries()[j].id == n.id
                && b.entries() == old_bs[idx].entries().update(j, n)) || (!has_id(
            old_bs[idx].entries(),
            n.id,
        ) && b.entries() == old_bs[idx].entries().push(n)),
    ensures
        buckets_wf(old_bs.update(idx, b)),
        partitions(old_bs.update(idx, b)),
        placed(old_bs.update(idx, b)),
        excludes(old_bs.update(idx, b), local),
        stored(old_bs.update(idx, b)) == with_node(stored(old_bs), n),
{
    let new_bs = old_bs.update(idx, b);
    let old_e = old_bs[idx].entries();
    let new_e = b.entries();
    old_bs[idx].lemma_wf();
    lemma_same_ranges(old_bs, new_bs);
    // Entries of the updated bucket are the stored node or old entries with
    // other identifiers.
    assert forall|j: int| 0 <= j < new_e.len() implies new_e[j] == n || (exists|k: int|
        0 <= k < old_e.len() && old_e[k] == new_e[j] && old_e[k].id != n.id) by {
        if new_e[j] != n {
            if exists|j0: int|
                0 <= j0 < old_e.len() && old_e[j0].id == n.id && new_e == old_e.update(j0, n) {
                let j0 = choose|j0: int|
                    0 <= j0 < old_e.len() && old_e[j0].id == n.id && new_e == old_e.update(j0, n);
                assert(j != j0);
                assert(old_e[j] == new_e[j]);
                assert(old_e[j].id != old_e[j0].id);
            } else {
                assert(j < old_e.len());
                assert(old_e[j] == new_e[j]);
            }
        }
    }
    // Old entries with another identifier stay, and the node is stored.
    assert forall|k: int| 0 <= k < old_e.len() && old_e[k].id != n.id implies exists|j: int|
        0 <= j < new_e.len() && #[trigger] new_e[j] == old_e[k] by {
        assert(new_e[k] == old_e[k]);
    }
    assert(exists|j: int| 0 <= j < new_e.len() && #[trigger] new_e[j] == n) by {
        if exists|j0: int|
            0 <= j0 < old_e.len() && old_e[j0].id == n.id && new_e == old_e.update(j0, n) {
            let j0 = choose|j0: int|
                0 <= j0 < old_e.len() && old_e[j0].id == n.id && new_e == old_e.update(j0, n);
            assert(new_e[j0] == n);
        } else {
            assert(new_e[old_e.len() as int] == n);
        }
    }
    assert forall|i: int| 0 <= i < new_bs.len() implies #[trigger] new_bs[i].wf() by {
        if i != idx {
            assert(old_bs[i].wf());
        }
    }
    assert forall|i: int, j: int|
        0 <= i < new_bs.len() && 0 <= j < new_bs[i].entries().len() implies new_bs[i].range_view().contains(
        #[trigger] new_bs[i].entries()[j].id,
    ) && new_bs[i].entries()[j].id != local by {
        if i != idx {
            assert(old_bs[i].entries()[j] == new_bs[i].entries()[j]);
        } else if new_e[j] != n {
            let k = choose|k: int| 0 <= k < old_e.len() && old_e[k] == new_e[j] && old_e[k].id != n.id;
            assert(old_bs[idx].entries()[k] == old_e[k]);
        }
    }
    assert forall|m: NodeView| holds(new_bs, m) == ((stored(old_bs).contains(m) && m.id != n.id) || m == n) by {
        if holds(new_bs, m) {
            let (i, j) = choose|i: int, j: int|
                0 <= i < new_bs.len() && 0 <= j < new_bs[i].entries().len() && #[trigger] new_bs[i].entries()[j] == m;
            if i != idx {
                assert(old_bs[i].entries()[j] == m);
                assert(old_bs[i].range_view().contains(m.id));
                assert(old_bs[i].wf());
                old_bs[i].lemma_wf();
                assert(m.id.len() == NODE_ID_BYTES);
                if m.id == n.id {
                    assert(old_bs[idx].range_view().contains(m.id));
                }
                assert(holds(old_bs, m));
            } else if m != n {
                let k = choose|k: int| 0 <= k < old_e.len() && old_e[k] == new_e[j] && old_e[k].id != n.id;
                assert(old_bs[idx].entries()[k] == m);
                assert(holds(old_bs, m));
            }
        }
        if stored(old_bs).contains(m) && m.id != n.id {
            let (i, k) = choose|i: int, k: int|
                0 <= i < old_bs.len() && 0 <= k < old_bs[i].entries().len() && #[trigger] old_bs[i].entries()[k] == m;
            if i != idx {
                assert(new_bs[i].entries()[k] == m);
            } else {
                let j = choose|j: int| 0 <= j < new_e.len() && #[trigger] new_e[j] == old_e[k];
                assert(new_bs[idx].entries()[j] == m);
            }
        }
        if m == n {
            let j = choose|j: int| 0 <= j < new_e.len() && #[trigger] new_e[j] == n;
            assert(new_bs[idx].entries()[j] == m);
        }
    }
    assert(stored(new_bs) =~= with_node(stored(old_bs), n));
}

/// Replacing a bucket by its two children keeps the table well formed and
/// keeps the stored nodes.
proof fn lemma_split_step(old_bs: Seq<Bucket>, local: Seq<u8>, idx: int, zero: Bucket, one: Bucket)
    requires
        buckets_wf(old_bs),
        partitions(old_bs),
        placed(old_bs),
        excludes(old_bs, local),
        0 <= idx < old_bs.len(),
        old_bs[idx].range_view().depth < ID_BITS,
        zero.wf(),
        one.wf(),
        zero.range_view() == old_bs[idx].range_view().child(0),
        one.range_view() == old_bs[idx].range_view().child(1),
        zero.entries() == old_bs[idx].entries().filter(goes_to_zero(old_bs[idx].range_view())),
        one.entries() == old_bs[idx].entries().filter(goes_to_one(old_bs[idx].range_view())),
    ensures
        ({
            let new_bs = old_bs.remove(idx).insert(idx, one).insert(idx, zero);
            &&& buckets_wf(new_bs)
            &&& partitions(new_bs)
            &&& placed(new_bs)
            &&& excludes(new_bs, local)
            &&& stored(new_bs) == stored(old_bs)
            &&& new_bs.len() == old_bs.len() + 1
            &&& new_bs[idx] == zero
            &&& new_bs[idx + 1] == one
            &&& forall|k: int| 0 <= k < idx ==> new_bs[k] == old_bs[k]
            &&& forall|k: int| idx + 1 < k < new_bs.len() ==> new_bs[k] == old_bs[k - 1]
        }),
{
    let new_bs = old_bs.remove(idx).insert(idx, one).insert(idx, zero);
    let parent = old_bs[idx];
    let r = parent.range_view();
    let pe = parent.entries();
    let p0 = goes_to_zero(r);
    let p1 = goes_to_one(r);
    parent.lemma_wf();
    assert(new_bs.len() == old_bs.len() + 1);
    assert(new_bs[idx] == zero);
    assert(new_bs[idx + 1] == one);
    assert forall|k: int| 0 <= k < idx implies new_bs[k] == old_bs[k] by {}
    assert forall|k: int| idx + 1 < k < new_bs.len() implies new_bs[k] == old_bs[k - 1] by {}
    // The old bucket that each new bucket comes from.
    let origin = |k: int| if k <= idx { k } else if k == idx + 1 { idx } else { k - 1 };
    // A new bucket's range lies inside its origin's range.
    assert forall|k: int, id: Seq<u8>|
        0 <= k < new_bs.len() && id.len() == NODE_ID_BYTES && #[trigger] new_bs[k].range_view().contains(id)
        implies old_bs[origin(k)].range_view().contains(id) by {
        if k == idx {
            r.lemma_child_contains(0, id);
        } else if k == idx + 1 {
            r.lemma_child_contains(1, id);
        }
    }
    assert forall|id: Seq<u8>| id.len() == NODE_ID_BYTES implies #[trigger] covered(new_bs, id) by {
        assert(covered(old_bs, id));
        let i = choose|i: int| 0 <= i < old_bs.len() && #[trigger] old_bs[i].range_view().contains(id);
        if i < idx {
            assert(new_bs[i].range_view().contains(id));
        } else if i > idx {
            assert(new_bs[i + 1].range_view().contains(id));
        } else {
            r.lemma_children_partition(id);
            if r.child(0).contains(id) {
                assert(new_bs[idx].range_view().contains(id));
            } else {
                assert(new_bs[idx + 1].range_view().contains(id));
            }
        }
    }
    assert forall|id: Seq<u8>, i: int, j: int|
        id.len() == NODE_ID_BYTES && 0 <= i < new_bs.len() && 0 <= j < new_bs.len()
            && #[trigger] new_bs[i].range_view().contains(id) && #[trigger] new_bs[j].range_view().contains(
            id,
        ) implies i == j by {
        assert(old_bs[origin(i)].range_view().contains(id));
        assert(old_bs[origin(j)].range_view().contains(id));
        if origin(i) == idx && origin(j) == idx {
            r.lemma_children_partition(id);
        }
    }
    assert forall|i: int| 0 <= i < new_bs.len() implies #[trigger] new_bs[i].wf() by {
        if i != idx && i != idx + 1 {
            assert(old_bs[origin(i)].wf());
        }
    }
    // Entries of the children are entries of the parent.
    assert forall|j: int| 0 <= j < zero.entries().len() implies pe.contains(
        #[trigger] zero.entries()[j],
    ) && p0(zero.entries()[j]) by {
        assert(zero.entries().contains(zero.entries()[j]));
        pe.lemma_filter_contains_rev(p0, zero.entries()[j]);
        pe.lemma_filter_pred(p0, j);
    }
    assert forall|j: int| 0 <= j < one.entries().len() implies pe.contains(
        #[trigger] one.entries()[j],
    ) && p1(one.entries()[j]) by {
        assert(one.entries().contains(one.entries()[j]));
        pe.lemma_filter_contains_rev(p1, one.entries()[j]);
        pe.lemma_filter_pred(p1, j);
    }
    assert forall|i: int, j: int|
        0 <= i < new_bs.len() && 0 <= j < new_bs[i].entries().len() implies new_bs[i].range_view().contains(
        #[trigger] new_bs[i].entries()[j].id,
    ) && new_bs[i].entries()[j].id != local by {
        let m = new_bs[i].entries()[j];
        if i == idx || i == idx + 1 {
            let k = choose|k: int| 0 <= k < pe.len() && pe[k] == m;
            assert(old_bs[idx].entries()[k] == m);
            assert(r.contains(m.id));
            assert(m.id.len() == NODE_ID_BYTES);
            r.lemma_children_partition(m.id);
        } else {
            assert(old_bs[origin(i)].entries()[j] == m);
        }
    }
    assert forall|m: NodeView| holds(new_bs, m) == holds(old_bs, m) by {
        if holds(new_bs, m) {
            let (i, j) = choose|i: int, j: int|
                0 <= i < new_bs.len() && 0 <= j < new_bs[i].entries().len() && #[trigger] new_bs[i].entries()[j] == m;
            if i == idx || i == idx + 1 {
                let k = choose|k: int| 0 <= k < pe.len() && pe[k] == m;
                assert(old_bs[idx].entries()[k] == m);
            } else {
                assert(old_bs[origin(i)].entries()[j] == m);
            }
        }
        if holds(old_bs, m) {
            let (i, k) = choose|i: int, k: int|
                0 <= i < old_bs.len() && 0 <= k < old_bs[i].entries().len() && #[trigger] old_bs[i].entries()[k] == m;
            if i < idx {
                assert(new_bs[i].entries()[k] == m);
            } else if i > idx {
                assert(new_bs[i + 1].entries()[k] == m);
            } else if p0(m) {
                pe.lemma_filter_contains(p0, k);
                let j = choose|j: int| 0 <= j < zero.entries().len() && zero.entries()[j] == m;
                assert(new_bs[idx].entries()[j] == m);
            } else {
                pe.lemma_filter_contains(p1, k);
                let j = choose|j: int| 0 <= j < one.entries().len() && one.entries()[j] == m;
                assert(new_bs[idx + 1].entries()[j] == m);
            }
        }
    }
    assert(stored(new_bs) =~= stored(old_bs));
}

/// The routing table for a node in the DHT.
///
/// The table starts with one bucket covering the entire node ID space. A full
/// bucket that contains the local node ID is split into two child ranges.
/// Each bucket contains the nodes whose identifiers fall within its prefix
/// range.
#[derive(Debug)]
pub struct RoutingTable {
    local_id: NodeID,
    buckets: Vec<Bucket>,
}

impl View for RoutingTable {
    type V = Set<NodeView>;

    /// The nodes stored in the table.
    closed spec fn view(&self) -> Set<NodeView> {
        stored(self.buckets@)
    }
}

impl RoutingTable {
    /// The identifier of the local node.
    pub closed spec fn local(&self) -> Seq<u8> {
        self.local_id@
    }

    /// The buckets, in table order.
    pub closed spec fn bucket_list(&self) -> Seq<Bucket> {
        self.buckets@
    }

    /// The table is well formed: the buckets are well formed, their ranges
    /// partition the identifier space, every node lies in its bucket's range,
    /// the local node is never stored, and every bucket lies along the local
    /// identifier's split path.
    pub closed spec fn wf(&self) -> bool {
        let bs = self.buckets@;
        &&& buckets_wf(bs)
        &&& partitions(bs)
        &&& placed(bs)
        &&& excludes(bs, self.local_id@)
        &&& along_local_path(bs, self.local_id@)
    }

    /// Creates an empty routing table for the given local node identifier.
    pub fn new(local_id: NodeID) -> (r: Self)
        ensures
            r.wf(),
            r.local() == local_id@,
            r@ == Set::<NodeView>::empty(),
            r.bucket_list().len() == 1,
            r.bucket_list()[0].range_view().depth == 0,
            r.bucket_list()[0].entries() == Seq::<NodeView>::empty(),
    {
        let buckets = Bucket::new_bucket_collection();
        let r = RoutingTable { local_id, buckets };
        proof {
            let bs = r.buckets@;
            assert forall|id: Seq<u8>| id.len() == NODE_ID_BYTES implies #[trigger] covered(
                bs,
                id,
            ) by {
                assert(bs[0].range_view().contains(id));
            }
            assert(stored(bs) =~= Set::<NodeView>::empty());
        }
        r
    }

    /// Returns the buckets, in table order.
    pub fn buckets(&self) -> (r: &[Bucket])
        ensures
            r@ == self.bucket_list(),
            self.wf() ==> forall|i: int| 0 <= i < r@.len() ==> (#[trigger] r@[i]).wf(),
    {
        self.buckets.as_slice()
    }

    /// Records a node observation in the routing table.
    ///
    /// Observing an existing node ID refreshes its endpoint without adding
    /// another entry. A full bucket whose range contains the local node ID is
    /// split, repeatedly if needed, until the node's bucket has room or can
    /// no longer be split. No other bucket is ever split: only the bucket
    /// holding the node, one level per split, while it is full, does not
    /// hold the node's ID, contains the local ID and is less than `ID_BITS`
    /// deep ([`split_along`]); every bucket of the table is the root or a
    /// child of a range that contained the local ID. Judged on the table
    /// before the call, a new ID ends [`BucketError::Full`] exactly when
    /// [`stays_full`] holds of its bucket's nodes and depth.
    ///
    /// Returns [`DhtError::RoutingTable`] containing
    /// [`RoutingTableError::NodeIsSelf`] if `node` has the local node's
    /// identifier, and [`DhtError::Bucket`] containing [`BucketError::Full`]
    /// if `node` has a new ID and its bucket is full but does not contain the
    /// local node ID or has reached the maximum prefix depth.
    pub fn insert(&mut self, node: Node) -> (r: Result<(), DhtError>)
        requires
            old(self).wf(),
        ensures
            final(self).wf(),
            final(self).local() == old(self).local(),
            node@.id == old(self).local() ==> r == Err::<(), DhtError>(
                DhtError::RoutingTable(RoutingTableError::NodeIsSelf),
            ) && final(self).bucket_list() == old(self).bucket_list() && final(self)@ == old(
                self,
            )@,
            node@.id != old(self).local() ==> (r == Ok::<(), DhtError>(()) && final(self)@
                == with_node(old(self)@, node@)) || (r == Err::<(), DhtError>(
                DhtError::Bucket(BucketError::Full),
            ) && final(self)@ == old(self)@),
            node@.id != old(self).local() ==> (r is Err <==> blocked(
                final(self).bucket_list(),
                node@.id,
                old(self).local(),
            )),
            node@.id != old(self).local() ==> split_along(
                old(self).bucket_list(),
                final(self).bucket_list(),
                node@.id,
                old(self).local(),
            ),
            forall|i: int|
                0 <= i < old(self).bucket_list().len() && node@.id != old(self).local()
                    && #[trigger] old(self).bucket_list()[i].range_view().contains(node@.id) ==> (
                r is Err <==> (!has_id(old(self).bucket_list()[i].entries(), node@.id)
                    && stays_full(
                    old(self).bucket_list()[i].entries(),
                    node@.id,
                    old(self).local(),
                    old(self).bucket_list()[i].range_view().depth as int,
                ))),
    {
        if node.id() == &self.local_id {
            return Err(DhtError::RoutingTable(RoutingTableError::NodeIsSelf));
        }
        let ghost nv = node@;
        let ghost local = self.local_id@;
        let ghost old_view = self@;
        let ghost bs0 = self.buckets@;
        proof {
            node.lemma_id_len();
            assert(covered(bs0, nv.id));
        }
        let ghost k0 = choose|i: int|
            0 <= i < bs0.len() && bs0[i].range_view().contains(nv.id);
        let ghost d0 = bs0[k0].range_view().depth as int;
        let ghost e0 = bs0[k0].entries();
        let ghost mut splits: int = 0;
        proof {
            assert(bs0[k0].wf());
            bs0[k0].lemma_wf();
            assert forall|i: int| 0 <= i < e0.len() implies shares_prefix(nv.id, d0)(
                #[trigger] e0[i],
            ) by {
                reveal(shares_prefix);
                let x = e0[i].id;
                assert(bs0[k0].range_view().contains(x));
                assert forall|p: int| 0 <= p < d0 implies #[trigger] id_bit(x, p) == id_bit(
                    nv.id,
                    p,
                ) by {
                    assert(id_bit(x, p) == id_bit(bs0[k0].range_view().prefix, p));
                    assert(id_bit(nv.id, p) == id_bit(bs0[k0].range_view().prefix, p));
                }
            }
            reveal(shares_prefix);
            lemma_filter_all(e0, shares_prefix(nv.id, d0));
        }
        loop
            invariant
                self.wf(),
                self.local() == local,
                old(self).local() == local,
                old(self)@ == old_view,
                old(self).bucket_list() == bs0,
                self@ == old_view,
                nv == node@,
                nv.id != local,
                nv.id.len() == NODE_ID_BYTES,
                0 <= k0 < bs0.len(),
                partitions(bs0),
                bs0[k0].range_view().contains(nv.id),
                d0 == bs0[k0].range_view().depth,
                e0 == bs0[k0].entries(),
                ids_sized(e0),
                splits >= 0,
                d0 + splits <= ID_BITS,
                self.buckets@.len() == bs0.len() + splits,
                forall|k: int|
                    0 <= k < self.buckets@.len() && #[trigger] self.buckets@[k].range_view().contains(
                        nv.id,
                    ) ==> self.buckets@[k].range_view().depth == d0 + splits
                        && self.buckets@[k].entries() == e0.filter(shares_prefix(nv.id, d0 + splits)),
                (!has_id(e0, nv.id) && stays_full(e0, nv.id, local, d0)) == (!has_id(e0, nv.id)
                    && stays_full(e0, nv.id, local, d0 + splits)),
                forall|d: int|
                    d0 <= d < d0 + splits ==> d < ID_BITS && prefix_matches(nv.id, d, local)
                        && !has_id(e0, nv.id) && (#[trigger] e0.filter(shares_prefix(nv.id, d))).len()
                        == BUCKET_SIZE,
            decreases ID_BITS - (d0 + splits),
        {
            let index = self.bucket_index(node.id());
            let ghost bs = self.buckets@;
            proof {
                assert(bs[index as int].wf());
                bs[index as int].lemma_wf();
                assert(split_from(bs0[k0], bs[index as int], bs0.len(), bs.len(), nv.id, local)) by {
                    assert(bs0[k0].entries() == e0);
                    assert(bs[index as int].range_view().depth == d0 + splits);
                    assert forall|d: int|
                        bs0[k0].range_view().depth <= d < bs[index as int].range_view().depth
                        implies split_allowed(bs0[k0], nv.id, local, d) by {
                        assert(e0.filter(shares_prefix(nv.id, d)).len() == BUCKET_SIZE);
                        assert(d < ID_BITS);
                        assert(!has_id(e0, nv.id));
                        assert(prefix_matches(nv.id, d, local));
                    }
                }
                assert forall|i: int, j: int|
                    0 <= i < bs0.len() && 0 <= j < bs.len() && #[trigger] bs0[i].range_view().contains(
                        nv.id,
                    ) && #[trigger] bs[j].range_view().contains(nv.id) implies split_from(
                    bs0[i],
                    bs[j],
                    bs0.len(),
                    bs.len(),
                    nv.id,
                    local,
                ) by {
                    assert(i == k0);
                    assert(j == index as int);
                }
                assert(split_along(bs0, bs, nv.id, local));
            }
            if self.buckets[index].accepts(node.id()) {
                proof {
                    let d = d0 + splits;
                    let be = bs[index as int].entries();
                    assert(be == e0.filter(shares_prefix(nv.id, d)));
                    lemma_has_id_filter(e0, nv.id, d);
                    assert(!(!has_id(e0, nv.id) && stays_full(e0, nv.id, local, d)));
                    assert forall|i: int|
                        0 <= i < bs0.len() && #[trigger] bs0[i].range_view().contains(nv.id) implies !(
                        !has_id(bs0[i].entries(), nv.id) && stays_full(
                            bs0[i].entries(),
                            nv.id,
                            local,
                            bs0[i].range_view().depth as int,
                        )) by {
                        assert(i == k0);
                    }
                }
                let res = self.buckets[index].observe(node);
                proof {
                    let b = self.buckets@[index as int];
                    if has_id(bs[index as int].entries(), nv.id) {
                        let j = choose|j: int|
                            0 <= j < bs[index as int].entries().len()
                                && #[trigger] bs[index as int].entries()[j].id == nv.id;
                        assert(b.entries() == bs[index as int].entries().update(j, nv));
                        assert(b.entries()[j].id == nv.id);
                    } else {
                        let l = bs[index as int].entries().len() as int;
                        assert(b.entries()[l].id == nv.id);
                    }
                    assert(has_id(b.entries(), nv.id));
                    assert(self.buckets@ == bs.update(index as int, b));
                    lemma_store_step(bs, local, index as int, b, nv);
                    assert(along_local_path(self.buckets@, local)) by {
                        assert forall|i: int| 0 <= i < self.buckets@.len() implies parent_holds(
                            #[trigger] self.buckets@[i].range_view(),
                            local,
                        ) by {
                            assert(self.buckets@[i].range_view() == bs[i].range_view());
                        }
                    }
                    self.lemma_not_blocked(nv.id, index as int);
                    let nb = self.buckets@;
                    assert(b.range_view() == bs[index as int].range_view());
                    assert(nb.len() == bs.len());
                    assert(split_from(bs0[k0], nb[index as int], bs0.len(), nb.len(), nv.id, local)) by {
                    assert(bs0[k0].entries() == e0);
                    assert(nb[index as int].range_view().depth == d0 + splits);
                    assert(bs0[k0].range_view().depth as int <= nb[index as int].range_view().depth as int);
                    assert(nb.len() == bs0.len() + (nb[index as int].range_view().depth as int
                        - bs0[k0].range_view().depth as int));
                    assert forall|d: int|
                        bs0[k0].range_view().depth <= d < nb[index as int].range_view().depth
                        implies split_allowed(bs0[k0], nv.id, local, d) by {
                        assert(e0.filter(shares_prefix(nv.id, d)).len() == BUCKET_SIZE);
                        assert(d < ID_BITS);
                        assert(!has_id(e0, nv.id));
                        assert(prefix_matches(nv.id, d, local));
                    }
                }
                    assert forall|i: int, j: int|
                        0 <= i < bs0.len() && 0 <= j < nb.len() && #[trigger] bs0[i].range_view().contains(
                            nv.id,
                        ) && #[trigger] nb[j].range_view().contains(nv.id) implies split_from(
                        bs0[i],
                        nb[j],
                        bs0.len(),
                        nb.len(),
                        nv.id,
                        local,
                    ) by {
                        assert(i == k0);
                        assert(j == index as int);
                    }
                }
                return Ok(());
            }
            if !self.buckets[index].contains(&self.local_id) || !self.buckets[index].can_split() {
                proof {
                    let d = d0 + splits;
                    let rv = bs[index as int].range_view();
                    let be = bs[index as int].entries();
                    assert(be == e0.filter(shares_prefix(nv.id, d)));
                    lemma_has_id_filter(e0, nv.id, d);
                    assert(be.len() == BUCKET_SIZE);
                    // The bucket contains the local identifier exactly when
                    // the local identifier shares the node's first `d` bits.
                    if prefix_matches(nv.id, d, local) {
                        assert forall|p: int| 0 <= p < d implies #[trigger] id_bit(local, p)
                            == id_bit(rv.prefix, p) by {
                            assert(id_bit(local, p) == id_bit(nv.id, p));
                            assert(id_bit(nv.id, p) == id_bit(rv.prefix, p));
                        }
                        assert(rv.contains(local));
                    }
                    assert(!has_id(e0, nv.id) && stays_full(e0, nv.id, local, d));
                    assert forall|i: int|
                        0 <= i < bs0.len() && #[trigger] bs0[i].range_view().contains(nv.id) implies (
                        !has_id(bs0[i].entries(), nv.id) && stays_full(
                            bs0[i].entries(),
                            nv.id,
                            local,
                            bs0[i].range_view().depth as int,
                        )) by {
                        assert(i == k0);
                    }
                }
                return Err(DhtError::Bucket(BucketError::Full));
            }
            let bucket = self.buckets.remove(index);
            let (zero, one) = bucket.split();
            self.buckets.insert(index, one);
            self.buckets.insert(index, zero);
            proof {
                let ghost rv = bs[index as int].range_view();
                let d = d0 + splits;
                lemma_split_step(bs, local, index as int, zero, one);
                lemma_split_path(bs, local, index as int, zero, one);
                let nb = self.buckets@;
                // The split range was full and held both the node and the
                // local identifier.
                let be = bs[index as int].entries();
                assert(be == e0.filter(shares_prefix(nv.id, d)));
                assert(be.len() == BUCKET_SIZE);
                assert(!has_id(be, nv.id));
                if has_id(e0, nv.id) {
                    let j = choose|j: int| 0 <= j < e0.len() && #[trigger] e0[j].id == nv.id;
                    assert(shares_prefix(nv.id, d)(e0[j])) by {
                        reveal(shares_prefix);
                    }
                    e0.lemma_filter_contains(shares_prefix(nv.id, d), j);
                    let m = choose|m: int| 0 <= m < be.len() && be[m] == e0[j];
                    assert(be[m].id == nv.id);
                }
                assert(prefix_matches(nv.id, d, local)) by {
                    assert forall|p: int| 0 <= p < d implies #[trigger] id_bit(local, p) == id_bit(
                        nv.id,
                        p,
                    ) by {
                        assert(id_bit(local, p) == id_bit(rv.prefix, p));
                        assert(id_bit(nv.id, p) == id_bit(rv.prefix, p));
                    }
                }
                // The child that holds the node keeps the nodes sharing one
                // more bit with it.
                rv.lemma_children_partition(nv.id);
                if rv.child(0).contains(nv.id) {
                    lemma_split_child_entries(e0, nv.id, rv, be, 0);
                } else {
                    lemma_split_child_entries(e0, nv.id, rv, be, 1);
                }
                assert forall|k: int|
                    0 <= k < nb.len() && #[trigger] nb[k].range_view().contains(nv.id) implies nb[k].range_view().depth
                    == d + 1 && nb[k].entries() == e0.filter(shares_prefix(nv.id, d + 1)) by {
                    if k != index && k != index + 1 {
                        let o = if k < index { k } else { k - 1 };
                        assert(nb[k] == bs[o]);
                        assert(o != index);
                    }
                }
                splits = splits + 1;
            }
        }
    }

    /// A node stored in the bucket whose range contains its identifier is not
    /// blocked.
    proof fn lemma_not_blocked(&self, id: Seq<u8>, idx: int)
        requires
            self.wf(),
            id.len() == NODE_ID_BYTES,
            0 <= idx < self.buckets@.len(),
            self.buckets@[idx].range_view().contains(id),
            has_id(self.buckets@[idx].entries(), id),
        ensures
            !blocked(self.buckets@, id, self.local_id@),
    {
    }

    /// Returns the closest nodes to a target identifier.
    ///
    /// The result holds at most `count` stored nodes, ordered by ascending
    /// XOR distance from `target`; every stored node left out is farther
    /// than every node returned, and is only left out when `count` nodes
    /// were returned.
    pub fn find_closest(&self, target: &NodeID, count: usize) -> (r: Vec<&Node>)
        requires
            self.wf(),
        ensures
            r@.len() <= count,
            forall|i: int| 0 <= i < r@.len() ==> self@.contains(#[trigger] r@[i]@),
            forall|i: int, j: int|
                0 <= i < j < r@.len() ==> lex_lt(
                    distance_to(target@, #[trigger] r@[i]@),
                    distance_to(target@, #[trigger] r@[j]@),
                ),
            forall|n: NodeView|
                #[trigger] self@.contains(n) && !(exists|i: int| 0 <= i < r@.len() && r@[i]@ == n)
                    ==> r@.len() == count && forall|i: int|
                    0 <= i < r@.len() ==> lex_lt(
                        distance_to(target@, #[trigger] r@[i]@),
                        distance_to(target@, n),
                    ),
            forall|n: NodeView|
                #[trigger] self@.contains(n) && n.id == target@ && count > 0 ==> r@.len() > 0
                    && r@[0]@ == n,
    {
        let mut nodes: Vec<&Node> = Vec::new();
        let mut last: Option<[u8; 20]> = None;
        proof {
            target.lemma_len();
        }
        while nodes.len() < count
            invariant
                self.wf(),
                target@.len() == NODE_ID_BYTES,
                nodes@.len() <= count,
                forall|i: int| 0 <= i < nodes@.len() ==> self@.contains(#[trigger] nodes@[i]@),
                forall|i: int, j: int|
                    0 <= i < j < nodes@.len() ==> lex_lt(
                        distance_to(target@, #[trigger] nodes@[i]@),
                        distance_to(target@, #[trigger] nodes@[j]@),
                    ),
                last is None <==> nodes@.len() == 0,
                last matches Some(l) ==> l@ == distance_to(target@, nodes@.last()@),
                forall|n: NodeView|
                    #[trigger] self@.contains(n) && !beyond(target@, last, n) ==> exists|i: int|
                        0 <= i < nodes@.len() && nodes@[i]@ == n,
            ensures
                nodes@.len() == count || forall|n: NodeView|
                    #[trigger] self@.contains(n) ==> !beyond(target@, last, n),
            decreases count - nodes@.len(),
        {
            match self.closest_beyond(target, &last) {
                None => {
                    break;
                },
                Some((node, d)) => {
                    let ghost old_nodes = nodes@;
                    let ghost old_last = last;
                    nodes.push(node);
                    last = Some(d);
                    proof {
                        let dn = d@;
                        assert forall|i: int, j: int|
                            0 <= i < j < nodes@.len() implies lex_lt(
                            distance_to(target@, #[trigger] nodes@[i]@),
                            distance_to(target@, #[trigger] nodes@[j]@),
                        ) by {
                            if j == old_nodes.len() {
                                let l = old_last.unwrap()@;
                                if i < old_nodes.len() - 1 {
                                    assert(lex_lt(
                                        distance_to(target@, old_nodes[i]@),
                                        distance_to(target@, old_nodes[old_nodes.len() - 1]@),
                                    ));
                                    lemma_lex_transitive(distance_to(target@, old_nodes[i]@), l, dn);
                                }
                            } else {
                                assert(nodes@[i] == old_nodes[i]);
                                assert(nodes@[j] == old_nodes[j]);
                            }
                        }
                        assert forall|n: NodeView|
                            #[trigger] self@.contains(n) && !beyond(target@, last, n) implies exists|i: int|
                            0 <= i < nodes@.len() && nodes@[i]@ == n by {
                            if !beyond(target@, old_last, n) {
                                let i = choose|i: int| 0 <= i < old_nodes.len() && old_nodes[i]@ == n;
                                assert(nodes@[i] == old_nodes[i]);
                            } else {
                                let dm = distance_to(target@, n);
                                assert(!lex_lt(dn, dm));
                                assert(!lex_lt(dm, dn));
                                self.lemma_stored_id_len(n);
                                self.lemma_stored_id_len(node@);
                                if dm != dn {
                                    lemma_lex_total(dm, dn);
                                }
                                lemma_xor_injective(target@, n.id, node@.id);
                                self.lemma_unique_ids(n, node@);
                                assert(nodes@[old_nodes.len() as int]@ == n);
                            }
                        }
                    }
                },
            }
        }
        proof {
            assert forall|n: NodeView|
                #[trigger] self@.contains(n) && !(exists|i: int| 0 <= i < nodes@.len() && nodes@[i]@ == n)
                implies nodes@.len() == count && forall|i: int|
                0 <= i < nodes@.len() ==> lex_lt(
                    distance_to(target@, #[trigger] nodes@[i]@),
                    distance_to(target@, n),
                ) by {
                assert(beyond(target@, last, n));
                if nodes@.len() > 0 {
                    let l = last.unwrap()@;
                    let k = nodes@.len() - 1;
                    assert forall|i: int| 0 <= i < nodes@.len() implies lex_lt(
                        distance_to(target@, #[trigger] nodes@[i]@),
                        distance_to(target@, n),
                    ) by {
                        if i < k {
                            assert(lex_lt(distance_to(target@, nodes@[i]@), distance_to(target@, nodes@[k]@)));
                            lemma_lex_transitive(distance_to(target@, nodes@[i]@), l, distance_to(target@, n));
                        }
                    }
                }
            }
            assert forall|n: NodeView|
                #[trigger] self@.contains(n) && n.id == target@ && count > 0 implies nodes@.len() > 0
                && nodes@[0]@ == n by {
                let z = distance_to(target@, n);
                lemma_xor_self_zero(target@);
                if exists|i: int| 0 <= i < nodes@.len() && nodes@[i]@ == n {
                    let i = choose|i: int| 0 <= i < nodes@.len() && nodes@[i]@ == n;
                    if i > 0 {
                        assert(lex_lt(distance_to(target@, nodes@[0]@), distance_to(target@, nodes@[i]@)));
                        lemma_lex_not_below_zero(distance_to(target@, nodes@[0]@), z);
                    }
                } else {
                    lemma_lex_not_below_zero(distance_to(target@, nodes@[0]@), z);
                }
            }
        }
        nodes
    }

    /// What every routing table keeps: no bucket holds more than
    /// `BUCKET_SIZE` nodes, the local node is never stored, every stored
    /// identifier is `NODE_ID_BYTES` long and lies in the range of exactly
    /// one bucket, and no identifier is stored twice.
    pub proof fn law_table_invariants(&self)
        requires
            self.wf(),
        ensures
            forall|i: int|
                0 <= i < self.bucket_list().len() ==> #[trigger] self.bucket_list()[i].entries().len()
                    <= BUCKET_SIZE,
            forall|n: NodeView| #[trigger] self@.contains(n) ==> n.id != self.local(),
            forall|n: NodeView| #[trigger] self@.contains(n) ==> n.id.len() == NODE_ID_BYTES,
            forall|a: NodeView, b: NodeView|
                #[trigger] self@.contains(a) && #[trigger] self@.contains(b) && a.id == b.id ==> a
                    == b,
            partitions(self.bucket_list()),
    {
        let bs = self.buckets@;
        assert forall|i: int| 0 <= i < bs.len() implies #[trigger] bs[i].entries().len() <= BUCKET_SIZE by {
            assert(bs[i].wf());
            bs[i].lemma_wf();
        }
        assert forall|n: NodeView| #[trigger] self@.contains(n) implies n.id != self.local() by {
            let (i, j) = choose|i: int, j: int|
                0 <= i < bs.len() && 0 <= j < bs[i].entries().len() && #[trigger] bs[i].entries()[j] == n;
            assert(bs[i].entries()[j].id != self.local_id@);
        }
        assert forall|n: NodeView| #[trigger] self@.contains(n) implies n.id.len() == NODE_ID_BYTES by {
            self.lemma_stored_id_len(n);
        }
        assert forall|a: NodeView, b: NodeView|
            #[trigger] self@.contains(a) && #[trigger] self@.contains(b) && a.id == b.id implies a == b by {
            self.lemma_unique_ids(a, b);
        }
    }

    /// Stored identifiers are `NODE_ID_BYTES` long.
    proof fn lemma_stored_id_len(&self, n: NodeView)
        requires
            self.wf(),
            self@.contains(n),
        ensures
            n.id.len() == NODE_ID_BYTES,
    {
        let bs = self.buckets@;
        let (i, j) = choose|i: int, j: int|
            0 <= i < bs.len() && 0 <= j < bs[i].entries().len() && #[trigger] bs[i].entries()[j] == n;
        assert(bs[i].wf());
        bs[i].lemma_wf();
    }

    /// Nodes of the table with the same identifier are the same node.
    proof fn lemma_unique_ids(&self, a: NodeView, b: NodeView)
        requires
            self.wf(),
            self@.contains(a),
            self@.contains(b),
            a.id == b.id,
        ensures
            a == b,
    {
        let bs = self.buckets@;
        let (i1, j1) = choose|i: int, j: int|
            0 <= i < bs.len() && 0 <= j < bs[i].entries().len() && #[trigger] bs[i].entries()[j] == a;
        let (i2, j2) = choose|i: int, j: int|
            0 <= i < bs.len() && 0 <= j < bs[i].entries().len() && #[trigger] bs[i].entries()[j] == b;
        assert(bs[i1].wf());
        bs[i1].lemma_wf();
        assert(bs[i1].range_view().contains(a.id));
        assert(bs[i2].range_view().contains(b.id));
        assert(i1 == i2);
        if j1 != j2 {
            assert(bs[i1].entries()[j1].id != bs[i1].entries()[j2].id);
        }
    }

    /// Returns the stored node closest to `target` among those strictly
    /// farther than `last`, with its distance.
    fn closest_beyond(&self, target: &NodeID, last: &Option<[u8; 20]>) -> (r: Option<(&Node, [u8; 20])>)
        requires
            self.wf(),
        ensures
            match r {
                None => forall|m: NodeView| #[trigger] self@.contains(m) ==> !beyond(target@, *last, m),
                Some((n, d)) => {
                    &&& self@.contains(n@)
                    &&& d@ == distance_to(target@, n@)
                    &&& beyond(target@, *last, n@)
                    &&& forall|m: NodeView|
                        #[trigger] self@.contains(m) && beyond(target@, *last, m) ==> !lex_lt(
                            distance_to(target@, m),
                            d@,
                        )
                },
            },
    {
        let ghost bs = self.buckets@;
        let mut best: Option<(&Node, [u8; 20])> = None;
        let mut i: usize = 0;
        while i < self.buckets.len()
            invariant
                bs == self.buckets@,
                i <= bs.len(),
                match best {
                    None => forall|i2: int, j2: int|
                        0 <= i2 < i && 0 <= j2 < bs[i2].entries().len() ==> !beyond(
                            target@,
                            *last,
                            #[trigger] bs[i2].entries()[j2],
                        ),
                    Some((n, d)) => {
                        &&& holds(bs, n@)
                        &&& d@ == distance_to(target@, n@)
                        &&& beyond(target@, *last, n@)
                        &&& forall|i2: int, j2: int|
                            0 <= i2 < i && 0 <= j2 < bs[i2].entries().len() && beyond(
                                target@,
                                *last,
                                #[trigger] bs[i2].entries()[j2],
                            ) ==> !lex_lt(distance_to(target@, bs[i2].entries()[j2]), d@)
                    },
                },
            decreases bs.len() - i,
        {
            let nodes = self.buckets[i].nodes();
            let ghost e = bs[i as int].entries();
            let mut j: usize = 0;
            while j < nodes.len()
                invariant
                    bs == self.buckets@,
                    i < bs.len(),
                    e == bs[i as int].entries(),
                    nodes@.map_values(|n: Node| n@) == e,
                    j <= nodes@.len(),
                    best is None ==> forall|i2: int, j2: int|
                        0 <= i2 < bs.len() && 0 <= j2 < bs[i2].entries().len() && (i2 < i || (i2
                            == i && j2 < j)) ==> !beyond(
                            target@,
                            *last,
                            #[trigger] bs[i2].entries()[j2],
                        ),
                    match best {
                        None => true,
                        Some((n, d)) => {
                            &&& holds(bs, n@)
                            &&& d@ == distance_to(target@, n@)
                            &&& beyond(target@, *last, n@)
                            &&& forall|i2: int, j2: int|
                                0 <= i2 < bs.len() && 0 <= j2 < bs[i2].entries().len() && (i2 < i
                                    || (i2 == i && j2 < j)) && beyond(
                                    target@,
                                    *last,
                                    #[trigger] bs[i2].entries()[j2],
                                ) ==> !lex_lt(distance_to(target@, bs[i2].entries()[j2]), d@)
                        },
                    },
                decreases nodes@.len() - j,
            {
                let node = &nodes[j];
                assert(node@ == e[j as int]);
                let d = target.get_distance(node.id());
                let is_beyond = match last {
                    None => true,
                    Some(l) => distance_lt(l, &d),
                };
                assert(d@ == distance_to(target@, node@));
                assert(is_beyond == beyond(target@, *last, node@));
                let is_better = match &best {
                    None => true,
                    Some((_, bd)) => distance_lt(&d, bd),
                };
                if is_beyond && is_better {
                    proof {
                        lemma_lex_irreflexive(d@);
                        match best {
                            None => {},
                            Some((n0, d0)) => {
                                assert forall|i2: int, j2: int|
                                    0 <= i2 < bs.len() && 0 <= j2 < bs[i2].entries().len() && (i2 < i
                                        || (i2 == i && j2 < j)) && beyond(
                                        target@,
                                        *last,
                                        #[trigger] bs[i2].entries()[j2],
                                    ) implies !lex_lt(distance_to(target@, bs[i2].entries()[j2]), d@) by {
                                    let dm = distance_to(target@, bs[i2].entries()[j2]);
                                    if lex_lt(dm, d@) {
                                        lemma_lex_transitive(dm, d@, d0@);
                                    }
                                }
                            },
                        }
                    }
                    best = Some((node, d));
                }
                proof {
                    assert(bs[i as int].entries()[j as int] == node@);
                    assert(holds(bs, node@));
                    if best is None {
                        assert(!beyond(target@, *last, bs[i as int].entries()[j as int]));
                        assert forall|i2: int, j2: int|
                            0 <= i2 < bs.len() && 0 <= j2 < bs[i2].entries().len() && (i2 < i || (i2
                                == i && j2 < j + 1)) implies !beyond(
                            target@,
                            *last,
                            #[trigger] bs[i2].entries()[j2],
                        ) by {
                            if i2 == i && j2 == j {
                            }
                        }
                    }
                }
                j = j + 1;
            }
            i = i + 1;
        }
        proof {
            match best {
                None => {
                    assert forall|m: NodeView| #[trigger] self@.contains(m) implies !beyond(target@, *last, m) by {
                        let (i2, j2) = choose|i2: int, j2: int|
                            0 <= i2 < bs.len() && 0 <= j2 < bs[i2].entries().len() && #[trigger] bs[i2].entries()[j2] == m;
                    }
                },
                Some((n, d)) => {
                    assert forall|m: NodeView| #[trigger] self@.contains(m) && beyond(target@, *last, m) implies !lex_lt(
                        distance_to(target@, m),
                        d@,
                    ) by {
                        let (i2, j2) = choose|i2: int, j2: int|
                            0 <= i2 < bs.len() && 0 <= j2 < bs[i2].entries().len() && #[trigger] bs[i2].entries()[j2] == m;
                    }
                    assert(self@.contains(n@));
                },
            }
        }
        best
    }

    /// Returns the position of the bucket whose range contains `id`.
    fn bucket_index(&self, id: &NodeID) -> (r: usize)
        requires
            self.wf(),
        ensures
            r < self.buckets@.len(),
            self.buckets@[r as int].range_view().contains(id@),
    {
        let ghost bs = self.buckets@;
        let mut i: usize = 0;
        while i < self.buckets.len()
            invariant
                bs == self.buckets@,
                buckets_wf(bs),
                i <= bs.len(),
                forall|k: int| 0 <= k < i ==> !bs[k].range_view().contains(id@),
            decreases bs.len() - i,
        {
            if self.buckets[i].contains(id) {
                return i;
            }
            i = i + 1;
        }
        proof {
            id.lemma_len();
            assert(covered(bs, id@));
        }
        // Every identifier belongs to a bucket, so the search never ends here.
        0
    }
}

} // verus!
