use vstd::prelude::*;
use crate::property::PropertyValue;
use crate::property_key::{KeyView, PropertyKey, key_before, lemma_key_before_strict_total};
use vstd::arithmetic::power2::{pow2, lemma_pow2_pos, lemma_pow2_unfold};

verus! {

/// Entries in strictly increasing key order.
pub open spec fn sorted_kv(s: Seq<(KeyView, PropertyValue)>) -> bool {
    forall|i: int, j: int| 0 <= i < j < s.len() ==> key_before(#[trigger] s[i].0, #[trigger] s[j].0)
}

/// Whether some entry has key `k`.
pub open spec fn has_key(s: Seq<(KeyView, PropertyValue)>, k: KeyView) -> bool {
    exists|i: int| 0 <= i < s.len() && #[trigger] s[i].0 == k
}

/// An index of an entry with key `k`, if some entry has it.
pub open spec fn key_index(s: Seq<(KeyView, PropertyValue)>, k: KeyView) -> int {
    choose|i: int| 0 <= i < s.len() && #[trigger] s[i].0 == k
}

/// The map that a sequence of entries with distinct keys stands for.
pub open spec fn map_of(s: Seq<(KeyView, PropertyValue)>) -> Map<KeyView, PropertyValue> {
    Map::new(|k: KeyView| has_key(s, k), |k: KeyView| s[key_index(s, k)].1)
}

/// Every key of `s` comes before `k`.
pub open spec fn keys_before(s: Seq<(KeyView, PropertyValue)>, k: KeyView) -> bool {
    forall|i: int| 0 <= i < s.len() ==> key_before(#[trigger] s[i].0, k)
}

/// Every key of `s` comes after `k`.
pub open spec fn keys_after(s: Seq<(KeyView, PropertyValue)>, k: KeyView) -> bool {
    forall|i: int| 0 <= i < s.len() ==> key_before(k, #[trigger] s[i].0)
}

pub(crate) proof fn lemma_sorted_unique(s: Seq<(KeyView, PropertyValue)>, i: int, j: int)
    requires
        sorted_kv(s),
        0 <= i < s.len(),
        0 <= j < s.len(),
        s[i].0 == s[j].0,
    ensures
        i == j,
{
    lemma_key_before_strict_total(s[i].0, s[j].0, s[i].0);
    if i < j {
        assert(key_before(s[i].0, s[j].0));
    } else if j < i {
        assert(key_before(s[j].0, s[i].0));
    }
}

pub(crate) proof fn lemma_map_at(s: Seq<(KeyView, PropertyValue)>, i: int)
    requires
        sorted_kv(s),
        0 <= i < s.len(),
    ensures
        map_of(s).contains_key(s[i].0),
        map_of(s)[s[i].0] == s[i].1,
{
    let k = s[i].0;
    assert(has_key(s, k));
    let j = key_index(s, k);
    lemma_sorted_unique(s, i, j);
}

proof fn lemma_sorted_concat(a: Seq<(KeyView, PropertyValue)>, x: (KeyView, PropertyValue), b: Seq<
    (KeyView, PropertyValue),
>)
    ensures
        sorted_kv(a + seq![x] + b) <==> (sorted_kv(a) && sorted_kv(b) && keys_before(a, x.0)
            && keys_after(b, x.0)),
{
    let s = a + seq![x] + b;
    let n = a.len() as int;
    assert forall|i: int| 0 <= i < n implies s[i] == a[i] by {}
    assert(s[n] == x);
    assert forall|j: int| 0 <= j < b.len() implies s[n + 1 + j] == b[j] by {}
    if sorted_kv(s) {
        assert forall|i: int, j: int| 0 <= i < j < a.len() implies key_before(
            #[trigger] a[i].0,
            #[trigger] a[j].0,
        ) by {
            assert(s[i] == a[i] && s[j] == a[j]);
        }
        assert forall|i: int, j: int| 0 <= i < j < b.len() implies key_before(
            #[trigger] b[i].0,
            #[trigger] b[j].0,
        ) by {
            assert(s[n + 1 + i] == b[i] && s[n + 1 + j] == b[j]);
        }
        assert forall|i: int| 0 <= i < a.len() implies key_before(#[trigger] a[i].0, x.0) by {
            assert(s[i] == a[i]);
        }
        assert forall|j: int| 0 <= j < b.len() implies key_before(x.0, #[trigger] b[j].0) by {
            assert(s[n + 1 + j] == b[j]);
        }
    }
    if sorted_kv(a) && sorted_kv(b) && keys_before(a, x.0) && keys_after(b, x.0) {
        assert forall|i: int, j: int| 0 <= i < j < s.len() implies key_before(
            #[trigger] s[i].0,
            #[trigger] s[j].0,
        ) by {
            if j < n {
                assert(s[i] == a[i] && s[j] == a[j]);
            } else if j == n {
                assert(s[i] == a[i]);
            } else if i < n {
                assert(s[i] == a[i] && s[j] == b[j - n - 1]);
                lemma_key_before_strict_total(a[i].0, x.0, b[j - n - 1].0);
            } else if i == n {
                assert(s[j] == b[j - n - 1]);
            } else {
                assert(s[i] == b[i - n - 1] && s[j] == b[j - n - 1]);
            }
        }
    }
}

proof fn lemma_map_of_concat(a: Seq<(KeyView, PropertyValue)>, x: (KeyView, PropertyValue), b: Seq<
    (KeyView, PropertyValue),
>)
    requires
        sorted_kv(a + seq![x] + b),
    ensures
        map_of(a + seq![x] + b) == map_of(a).union_prefer_right(map_of(b)).insert(x.0, x.1),
        !map_of(a).contains_key(x.0),
        !map_of(b).contains_key(x.0),
        forall|k: KeyView| map_of(a).contains_key(k) ==> key_before(k, x.0),
        forall|k: KeyView| map_of(b).contains_key(k) ==> key_before(x.0, k),
{
    let s = a + seq![x] + b;
    let n = a.len() as int;
    lemma_sorted_concat(a, x, b);
    assert forall|i: int| 0 <= i < n implies s[i] == a[i] by {}
    assert(s[n] == x);
    assert forall|j: int| 0 <= j < b.len() implies s[n + 1 + j] == b[j] by {}
    assert forall|k: KeyView| map_of(a).contains_key(k) implies key_before(k, x.0) by {
        let i = choose|i: int| 0 <= i < a.len() && #[trigger] a[i].0 == k;
    }
    assert forall|k: KeyView| map_of(b).contains_key(k) implies key_before(x.0, k) by {
        let j = choose|j: int| 0 <= j < b.len() && #[trigger] b[j].0 == k;
    }
    lemma_key_before_strict_total(x.0, x.0, x.0);
    let m = map_of(a).union_prefer_right(map_of(b)).insert(x.0, x.1);
    assert forall|k: KeyView| #[trigger] map_of(s).contains_key(k) == m.contains_key(k) by {
        if has_key(s, k) {
            let i = choose|i: int| 0 <= i < s.len() && #[trigger] s[i].0 == k;
            if i < n {
                assert(a[i].0 == k);
                assert(has_key(a, k));
            } else if i > n {
                assert(b[i - n - 1].0 == k);
                assert(has_key(b, k));
            }
        }
        if has_key(a, k) {
            let i = choose|i: int| 0 <= i < a.len() && #[trigger] a[i].0 == k;
            assert(s[i].0 == k);
        }
        if has_key(b, k) {
            let j = choose|j: int| 0 <= j < b.len() && #[trigger] b[j].0 == k;
            assert(s[n + 1 + j].0 == k);
        }
    }
    assert forall|k: KeyView| map_of(s).contains_key(k) implies map_of(s)[k] == m[k] by {
        let i = key_index(s, k);
        lemma_map_at(s, i);
        if i < n {
            lemma_map_at(a, i);
            assert(a[i] == s[i]);
            if map_of(b).contains_key(k) {
                lemma_key_before_strict_total(k, x.0, k);
            }
        } else if i > n {
            lemma_map_at(b, i - n - 1);
            assert(b[i - n - 1] == s[i]);
        }
    }
    assert(map_of(s) =~= m);
}

/// Keys of a sorted `s2` that are keys of `s1` or `k` all come before `a` when those of
/// `s1` and `k` do.
proof fn lemma_before_via_map(
    s2: Seq<(KeyView, PropertyValue)>,
    s1: Seq<(KeyView, PropertyValue)>,
    k: KeyView,
    a: KeyView,
)
    requires
        sorted_kv(s2),
        keys_before(s1, a),
        key_before(k, a),
        forall|x: KeyView| map_of(s2).contains_key(x) ==> (x == k || map_of(s1).contains_key(x)),
    ensures
        keys_before(s2, a),
{
    assert forall|i: int| 0 <= i < s2.len() implies key_before(#[trigger] s2[i].0, a) by {
        lemma_map_at(s2, i);
        if s2[i].0 != k {
            assert(map_of(s1).contains_key(s2[i].0));
            let j = choose|j: int| 0 <= j < s1.len() && #[trigger] s1[j].0 == s2[i].0;
        }
    }
}

/// Keys of a sorted `s2` that are keys of `s1` or `k` all come after `a` when those of
/// `s1` and `k` do.
proof fn lemma_after_via_map(
    s2: Seq<(KeyView, PropertyValue)>,
    s1: Seq<(KeyView, PropertyValue)>,
    k: KeyView,
    a: KeyView,
)
    requires
        sorted_kv(s2),
        keys_after(s1, a),
        key_before(a, k),
        forall|x: KeyView| map_of(s2).contains_key(x) ==> (x == k || map_of(s1).contains_key(x)),
    ensures
        keys_after(s2, a),
{
    assert forall|i: int| 0 <= i < s2.len() implies key_before(a, #[trigger] s2[i].0) by {
        lemma_map_at(s2, i);
        if s2[i].0 != k {
            assert(map_of(s1).contains_key(s2[i].0));
            let j = choose|j: int| 0 <= j < s1.len() && #[trigger] s1[j].0 == s2[i].0;
        }
    }
}

/// The colour of a tree node.
#[derive(Clone, Copy, Debug, PartialEq, Eq, Structural)]
pub enum Color {
    Red,
    Black,
}

/// A node of a red-black tree of properties.
#[derive(Debug)]
pub struct Node {
    pub color: Color,
    pub key: PropertyKey,
    pub value: PropertyValue,
    pub left: Option<Box<Node>>,
    pub right: Option<Box<Node>>,
}

/// The entries of a tree, in order.
pub open spec fn inorder(t: Option<Box<Node>>) -> Seq<(KeyView, PropertyValue)>
    decreases t,
{
    match t {
        None => Seq::empty(),
        Some(n) => inorder(n.left) + seq![(n.key@, n.value)] + inorder(n.right),
    }
}

/// Whether the tree's root is red (an empty tree counts as black).
pub open spec fn is_red(t: Option<Box<Node>>) -> bool {
    t matches Some(n) && n.color == Color::Red
}

/// The number of black nodes on the tree's leftmost path.
pub open spec fn bheight(t: Option<Box<Node>>) -> nat
    decreases t,
{
    match t {
        None => 0,
        Some(n) => bheight(n.left) + if n.color == Color::Black { 1nat } else { 0nat },
    }
}

/// Every node's two subtrees have the same black height.
pub open spec fn inv_h(t: Option<Box<Node>>) -> bool
    decreases t,
{
    match t {
        None => true,
        Some(n) => inv_h(n.left) && inv_h(n.right) && bheight(n.left) == bheight(n.right),
    }
}

/// No red node has a red child.
pub open spec fn inv_c(t: Option<Box<Node>>) -> bool
    decreases t,
{
    match t {
        None => true,
        Some(n) => inv_c(n.left) && inv_c(n.right) && (n.color == Color::Red ==> !is_red(n.left)
            && !is_red(n.right)),
    }
}

/// No red node below the root has a red child (the root may).
pub open spec fn inv_c2(t: Option<Box<Node>>) -> bool {
    match t {
        None => true,
        Some(n) => inv_c(n.left) && inv_c(n.right),
    }
}

/// A red-black tree: balanced black heights, no red node with a red child, a black
/// root.
pub open spec fn is_rbt(t: Option<Box<Node>>) -> bool {
    inv_c(t) && inv_h(t) && !is_red(t)
}

/// The number of nodes on the tree's longest path from the root.
pub open spec fn height(t: Option<Box<Node>>) -> nat
    decreases t,
{
    match t {
        None => 0,
        Some(n) => 1 + if height(n.left) >= height(n.right) {
            height(n.left)
        } else {
            height(n.right)
        },
    }
}

proof fn lemma_height_bounds(t: Option<Box<Node>>)
    ensures
        height(t) <= inorder(t).len(),
        inv_c(t) && inv_h(t) ==> height(t) <= 2 * bheight(t) + if is_red(t) { 1int } else { 0int },
        inv_h(t) ==> pow2(bheight(t)) <= inorder(t).len() + 1,
    decreases t,
{
    match t {
        None => {
            lemma_pow2_pos(0);
            vstd::arithmetic::power2::lemma2_to64();
        },
        Some(n) => {
            lemma_height_bounds(n.left);
            lemma_height_bounds(n.right);
            if n.color == Color::Black && bheight(t) > 0 {
                lemma_pow2_unfold(bheight(t));
            }
        },
    }
}

fn is_red_link(t: &Option<Box<Node>>) -> (b: bool)
    ensures
        b == is_red(*t),
{
    match t {
        Some(n) => n.color == Color::Red,
        None => false,
    }
}

fn node(color: Color, left: Option<Box<Node>>, key: PropertyKey, value: PropertyValue, right: Option<
    Box<Node>,
>) -> (t: Box<Node>)
    ensures
        t.color == color,
        t.left == left,
        t.right == right,
        t.key@ == key@,
        t.value == value,
        inorder(Some(t)) == inorder(left) + seq![(key@, value)] + inorder(right),
        inv_h(Some(t)) == (inv_h(left) && inv_h(right) && bheight(left) == bheight(right)),
        bheight(Some(t)) == bheight(left) + if color == Color::Black { 1nat } else { 0nat },
        inv_c(Some(t)) == (inv_c(left) && inv_c(right) && (color == Color::Red ==> !is_red(left)
            && !is_red(right))),
        inv_c2(Some(t)) == (inv_c(left) && inv_c(right)),
        is_red(Some(t)) == (color == Color::Red),
{
    Box::new(Node { color, key, value, left, right })
}

/// Rebalances a black node whose left child may be red with a red child.
fn bali_l(lo: Option<Box<Node>>, key: PropertyKey, value: PropertyValue, r: Option<Box<Node>>) -> (t: Box<Node>)
    ensures
        inorder(Some(t)) == inorder(lo) + seq![(key@, value)] + inorder(r),
        inv_h(lo) && inv_h(r) && bheight(lo) == bheight(r) ==> inv_h(Some(t)) && bheight(Some(t))
            == bheight(lo) + 1,
        inv_c2(lo) && inv_c(r) ==> inv_c(Some(t)),
{
    let l = match lo {
        Some(l) => l,
        None => {
            return node(Color::Black, None, key, value, r);
        },
    };
    let ghost lin = inorder(Some(l));
    let ghost lg = Some(l);
    let Node { color: lc, key: lk, value: lv, left: ll, right: lr } = *l;
    assert(lin == inorder(ll) + seq![(lk@, lv)] + inorder(lr));
    assert(inv_h(lg) == (inv_h(ll) && inv_h(lr) && bheight(ll) == bheight(lr)));
    assert(bheight(lg) == bheight(ll) + if lc == Color::Black { 1nat } else { 0nat });
    assert(inv_c2(lg) == (inv_c(ll) && inv_c(lr)));
    if lc == Color::Red {
        if is_red_link(&ll) {
            match ll {
                Some(llb) => {
                    let ghost g = inorder(Some(llb));
                    let ghost gt = Some(llb);
                    let Node { color: _, key: ak, value: av, left: t1, right: t2 } = *llb;
                    assert(g == inorder(t1) + seq![(ak@, av)] + inorder(t2));
                    assert(inv_h(gt) == (inv_h(t1) && inv_h(t2) && bheight(t1) == bheight(t2)));
                    assert(bheight(gt) == bheight(t1));
                    assert(inv_c(gt) ==> inv_c(t1) && inv_c(t2));
                    let left = node(Color::Black, t1, ak, av, t2);
                    let right = node(Color::Black, lr, key, value, r);
                    let t = node(Color::Red, Some(left), lk, lv, Some(right));
                    assert(inorder(Some(t)) =~= lin + seq![(key@, value)] + inorder(r));
                    return t;
                },
                None => {},
            }
        } else if is_red_link(&lr) {
            match lr {
                Some(lrb) => {
                    let ghost g = inorder(Some(lrb));
                    let ghost gt = Some(lrb);
                    let Node { color: _, key: bk, value: bv, left: t2, right: t3 } = *lrb;
                    assert(g == inorder(t2) + seq![(bk@, bv)] + inorder(t3));
                    assert(inv_h(gt) == (inv_h(t2) && inv_h(t3) && bheight(t2) == bheight(t3)));
                    assert(bheight(gt) == bheight(t2));
                    assert(inv_c(gt) ==> inv_c(t2) && inv_c(t3));
                    let left = node(Color::Black, ll, lk, lv, t2);
                    let right = node(Color::Black, t3, key, value, r);
                    let t = node(Color::Red, Some(left), bk, bv, Some(right));
                    assert(inorder(Some(t)) =~= lin + seq![(key@, value)] + inorder(r));
                    return t;
                },
                None => {},
            }
        }
    }
    let l2 = node(lc, ll, lk, lv, lr);
    node(Color::Black, Some(l2), key, value, r)
}

/// Rebalances a black node whose right child may be red with a red child.
fn bali_r(l: Option<Box<Node>>, key: PropertyKey, value: PropertyValue, ro: Option<Box<Node>>) -> (t: Box<Node>)
    ensures
        inorder(Some(t)) == inorder(l) + seq![(key@, value)] + inorder(ro),
        inv_h(l) && inv_h(ro) && bheight(l) == bheight(ro) ==> inv_h(Some(t)) && bheight(Some(t))
            == bheight(l) + 1,
        inv_c(l) && inv_c2(ro) ==> inv_c(Some(t)),
{
    let r = match ro {
        Some(r) => r,
        None => {
            return node(Color::Black, l, key, value, None);
        },
    };
    let ghost rin = inorder(Some(r));
    let ghost rg = Some(r);
    let Node { color: rc, key: rk, value: rv, left: rl, right: rr } = *r;
    assert(rin == inorder(rl) + seq![(rk@, rv)] + inorder(rr));
    assert(inv_h(rg) == (inv_h(rl) && inv_h(rr) && bheight(rl) == bheight(rr)));
    assert(bheight(rg) == bheight(rl) + if rc == Color::Black { 1nat } else { 0nat });
    assert(inv_c2(rg) == (inv_c(rl) && inv_c(rr)));
    if rc == Color::Red {
        if is_red_link(&rr) {
            match rr {
                Some(rrb) => {
                    let ghost g = inorder(Some(rrb));
                    let ghost gt = Some(rrb);
                    let Node { color: _, key: ck, value: cv, left: t3, right: t4 } = *rrb;
                    assert(g == inorder(t3) + seq![(ck@, cv)] + inorder(t4));
                    assert(inv_h(gt) == (inv_h(t3) && inv_h(t4) && bheight(t3) == bheight(t4)));
                    assert(bheight(gt) == bheight(t3));
                    assert(inv_c(gt) ==> inv_c(t3) && inv_c(t4));
                    let left = node(Color::Black, l, key, value, rl);
                    let right = node(Color::Black, t3, ck, cv, t4);
                    let t = node(Color::Red, Some(left), rk, rv, Some(right));
                    assert(inorder(Some(t)) =~= inorder(l) + seq![(key@, value)] + rin);
                    return t;
                },
                None => {},
            }
        } else if is_red_link(&rl) {
            match rl {
                Some(rlb) => {
                    let ghost g = inorder(Some(rlb));
                    let ghost gt = Some(rlb);
                    let Node { color: _, key: bk, value: bv, left: t2, right: t3 } = *rlb;
                    assert(g == inorder(t2) + seq![(bk@, bv)] + inorder(t3));
                    assert(inv_h(gt) == (inv_h(t2) && inv_h(t3) && bheight(t2) == bheight(t3)));
                    assert(bheight(gt) == bheight(t2));
                    assert(inv_c(gt) ==> inv_c(t2) && inv_c(t3));
                    let left = node(Color::Black, l, key, value, t2);
                    let right = node(Color::Black, t3, rk, rv, rr);
                    let t = node(Color::Red, Some(left), bk, bv, Some(right));
                    assert(inorder(Some(t)) =~= inorder(l) + seq![(key@, value)] + rin);
                    return t;
                },
                None => {},
            }
        }
    }
    let r2 = node(rc, rl, rk, rv, rr);
    node(Color::Black, l, key, value, Some(r2))
}

/// Inserts `value` under `key` below `t`, handing back the value it replaced.
fn ins(t: Option<Box<Node>>, key: PropertyKey, value: PropertyValue) -> (r: (Box<Node>, Option<
    PropertyValue,
>))
    requires
        sorted_kv(inorder(t)),
    ensures
        sorted_kv(inorder(Some(r.0))),
        map_of(inorder(Some(r.0))) == map_of(inorder(t)).insert(key@, value),
        inv_c(t) && inv_h(t) ==> inv_c2(Some(r.0)) && (!is_red(t) ==> inv_c(Some(r.0))) && inv_h(
            Some(r.0),
        ) && bheight(Some(r.0)) == bheight(t),
        r.1 == (if map_of(inorder(t)).contains_key(key@) {
            Some(map_of(inorder(t))[key@])
        } else {
            None
        }),
    decreases t,
{
    match t {
        None => {
            let n = node(Color::Red, None, key, value, None);
            proof {
                assert(inorder(Some(n)) =~= seq![(key@, value)]);
                assert(map_of(inorder(t)) =~= Map::<KeyView, PropertyValue>::empty());
                lemma_map_at(inorder(Some(n)), 0);
                assert(map_of(inorder(Some(n))) =~= map_of(inorder(t)).insert(key@, value));
            }
            (n, None)
        },
        Some(b) => {
            let ghost lin = inorder(b.left);
            let ghost rin = inorder(b.right);
            let ghost x = (b.key@, b.value);
            proof {
                lemma_map_of_concat(lin, x, rin);
                lemma_sorted_concat(lin, x, rin);
            }
            let Node { color, key: bk, value: bv, left, right } = *b;
            let c = key.exact_compare(&bk);
            if c < 0 {
                let (l2, old) = ins(left, key, value);
                proof {
                    let lin2 = inorder(Some(l2));
                    lemma_before_via_map(lin2, lin, key@, x.0);
                    lemma_sorted_concat(lin2, x, rin);
                    lemma_map_of_concat(lin2, x, rin);
                    lemma_key_before_strict_total(key@, x.0, key@);
                    if map_of(rin).contains_key(key@) {
                        lemma_key_before_strict_total(key@, x.0, key@);
                    }
                    assert(map_of(inorder(Some(l2))).union_prefer_right(map_of(rin)).insert(x.0, x.1)
                        =~= map_of(lin).union_prefer_right(map_of(rin)).insert(x.0, x.1).insert(key@, value));
                }
                let n = if color == Color::Black {
                    bali_l(Some(l2), bk, bv, right)
                } else {
                    node(Color::Red, Some(l2), bk, bv, right)
                };
                (n, old)
            } else if c > 0 {
                let (r2, old) = ins(right, key, value);
                proof {
                    let rin2 = inorder(Some(r2));
                    lemma_after_via_map(rin2, rin, key@, x.0);
                    lemma_sorted_concat(lin, x, rin2);
                    lemma_map_of_concat(lin, x, rin2);
                    lemma_key_before_strict_total(x.0, key@, x.0);
                    assert(map_of(lin).union_prefer_right(map_of(inorder(Some(r2)))).insert(x.0, x.1)
                        =~= map_of(lin).union_prefer_right(map_of(rin)).insert(x.0, x.1).insert(key@, value));
                }
                let n = if color == Color::Black {
                    bali_r(left, bk, bv, Some(r2))
                } else {
                    node(Color::Red, left, bk, bv, Some(r2))
                };
                (n, old)
            } else {
                let n = node(color, left, bk, value, right);
                proof {
                    let y = (x.0, value);
                    lemma_sorted_concat(lin, y, rin);
                    lemma_map_of_concat(lin, y, rin);
                    assert(map_of(lin).union_prefer_right(map_of(rin)).insert(x.0, value) =~= map_of(
                        lin,
                    ).union_prefer_right(map_of(rin)).insert(x.0, x.1).insert(key@, value));
                }
                (n, Some(bv))
            }
        },
    }
}

proof fn lemma_unfold(t: Option<Box<Node>>)
    ensures
        match t {
            None => {
                &&& inorder(t) == Seq::<(KeyView, PropertyValue)>::empty()
                &&& bheight(t) == 0
                &&& inv_h(t)
                &&& inv_c(t)
                &&& inv_c2(t)
                &&& !is_red(t)
            },
            Some(n) => {
                &&& inorder(t) == inorder(n.left) + seq![(n.key@, n.value)] + inorder(n.right)
                &&& bheight(t) == bheight(n.left) + if n.color == Color::Black { 1nat } else { 0nat }
                &&& inv_h(t) == (inv_h(n.left) && inv_h(n.right) && bheight(n.left) == bheight(n.right))
                &&& inv_c(t) == (inv_c(n.left) && inv_c(n.right) && (n.color == Color::Red ==> !is_red(
                    n.left,
                ) && !is_red(n.right)))
                &&& inv_c2(t) == (inv_c(n.left) && inv_c(n.right))
                &&& is_red(t) == (n.color == Color::Red)
                &&& inorder(n.left).len() < inorder(t).len()
                &&& inorder(n.right).len() < inorder(t).len()
            },
        },
{
}

/// The tree with its root painted red.
fn paint_red(t: Option<Box<Node>>) -> (r: Option<Box<Node>>)
    ensures
        inorder(r) == inorder(t),
        inv_h(r) == inv_h(t),
        t is None ==> r is None,
        t is Some && !is_red(t) ==> bheight(r) + 1 == bheight(t),
        is_red(t) ==> bheight(r) == bheight(t),
        inv_c(t) ==> inv_c2(r),
        t is Some ==> is_red(r),
{
    match t {
        None => None,
        Some(b) => {
            proof {
                lemma_unfold(Some(b));
            }
            let Node { color: _, key, value, left, right } = *b;
            Some(node(Color::Red, left, key, value, right))
        },
    }
}

/// The tree with its root painted black.
fn paint_black(t: Option<Box<Node>>) -> (r: Option<Box<Node>>)
    ensures
        inorder(r) == inorder(t),
        inv_h(r) == inv_h(t),
        !is_red(r),
        inv_c2(t) ==> inv_c(r),
        inv_c2(t) ==> inv_c2(r),
{
    match t {
        None => None,
        Some(b) => {
            proof {
                lemma_unfold(Some(b));
            }
            let Node { color: _, key, value, left, right } = *b;
            Some(node(Color::Black, left, key, value, right))
        },
    }
}

/// The facts one unfolding of the tree predicates gives on a node.
proof fn lemma_node(n: Box<Node>)
    ensures
        inorder(Some(n)) == inorder(n.left) + seq![(n.key@, n.value)] + inorder(n.right),
        bheight(Some(n)) == bheight(n.left) + if n.color == Color::Black { 1nat } else { 0nat },
        inv_h(Some(n)) == (inv_h(n.left) && inv_h(n.right) && bheight(n.left) == bheight(n.right)),
        inv_c(Some(n)) == (inv_c(n.left) && inv_c(n.right) && (n.color == Color::Red ==> !is_red(
            n.left,
        ) && !is_red(n.right))),
        inv_c2(Some(n)) == (inv_c(n.left) && inv_c(n.right)),
        is_red(Some(n)) == (n.color == Color::Red),
        inorder(n.left).len() < inorder(Some(n)).len(),
        inorder(n.right).len() < inorder(Some(n)).len(),
{
}

/// The facts the tree predicates give on the empty tree.
proof fn lemma_leaf()
    ensures
        inorder(None) == Seq::<(KeyView, PropertyValue)>::empty(),
        bheight(None) == 0,
        inv_h(None),
        inv_c(None),
        inv_c2(None),
        !is_red(None),
{
}

/// `bald_l` when the left subtree has a red root: that root turns black.
fn bald_l_red_left(lb: Box<Node>, key: PropertyKey, value: PropertyValue, r: Option<Box<Node>>) -> (t: Box<Node>)
    requires
        lb.color == Color::Red,
    ensures
        inorder(Some(t)) == inorder(Some(lb)) + seq![(key@, value)] + inorder(r),
        inv_h(Some(lb)) && inv_h(r) && bheight(Some(lb)) + 1 == bheight(r) ==> inv_h(Some(t))
            && bheight(Some(t)) == bheight(r),
        inv_c2(Some(lb)) && inv_c(r) && !is_red(r) ==> inv_c(Some(t)),
        inv_c2(Some(lb)) && inv_c(r) ==> inv_c2(Some(t)),
{
    proof {
        lemma_node(lb);
    }
    let ghost lin = inorder(Some(lb));
    let Node { color: _, key: xk, value: xv, left: t1, right: t2 } = *lb;
    let b = node(Color::Black, t1, xk, xv, t2);
    let t = node(Color::Red, Some(b), key, value, r);
    assert(inorder(Some(t)) =~= lin + seq![(key@, value)] + inorder(r));
    t
}

/// `bald_l` when the left subtree is black-rooted and the right one black: the right
/// root turns red and the node is rebalanced.
fn bald_l_black_right(l: Option<Box<Node>>, key: PropertyKey, value: PropertyValue, rb: Box<Node>) -> (t: Box<Node>)
    requires
        !is_red(l),
        rb.color == Color::Black,
    ensures
        inorder(Some(t)) == inorder(l) + seq![(key@, value)] + inorder(Some(rb)),
        inv_h(l) && inv_h(Some(rb)) && bheight(l) + 1 == bheight(Some(rb)) ==> inv_h(Some(t))
            && bheight(Some(t)) == bheight(Some(rb)),
        inv_c2(l) && inv_c(Some(rb)) ==> inv_c(Some(t)),
{
    proof {
        lemma_node(rb);
        lemma_unfold(l);
    }
    let ghost rin = inorder(Some(rb));
    let Node { color: _, key: yk, value: yv, left: t2, right: t3 } = *rb;
    let rr = node(Color::Red, t2, yk, yv, t3);
    bali_r(l, key, value, Some(rr))
}

/// `bald_l` when the left subtree is black-rooted and the right one red with a black
/// left child: that child's left part moves under the node, and the rest is rebalanced.
#[verifier::rlimit(40)]
fn bald_l_red_right(l: Option<Box<Node>>, key: PropertyKey, value: PropertyValue, rb: Box<Node>) -> (t: Box<Node>)
    requires
        !is_red(l),
        rb.color == Color::Red,
        rb.left matches Some(x) && x.color == Color::Black,
    ensures
        inorder(Some(t)) == inorder(l) + seq![(key@, value)] + inorder(Some(rb)),
        inv_h(l) && inv_h(Some(rb)) && bheight(l) + 1 == bheight(Some(rb)) && inv_c(Some(rb))
            ==> inv_h(Some(t)) && bheight(Some(t)) == bheight(Some(rb)),
        inv_c2(l) && inv_c(Some(rb)) ==> inv_c2(Some(t)),
{
    proof {
        lemma_node(rb);
        lemma_unfold(l);
    }
    let ghost rin = inorder(Some(rb));
    let Node { color: _, key: zk, value: zv, left: rl, right: t4 } = *rb;
    proof {
        lemma_unfold(t4);
    }
    match rl {
        Some(rlb) => {
            proof {
                lemma_node(rlb);
            }
            let ghost rlin = inorder(Some(rlb));
            let Node { color: _, key: yk, value: yv, left: t2, right: t3 } = *rlb;
            let left = node(Color::Black, l, key, value, t2);
            let t4r = paint_red(t4);
            let right = bali_r(t3, zk, zv, t4r);
            let t = node(Color::Red, Some(left), yk, yv, Some(right));
            assert(inorder(Some(t)) =~= inorder(l) + seq![(key@, value)] + rin);
            t
        },
        None => node(Color::Red, l, key, value, None),
    }
}

/// Rebuilds a node whose left subtree lost one black level.
fn bald_l(l: Option<Box<Node>>, key: PropertyKey, value: PropertyValue, r: Option<Box<Node>>) -> (t: Box<Node>)
    ensures
        inorder(Some(t)) == inorder(l) + seq![(key@, value)] + inorder(r),
        inv_h(l) && inv_h(r) && bheight(l) + 1 == bheight(r) && inv_c(r) ==> inv_h(Some(t)) && bheight(
            Some(t),
        ) == bheight(r),
        inv_h(l) && inv_h(r) && bheight(l) + 1 == bheight(r) && !is_red(r) ==> inv_h(Some(t))
            && bheight(Some(t)) == bheight(r),
        inv_c2(l) && inv_c(r) && !is_red(r) ==> inv_c(Some(t)),
        inv_c2(l) && inv_c(r) ==> inv_c2(Some(t)),
{
    proof {
        lemma_unfold(r);
    }
    if is_red_link(&l) {
        match l {
            Some(lb) => {
                return bald_l_red_left(lb, key, value, r);
            },
            None => {
                return node(Color::Red, None, key, value, r);
            },
        }
    }
    let r_black = match &r {
        Some(rb) => rb.color == Color::Black,
        None => false,
    };
    let r_red_black_left = match &r {
        Some(rb) => rb.color == Color::Red && match &rb.left {
            Some(x) => x.color == Color::Black,
            None => false,
        },
        None => false,
    };
    match r {
        Some(rb) => {
            if r_black {
                bald_l_black_right(l, key, value, rb)
            } else if r_red_black_left {
                bald_l_red_right(l, key, value, rb)
            } else {
                proof {
                    lemma_unfold(l);
                    lemma_node(rb);
                }
                node(Color::Red, l, key, value, Some(rb))
            }
        },
        None => {
            proof {
                lemma_unfold(l);
            }
            node(Color::Red, l, key, value, None)
        },
    }
}

/// `bald_r` when the right subtree has a red root: that root turns black.
fn bald_r_red_right(l: Option<Box<Node>>, key: PropertyKey, value: PropertyValue, rb: Box<Node>) -> (t: Box<Node>)
    requires
        rb.color == Color::Red,
    ensures
        inorder(Some(t)) == inorder(l) + seq![(key@, value)] + inorder(Some(rb)),
        inv_h(l) && inv_h(Some(rb)) && bheight(l) == bheight(Some(rb)) + 1 ==> inv_h(Some(t))
            && bheight(Some(t)) == bheight(l),
        inv_c(l) && inv_c2(Some(rb)) && !is_red(l) ==> inv_c(Some(t)),
        inv_c(l) && inv_c2(Some(rb)) ==> inv_c2(Some(t)),
{
    proof {
        lemma_node(rb);
    }
    let ghost rin = inorder(Some(rb));
    let Node { color: _, key: yk, value: yv, left: t2, right: t3 } = *rb;
    let b = node(Color::Black, t2, yk, yv, t3);
    let t = node(Color::Red, l, key, value, Some(b));
    assert(inorder(Some(t)) =~= inorder(l) + seq![(key@, value)] + rin);
    t
}

/// `bald_r` when the right subtree is black-rooted and the left one black: the left
/// root turns red and the node is rebalanced.
fn bald_r_black_left(lb: Box<Node>, key: PropertyKey, value: PropertyValue, r: Option<Box<Node>>) -> (t: Box<Node>)
    requires
        !is_red(r),
        lb.color == Color::Black,
    ensures
        inorder(Some(t)) == inorder(Some(lb)) + seq![(key@, value)] + inorder(r),
        inv_h(Some(lb)) && inv_h(r) && bheight(Some(lb)) == bheight(r) + 1 ==> inv_h(Some(t))
            && bheight(Some(t)) == bheight(Some(lb)),
        inv_c(Some(lb)) && inv_c2(r) ==> inv_c(Some(t)),
{
    proof {
        lemma_node(lb);
        lemma_unfold(r);
    }
    let ghost lin = inorder(Some(lb));
    let Node { color: _, key: xk, value: xv, left: t1, right: t2 } = *lb;
    let ll = node(Color::Red, t1, xk, xv, t2);
    bali_l(Some(ll), key, value, r)
}

/// `bald_r` when the right subtree is black-rooted and the left one red with a black
/// right child: that child's right part moves under the node, and the rest is
/// rebalanced.
#[verifier::rlimit(40)]
fn bald_r_red_left(lb: Box<Node>, key: PropertyKey, value: PropertyValue, r: Option<Box<Node>>) -> (t: Box<Node>)
    requires
        !is_red(r),
        lb.color == Color::Red,
        lb.right matches Some(x) && x.color == Color::Black,
    ensures
        inorder(Some(t)) == inorder(Some(lb)) + seq![(key@, value)] + inorder(r),
        inv_h(Some(lb)) && inv_h(r) && bheight(Some(lb)) == bheight(r) + 1 && inv_c(Some(lb))
            ==> inv_h(Some(t)) && bheight(Some(t)) == bheight(Some(lb)),
        inv_c(Some(lb)) && inv_c2(r) ==> inv_c2(Some(t)),
{
    proof {
        lemma_node(lb);
        lemma_unfold(r);
    }
    let ghost lin = inorder(Some(lb));
    let Node { color: _, key: xk, value: xv, left: t1, right: lr } = *lb;
    proof {
        lemma_unfold(t1);
    }
    match lr {
        Some(lrb) => {
            proof {
                lemma_node(lrb);
            }
            let Node { color: _, key: yk, value: yv, left: t2, right: t3 } = *lrb;
            let right = node(Color::Black, t3, key, value, r);
            let t1r = paint_red(t1);
            let left = bali_l(t1r, xk, xv, t2);
            let t = node(Color::Red, Some(left), yk, yv, Some(right));
            assert(inorder(Some(t)) =~= lin + seq![(key@, value)] + inorder(r));
            t
        },
        None => node(Color::Red, None, key, value, r),
    }
}

/// Rebuilds a node whose right subtree lost one black level.
fn bald_r(l: Option<Box<Node>>, key: PropertyKey, value: PropertyValue, r: Option<Box<Node>>) -> (t: Box<Node>)
    ensures
        inorder(Some(t)) == inorder(l) + seq![(key@, value)] + inorder(r),
        inv_h(l) && inv_h(r) && bheight(l) == bheight(r) + 1 && inv_c(l) ==> inv_h(Some(t)) && bheight(
            Some(t),
        ) == bheight(l),
        inv_h(l) && inv_h(r) && bheight(l) == bheight(r) + 1 && !is_red(l) ==> inv_h(Some(t))
            && bheight(Some(t)) == bheight(l),
        inv_c(l) && inv_c2(r) && !is_red(l) ==> inv_c(Some(t)),
        inv_c(l) && inv_c2(r) ==> inv_c2(Some(t)),
{
    proof {
        lemma_unfold(l);
    }
    if is_red_link(&r) {
        match r {
            Some(rb) => {
                return bald_r_red_right(l, key, value, rb);
            },
            None => {
                return node(Color::Red, l, key, value, None);
            },
        }
    }
    let l_black = match &l {
        Some(lb) => lb.color == Color::Black,
        None => false,
    };
    let l_red_black_right = match &l {
        Some(lb) => lb.color == Color::Red && match &lb.right {
            Some(x) => x.color == Color::Black,
            None => false,
        },
        None => false,
    };
    match l {
        Some(lb) => {
            if l_black {
                bald_r_black_left(lb, key, value, r)
            } else if l_red_black_right {
                bald_r_red_left(lb, key, value, r)
            } else {
                proof {
                    lemma_unfold(r);
                    lemma_node(lb);
                }
                node(Color::Red, Some(lb), key, value, r)
            }
        },
        None => {
            proof {
                lemma_unfold(r);
            }
            node(Color::Red, None, key, value, r)
        },
    }
}

proof fn lemma_inv_c_c2(t: Option<Box<Node>>)
    ensures
        inv_c(t) ==> inv_c2(t),
{
    lemma_unfold(t);
}

/// `join` of two red-rooted trees.
#[verifier::rlimit(40)]
fn join_red_red(lb: Box<Node>, rb: Box<Node>) -> (t: Box<Node>)
    requires
        lb.color == Color::Red,
        rb.color == Color::Red,
    ensures
        inorder(Some(t)) == inorder(Some(lb)) + inorder(Some(rb)),
        inv_h(Some(lb)) && inv_h(Some(rb)) && bheight(Some(lb)) == bheight(Some(rb)) ==> inv_h(Some(t))
            && bheight(Some(t)) == bheight(Some(lb)),
        inv_c(Some(lb)) && inv_c(Some(rb)) ==> inv_c2(Some(t)),
    decreases inorder(Some(lb)).len() + inorder(Some(rb)).len(), 0nat,
{
    proof {
        lemma_node(lb);
        lemma_node(rb);
    }
    let ghost lin = inorder(Some(lb));
    let ghost rin = inorder(Some(rb));
    let Node { color: _, key: xk, value: xv, left: t1, right: t2 } = *lb;
    let Node { color: _, key: yk, value: yv, left: t3, right: t4 } = *rb;
    let m = join(t2, t3);
    proof {
        lemma_unfold(m);
        lemma_unfold(t1);
        lemma_unfold(t4);
    }
    let ghost min = inorder(m);
    if is_red_link(&m) {
        match m {
            Some(mb) => {
                proof {
                    lemma_node(mb);
                }
                let Node { color: _, key: zk, value: zv, left: u2, right: u3 } = *mb;
                assert(min == inorder(u2) + seq![(zk@, zv)] + inorder(u3));
                let ghost i1 = inorder(t1);
                let ghost i4 = inorder(t4);
                let left = node(Color::Red, t1, xk, xv, u2);
                let right = node(Color::Red, u3, yk, yv, t4);
                let t = node(Color::Red, Some(left), zk, zv, Some(right));
                assert(inorder(Some(t)) =~= i1 + seq![(xk@, xv)] + min + seq![(yk@, yv)] + i4);
                assert(inorder(Some(t)) =~= lin + rin);
                t
            },
            None => node(Color::Red, t1, xk, xv, t4),
        }
    } else {
        let right = node(Color::Red, m, yk, yv, t4);
        let t = node(Color::Red, t1, xk, xv, Some(right));
        assert(inorder(Some(t)) =~= lin + rin);
        t
    }
}

/// `join` of two black-rooted trees.
#[verifier::rlimit(40)]
fn join_black_black(lb: Box<Node>, rb: Box<Node>) -> (t: Box<Node>)
    requires
        lb.color == Color::Black,
        rb.color == Color::Black,
    ensures
        inorder(Some(t)) == inorder(Some(lb)) + inorder(Some(rb)),
        inv_h(Some(lb)) && inv_h(Some(rb)) && bheight(Some(lb)) == bheight(Some(rb)) ==> inv_h(Some(t))
            && bheight(Some(t)) == bheight(Some(lb)),
        inv_c(Some(lb)) && inv_c(Some(rb)) ==> inv_c(Some(t)),
    decreases inorder(Some(lb)).len() + inorder(Some(rb)).len(), 0nat,
{
    proof {
        lemma_node(lb);
        lemma_node(rb);
    }
    let ghost lin = inorder(Some(lb));
    let ghost rin = inorder(Some(rb));
    let Node { color: _, key: xk, value: xv, left: t1, right: t2 } = *lb;
    let Node { color: _, key: yk, value: yv, left: t3, right: t4 } = *rb;
    let m = join(t2, t3);
    proof {
        lemma_unfold(m);
        lemma_unfold(t1);
        lemma_unfold(t4);
    }
    let ghost min = inorder(m);
    if is_red_link(&m) {
        match m {
            Some(mb) => {
                proof {
                    lemma_node(mb);
                }
                let Node { color: _, key: zk, value: zv, left: u2, right: u3 } = *mb;
                assert(min == inorder(u2) + seq![(zk@, zv)] + inorder(u3));
                let ghost i1 = inorder(t1);
                let ghost i4 = inorder(t4);
                let left = node(Color::Black, t1, xk, xv, u2);
                let right = node(Color::Black, u3, yk, yv, t4);
                let t = node(Color::Red, Some(left), zk, zv, Some(right));
                assert(inorder(Some(t)) =~= i1 + seq![(xk@, xv)] + min + seq![(yk@, yv)] + i4);
                assert(inorder(Some(t)) =~= lin + rin);
                t
            },
            None => node(Color::Black, t1, xk, xv, t4),
        }
    } else {
        let right = node(Color::Black, m, yk, yv, t4);
        let t = bald_l(t1, xk, xv, Some(right));
        assert(inorder(Some(t)) =~= lin + rin);
        t
    }
}

/// Joins two trees whose entries follow one another into one.
fn join(l: Option<Box<Node>>, r: Option<Box<Node>>) -> (t: Option<Box<Node>>)
    ensures
        inorder(t) == inorder(l) + inorder(r),
        inv_h(l) && inv_h(r) && bheight(l) == bheight(r) ==> inv_h(t) && bheight(t) == bheight(l),
        inv_c(l) && inv_c(r) ==> inv_c2(t),
        inv_c(l) && inv_c(r) && !is_red(l) && !is_red(r) ==> inv_c(t),
    decreases inorder(l).len() + inorder(r).len(), 1nat,
{
    proof {
        lemma_unfold(l);
        lemma_unfold(r);
        lemma_inv_c_c2(l);
        lemma_inv_c_c2(r);
    }
    let lb = match l {
        None => {
            assert(inorder(r) =~= inorder(l) + inorder(r));
            return r;
        },
        Some(lb) => lb,
    };
    let rb = match r {
        None => {
            assert(inorder(Some(lb)) =~= inorder(Some(lb)) + inorder(r));
            return Some(lb);
        },
        Some(rb) => rb,
    };
    if lb.color == Color::Red && rb.color == Color::Red {
        Some(join_red_red(lb, rb))
    } else if lb.color == Color::Black && rb.color == Color::Black {
        Some(join_black_black(lb, rb))
    } else if rb.color == Color::Red {
        let ghost rin = inorder(Some(rb));
        let ghost lin = inorder(Some(lb));
        let Node { color: _, key: xk, value: xv, left: t2, right: t3 } = *rb;
        proof {
            lemma_unfold(t3);
        }
        let m = join(Some(lb), t2);
        proof {
            lemma_unfold(m);
        }
        let t = node(Color::Red, m, xk, xv, t3);
        assert(inorder(Some(t)) =~= lin + rin);
        Some(t)
    } else {
        let ghost rin = inorder(Some(rb));
        let ghost lin = inorder(Some(lb));
        let Node { color: _, key: xk, value: xv, left: t1, right: t2 } = *lb;
        proof {
            lemma_unfold(t1);
        }
        let m = join(t2, Some(rb));
        proof {
            lemma_unfold(m);
        }
        let t = node(Color::Red, t1, xk, xv, m);
        assert(inorder(Some(t)) =~= lin + rin);
        Some(t)
    }
}

proof fn lemma_map_of_append(a: Seq<(KeyView, PropertyValue)>, b: Seq<(KeyView, PropertyValue)>)
    requires
        sorted_kv(a + b),
    ensures
        sorted_kv(a),
        sorted_kv(b),
        map_of(a + b) == map_of(a).union_prefer_right(map_of(b)),
{
    let s = a + b;
    let n = a.len() as int;
    assert forall|i: int| 0 <= i < n implies s[i] == a[i] by {}
    assert forall|j: int| 0 <= j < b.len() implies s[n + j] == b[j] by {}
    assert forall|i: int, j: int| 0 <= i < j < a.len() implies key_before(
        #[trigger] a[i].0,
        #[trigger] a[j].0,
    ) by {
        assert(s[i] == a[i] && s[j] == a[j]);
    }
    assert forall|i: int, j: int| 0 <= i < j < b.len() implies key_before(
        #[trigger] b[i].0,
        #[trigger] b[j].0,
    ) by {
        assert(s[n + i] == b[i] && s[n + j] == b[j]);
    }
    let m = map_of(a).union_prefer_right(map_of(b));
    assert forall|k: KeyView| #[trigger] map_of(s).contains_key(k) == m.contains_key(k) by {
        if has_key(s, k) {
            let i = choose|i: int| 0 <= i < s.len() && #[trigger] s[i].0 == k;
            if i < n {
                assert(a[i].0 == k);
                assert(has_key(a, k));
            } else {
                assert(b[i - n].0 == k);
                assert(has_key(b, k));
            }
        }
        if has_key(a, k) {
            let i = choose|i: int| 0 <= i < a.len() && #[trigger] a[i].0 == k;
            assert(s[i].0 == k);
        }
        if has_key(b, k) {
            let j = choose|j: int| 0 <= j < b.len() && #[trigger] b[j].0 == k;
            assert(s[n + j].0 == k);
        }
    }
    assert forall|k: KeyView| map_of(s).contains_key(k) implies map_of(s)[k] == m[k] by {
        let i = key_index(s, k);
        lemma_map_at(s, i);
        if i < n {
            lemma_map_at(a, i);
            if map_of(b).contains_key(k) {
                let j = choose|j: int| 0 <= j < b.len() && #[trigger] b[j].0 == k;
                assert(s[n + j].0 == k);
                lemma_sorted_unique(s, i, n + j);
            }
        } else {
            lemma_map_at(b, i - n);
        }
    }
    assert(map_of(s) =~= m);
}

proof fn lemma_drop_middle(a: Seq<(KeyView, PropertyValue)>, x: (KeyView, PropertyValue), b: Seq<
    (KeyView, PropertyValue),
>)
    requires
        sorted_kv(a + seq![x] + b),
    ensures
        sorted_kv(a + b),
        map_of(a + b) == map_of(a + seq![x] + b).remove(x.0),
{
    lemma_sorted_concat(a, x, b);
    lemma_map_of_concat(a, x, b);
    let s = a + b;
    let n = a.len() as int;
    assert forall|i: int, j: int| 0 <= i < j < s.len() implies key_before(
        #[trigger] s[i].0,
        #[trigger] s[j].0,
    ) by {
        if j < n {
            assert(s[i] == a[i] && s[j] == a[j]);
        } else if i < n {
            assert(s[i] == a[i] && s[j] == b[j - n]);
            lemma_key_before_strict_total(a[i].0, x.0, b[j - n].0);
        } else {
            assert(s[i] == b[i - n] && s[j] == b[j - n]);
        }
    }
    lemma_map_of_append(a, b);
    assert(map_of(a + b) =~= map_of(a + seq![x] + b).remove(x.0));
}

/// A sorted entry sequence has one entry per key of its map.
pub(crate) proof fn lemma_sorted_len(s: Seq<(KeyView, PropertyValue)>)
    requires
        sorted_kv(s),
    ensures
        map_of(s).dom().finite(),
        map_of(s).dom().len() == s.len(),
{
    let keys = s.map_values(|e: (KeyView, PropertyValue)| e.0);
    assert forall|i: int, j: int| 0 <= i < keys.len() && 0 <= j < keys.len() && i != j implies keys[i]
        != keys[j] by {
        if keys[i] == keys[j] {
            lemma_sorted_unique(s, i, j);
        }
    }
    assert(keys.no_duplicates());
    keys.unique_seq_to_set();
    assert forall|k: KeyView| keys.to_set().contains(k) <==> map_of(s).contains_key(k) by {
        if keys.to_set().contains(k) {
            let i = choose|i: int| 0 <= i < keys.len() && keys[i] == k;
            assert(s[i].0 == k);
        }
        if map_of(s).contains_key(k) {
            let i = key_index(s, k);
            assert(keys[i] == k);
        }
    }
    assert(keys.to_set() =~= map_of(s).dom());
}

/// Removes the entry for `key` below `t`, handing back its value.
#[verifier::rlimit(60)]
fn del(t: Option<Box<Node>>, key: &PropertyKey) -> (r: (Option<Box<Node>>, Option<PropertyValue>))
    requires
        sorted_kv(inorder(t)),
    ensures
        sorted_kv(inorder(r.0)),
        map_of(inorder(r.0)) == map_of(inorder(t)).remove(key@),
        r.1 == (if map_of(inorder(t)).contains_key(key@) {
            Some(map_of(inorder(t))[key@])
        } else {
            None
        }),
        t is None ==> r.0 is None,
        inv_h(t) && inv_c(t) ==> inv_h(r.0) && (is_red(t) ==> bheight(r.0) == bheight(t) && inv_c(
            r.0,
        )) && (!is_red(t) ==> inv_c2(r.0) && bheight(r.0) + (if t is Some { 1int } else { 0int })
            == bheight(t)),
    decreases t,
{
    match t {
        None => {
            proof {
                lemma_leaf();
                assert(map_of(inorder(t)) =~= map_of(inorder(t)).remove(key@));
            }
            (None, None)
        },
        Some(b) => {
            let ghost lin = inorder(b.left);
            let ghost rin = inorder(b.right);
            let ghost x = (b.key@, b.value);
            proof {
                lemma_node(b);
                lemma_unfold(b.left);
                lemma_unfold(b.right);
                lemma_map_of_concat(lin, x, rin);
                lemma_sorted_concat(lin, x, rin);
            }
            let l_black = match &b.left {
                Some(n) => n.color == Color::Black,
                None => false,
            };
            let r_black = match &b.right {
                Some(n) => n.color == Color::Black,
                None => false,
            };
            let Node { color, key: bk, value: bv, left, right } = *b;
            let c = key.exact_compare(&bk);
            if c < 0 {
                let (l2, old) = del(left, key);
                proof {
                    let lin2 = inorder(l2);
                    lemma_before_via_map(lin2, lin, key@, x.0);
                    lemma_sorted_concat(lin2, x, rin);
                    lemma_map_of_concat(lin2, x, rin);
                    lemma_key_before_strict_total(key@, x.0, key@);
                    assert(map_of(lin2).union_prefer_right(map_of(rin)).insert(x.0, x.1) =~= map_of(
                        lin,
                    ).union_prefer_right(map_of(rin)).insert(x.0, x.1).remove(key@));
                    lemma_unfold(l2);
                }
                let n = if l_black {
                    bald_l(l2, bk, bv, right)
                } else {
                    node(Color::Red, l2, bk, bv, right)
                };
                (Some(n), old)
            } else if c > 0 {
                let (r2, old) = del(right, key);
                proof {
                    let rin2 = inorder(r2);
                    lemma_after_via_map(rin2, rin, key@, x.0);
                    lemma_sorted_concat(lin, x, rin2);
                    lemma_map_of_concat(lin, x, rin2);
                    lemma_key_before_strict_total(x.0, key@, x.0);
                    assert(map_of(lin).union_prefer_right(map_of(rin2)).insert(x.0, x.1) =~= map_of(
                        lin,
                    ).union_prefer_right(map_of(rin)).insert(x.0, x.1).remove(key@));
                    lemma_unfold(r2);
                }
                let n = if r_black {
                    bald_r(left, bk, bv, r2)
                } else {
                    node(Color::Red, left, bk, bv, r2)
                };
                (Some(n), old)
            } else {
                let j = join(left, right);
                proof {
                    lemma_drop_middle(lin, x, rin);
                }
                (j, Some(bv))
            }
        },
    }
}

/// An ordered map from property keys to properties, kept as a red-black tree.
#[derive(Debug)]
pub struct RbTree {
    root: Option<Box<Node>>,
    len: usize,
}

impl View for RbTree {
    type V = Map<KeyView, PropertyValue>;

    closed spec fn view(&self) -> Map<KeyView, PropertyValue> {
        map_of(inorder(self.root))
    }
}

impl RbTree {
    #[verifier::type_invariant]
    spec fn well_formed(self) -> bool {
        &&& sorted_kv(inorder(self.root))
        &&& is_rbt(self.root)
        &&& self.len == inorder(self.root).len()
    }

    /// The entries in key order.
    pub closed spec fn entries(self) -> Seq<(KeyView, PropertyValue)> {
        inorder(self.root)
    }

    /// An empty tree.
    pub fn new() -> (t: Self)
        ensures
            t@ == Map::<KeyView, PropertyValue>::empty(),
            t.entries().len() == 0,
    {
        let t = RbTree { root: None, len: 0 };
        proof {
            lemma_leaf();
            assert(t@ =~= Map::<KeyView, PropertyValue>::empty());
        }
        t
    }

    /// The number of entries.
    pub fn len(&self) -> (n: usize)
        ensures
            n == self@.dom().len(),
            n == self.entries().len(),
            self@.dom().finite(),
            sorted_kv(self.entries()),
    {
        proof {
            use_type_invariant(self);
            lemma_sorted_len(self.entries());
        }
        self.len
    }

    /// The property under `key`, if any.
    pub fn get(&self, key: &PropertyKey) -> (r: Option<PropertyValue>)
        ensures
            r == (if self@.contains_key(key@) {
                Some(self@[key@])
            } else {
                None
            }),
    {
        proof {
            use_type_invariant(self);
        }
        let mut cur = &self.root;
        loop
            invariant
                sorted_kv(inorder(*cur)),
                map_of(inorder(*cur)).contains_key(key@) <==> self@.contains_key(key@),
                map_of(inorder(*cur)).contains_key(key@) ==> map_of(inorder(*cur))[key@] == self@[key@],
            decreases inorder(*cur).len(),
        {
            match cur {
                None => {
                    proof {
                        lemma_leaf();
                    }
                    return None;
                },
                Some(b) => {
                    proof {
                        lemma_node(*b);
                        lemma_map_of_concat(inorder(b.left), (b.key@, b.value), inorder(b.right));
                        lemma_sorted_concat(inorder(b.left), (b.key@, b.value), inorder(b.right));
                        lemma_key_before_strict_total(key@, b.key@, key@);
                    }
                    let c = key.exact_compare(&b.key);
                    if c == 0 {
                        return Some(b.value);
                    } else if c < 0 {
                        cur = &b.left;
                    } else {
                        cur = &b.right;
                    }
                },
            }
        }
    }

    /// Inserts `value` under `key`, handing back the property it replaced.
    pub fn insert(&mut self, key: PropertyKey, value: PropertyValue) -> (old_value: Option<
        PropertyValue,
    >)
        requires
            old(self)@.contains_key(key@) || old(self)@.dom().len() < usize::MAX,
        ensures
            final(self)@ == old(self)@.insert(key@, value),
            old_value == (if old(self)@.contains_key(key@) {
                Some(old(self)@[key@])
            } else {
                None
            }),
            final(self).entries().len() == old(self).entries().len() + (if old(self)@.contains_key(
                key@,
            ) {
                0int
            } else {
                1int
            }),
    {
        proof {
            use_type_invariant(&*self);
            lemma_sorted_len(inorder(self.root));
        }
        let mut tmp = RbTree::new();
        core::mem::swap(&mut tmp, self);
        let RbTree { root, len: old_len } = tmp;
        let (n, old) = ins(root, key, value);
        let r = paint_black(Some(n));
        let len = if old.is_some() { old_len } else { old_len + 1 };
        proof {
            lemma_sorted_len(inorder(r));
            lemma_unfold(r);
        }
        *self = RbTree { root: r, len };
        old
    }

    /// Removes the property under `key` and hands it back.
    pub fn remove(&mut self, key: &PropertyKey) -> (old_value: Option<PropertyValue>)
        ensures
            final(self)@ == old(self)@.remove(key@),
            old_value == (if old(self)@.contains_key(key@) {
                Some(old(self)@[key@])
            } else {
                None
            }),
            final(self).entries().len() == old(self).entries().len() - (if old(self)@.contains_key(
                key@,
            ) {
                1int
            } else {
                0int
            }),
    {
        proof {
            use_type_invariant(&*self);
            lemma_sorted_len(inorder(self.root));
        }
        let mut tmp = RbTree::new();
        core::mem::swap(&mut tmp, self);
        let RbTree { root, len: old_len } = tmp;
        proof {
            lemma_unfold(root);
        }
        let (n, old) = del(root, key);
        let r = paint_black(n);
        let len = if old.is_some() { old_len - 1 } else { old_len };
        proof {
            lemma_sorted_len(inorder(r));
        }
        *self = RbTree { root: r, len };
        old
    }

    /// The tree's height: the nodes on its longest path.
    pub closed spec fn tree_height(self) -> nat {
        height(self.root)
    }

    /// The tree's black height: the black nodes on its leftmost path.
    pub closed spec fn black_height(self) -> nat {
        bheight(self.root)
    }

    /// The values in key order.
    pub fn values_in_order(&self) -> (v: Vec<PropertyValue>)
        ensures
            v@ == self.entries().map_values(|e: (KeyView, PropertyValue)| e.1),
    {
        let mut out: Vec<PropertyValue> = Vec::new();
        collect_values(&self.root, &mut out);
        proof {
            assert(out@ =~= self.entries().map_values(|e: (KeyView, PropertyValue)| e.1));
        }
        out
    }

    /// A copy of the tree: the same entries in the same order; keys share their names.
    pub fn copy(&self) -> (t: RbTree)
        ensures
            t@ == self@,
            t.entries() == self.entries(),
    {
        proof {
            use_type_invariant(self);
        }
        RbTree { root: copy_link(&self.root), len: self.len }
    }

    /// The keys in key order.
    pub fn keys_in_order(&self) -> (v: Vec<PropertyKey>)
        ensures
            v@.len() == self.entries().len(),
            forall|i: int| 0 <= i < v@.len() ==> #[trigger] v@[i]@ == self.entries()[i].0,
    {
        let mut out: Vec<PropertyKey> = Vec::new();
        collect_keys(&self.root, &mut out);
        proof {
            assert forall|i: int| 0 <= i < out@.len() implies #[trigger] out@[i]@ == self.entries()[i].0 by {
                assert(out@[0 + i]@ == inorder(self.root)[i].0);
            }
        }
        out
    }

    /// The number of black nodes on the leftmost path. The tree is balanced: every
    /// path is at most twice as long, and the tree holds at least `2^h - 1` entries.
    pub fn black_height_of(&self) -> (h: usize)
        ensures
            h == self.black_height(),
            self.tree_height() <= 2 * h,
            pow2(h as nat) <= self@.dom().len() + 1,
    {
        proof {
            use_type_invariant(self);
            lemma_height_bounds(self.root);
            lemma_sorted_len(inorder(self.root));
            lemma_bheight_le_len(self.root);
        }
        let mut h: usize = 0;
        let mut cur = &self.root;
        loop
            invariant
                h + bheight(*cur) == bheight(self.root),
                bheight(*cur) <= inorder(*cur).len(),
                bheight(self.root) <= inorder(self.root).len(),
                inorder(self.root).len() <= usize::MAX,
                height(self.root) <= 2 * bheight(self.root),
                pow2(bheight(self.root)) <= self@.dom().len() + 1,
            decreases inorder(*cur).len(),
        {
            match cur {
                None => {
                    return h;
                },
                Some(b) => {
                    proof {
                        lemma_node(*b);
                        lemma_bheight_le_len(b.left);
                    }
                    if b.color == Color::Black {
                        h = h + 1;
                    }
                    cur = &b.left;
                },
            }
        }
    }

    /// The nodes on the longest path.
    pub fn height_of(&self) -> (h: usize)
        ensures
            h == self.tree_height(),
            h <= 2 * self.black_height(),
    {
        proof {
            use_type_invariant(self);
            lemma_height_bounds(self.root);
        }
        height_of_link(&self.root)
    }
}

proof fn lemma_bheight_le_len(t: Option<Box<Node>>)
    ensures
        bheight(t) <= inorder(t).len(),
    decreases t,
{
    if let Some(n) = t {
        lemma_bheight_le_len(n.left);
    }
}

fn collect_values(t: &Option<Box<Node>>, out: &mut Vec<PropertyValue>)
    ensures
        final(out)@ == old(out)@ + inorder(*t).map_values(|e: (KeyView, PropertyValue)| e.1),
    decreases *t,
{
    match t {
        None => {
            assert(inorder(*t).map_values(|e: (KeyView, PropertyValue)| e.1) =~= Seq::<PropertyValue>::empty());
            assert(out@ =~= old(out)@ + Seq::<PropertyValue>::empty());
        },
        Some(b) => {
            proof {
                lemma_node(*b);
            }
            let ghost start = out@;
            collect_values(&b.left, out);
            out.push(b.value);
            collect_values(&b.right, out);
            assert(inorder(*t).map_values(|e: (KeyView, PropertyValue)| e.1) =~= inorder(b.left).map_values(
                |e: (KeyView, PropertyValue)| e.1,
            ) + seq![b.value] + inorder(b.right).map_values(|e: (KeyView, PropertyValue)| e.1));
            assert(out@ =~= start + inorder(*t).map_values(|e: (KeyView, PropertyValue)| e.1));
        },
    }
}

fn collect_keys(t: &Option<Box<Node>>, out: &mut Vec<PropertyKey>)
    ensures
        final(out)@.len() == old(out)@.len() + inorder(*t).len(),
        forall|i: int| 0 <= i < old(out)@.len() ==> #[trigger] final(out)@[i] == old(out)@[i],
        forall|j: int|
            0 <= j < inorder(*t).len() ==> #[trigger] final(out)@[old(out)@.len() + j]@
                == inorder(*t)[j].0,
    decreases *t,
{
    match t {
        None => {},
        Some(b) => {
            proof {
                lemma_node(*b);
            }
            let ghost start = out@;
            collect_keys(&b.left, out);
            let ghost mid = out@;
            out.push(b.key.clone_op());
            let ghost mid2 = out@;
            collect_keys(&b.right, out);
            proof {
                let l = inorder(b.left);
                let r = inorder(b.right);
                assert(inorder(*t) =~= l + seq![(b.key@, b.value)] + r);
                assert forall|j: int| 0 <= j < inorder(*t).len() implies #[trigger] out@[start.len() + j]@
                    == inorder(*t)[j].0 by {
                    if j < l.len() {
                        assert(out@[start.len() + j] == mid[start.len() + j]);
                    } else if j == l.len() {
                        assert(out@[start.len() + j] == mid2[start.len() + j]);
                    } else {
                        let k = j - l.len() - 1;
                        assert(out@[mid2.len() + k]@ == r[k].0);
                    }
                }
            }
        },
    }
}

fn copy_link(t: &Option<Box<Node>>) -> (r: Option<Box<Node>>)
    ensures
        inorder(r) == inorder(*t),
        bheight(r) == bheight(*t),
        is_red(r) == is_red(*t),
        inv_h(r) == inv_h(*t),
        inv_c(r) == inv_c(*t),
    decreases *t,
{
    match t {
        None => None,
        Some(b) => {
            let left = copy_link(&b.left);
            let right = copy_link(&b.right);
            Some(Box::new(Node { color: b.color, key: b.key.clone_op(), value: b.value, left, right }))
        },
    }
}

fn height_of_link(t: &Option<Box<Node>>) -> (h: usize)
    requires
        inorder(*t).len() <= usize::MAX,
    ensures
        h == height(*t),
    decreases *t,
{
    proof {
        lemma_height_bounds(*t);
    }
    match t {
        None => 0,
        Some(b) => {
            proof {
                lemma_node(*b);
            }
            let hl = height_of_link(&b.left);
            let hr = height_of_link(&b.right);
            if hl >= hr {
                hl + 1
            } else {
                hr + 1
            }
        },
    }
}

} // verus!
