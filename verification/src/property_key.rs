use vstd::prelude::*;
use crate::string_w::CHncStringW;
use core::cmp::Ordering;

verus! {

/// What identifies a property key: an integer id, or the UTF-16 units of a name.
pub enum KeyView {
    Int(u32),
    Str(Seq<u16>),
}

/// Three-way comparison of two unit sequences as `wcscmp` sees them: the difference of
/// the first differing units, where the end of the shorter sequence reads as a NUL unit.
pub open spec fn wcs_diff(a: Seq<u16>, b: Seq<u16>) -> int
    decreases a.len(),
{
    if a.len() == 0 && b.len() == 0 {
        0
    } else if a.len() == 0 {
        0 - b[0]
    } else if b.len() == 0 {
        a[0] - 0
    } else if a[0] != b[0] {
        a[0] - b[0]
    } else {
        wcs_diff(a.drop_first(), b.drop_first())
    }
}

/// Lexicographic three-way comparison (-1, 0, 1) of unit sequences, a proper prefix
/// coming first.
pub open spec fn lex_rank(a: Seq<u16>, b: Seq<u16>) -> int
    decreases a.len(),
{
    if a.len() == 0 && b.len() == 0 {
        0
    } else if a.len() == 0 {
        -1
    } else if b.len() == 0 {
        1
    } else if a[0] < b[0] {
        -1
    } else if a[0] > b[0] {
        1
    } else {
        lex_rank(a.drop_first(), b.drop_first())
    }
}

/// Key equality as the drawing engine tests it.
pub open spec fn key_eq(a: KeyView, b: KeyView) -> bool {
    match (a, b) {
        (KeyView::Int(x), KeyView::Int(y)) => x == y,
        (KeyView::Str(x), KeyView::Str(y)) => wcs_diff(x, y) == 0,
        _ => false,
    }
}

/// Key order as the drawing engine tests it: integer keys before name keys, integer
/// keys by id, name keys by `wcscmp`.
pub open spec fn key_lt(a: KeyView, b: KeyView) -> bool {
    match (a, b) {
        (KeyView::Int(x), KeyView::Int(y)) => x < y,
        (KeyView::Int(_), KeyView::Str(_)) => true,
        (KeyView::Str(_), KeyView::Int(_)) => false,
        (KeyView::Str(x), KeyView::Str(y)) => wcs_diff(x, y) < 0,
    }
}

/// The exact total order on keys by which a property bag keeps its entries:
/// integer keys before name keys, integer keys by id, names lexicographically.
pub open spec fn key_before(a: KeyView, b: KeyView) -> bool {
    match (a, b) {
        (KeyView::Int(x), KeyView::Int(y)) => x < y,
        (KeyView::Int(_), KeyView::Str(_)) => true,
        (KeyView::Str(_), KeyView::Int(_)) => false,
        (KeyView::Str(x), KeyView::Str(y)) => lex_rank(x, y) < 0,
    }
}

/// A name without an embedded NUL unit (integer keys always qualify).
pub open spec fn nul_free(k: KeyView) -> bool {
    match k {
        KeyView::Int(_) => true,
        KeyView::Str(s) => forall|i: int| 0 <= i < s.len() ==> s[i] != 0,
    }
}

pub proof fn lemma_wcs_diff_antisym(a: Seq<u16>, b: Seq<u16>)
    ensures
        wcs_diff(a, b) == -wcs_diff(b, a),
    decreases a.len(),
{
    if a.len() > 0 && b.len() > 0 && a[0] == b[0] {
        lemma_wcs_diff_antisym(a.drop_first(), b.drop_first());
    }
}

pub proof fn lemma_wcs_diff_refl(a: Seq<u16>)
    ensures
        wcs_diff(a, a) == 0,
    decreases a.len(),
{
    if a.len() > 0 {
        lemma_wcs_diff_refl(a.drop_first());
    }
}

pub proof fn lemma_lex_rank_antisym(a: Seq<u16>, b: Seq<u16>)
    ensures
        lex_rank(a, b) == -lex_rank(b, a),
        -1 <= lex_rank(a, b) <= 1,
    decreases a.len(),
{
    if a.len() > 0 && b.len() > 0 && a[0] == b[0] {
        lemma_lex_rank_antisym(a.drop_first(), b.drop_first());
    }
}

pub proof fn lemma_lex_rank_zero(a: Seq<u16>, b: Seq<u16>)
    ensures
        lex_rank(a, b) == 0 <==> a == b,
    decreases a.len(),
{
    if a.len() > 0 && b.len() > 0 && a[0] == b[0] {
        lemma_lex_rank_zero(a.drop_first(), b.drop_first());
        if a.drop_first() == b.drop_first() {
            assert(a =~= seq![a[0]] + a.drop_first());
            assert(b =~= seq![b[0]] + b.drop_first());
        }
        if a == b {
            assert(a.drop_first() =~= b.drop_first());
        }
    } else if a.len() == 0 && b.len() == 0 {
        assert(a =~= b);
    } else if a.len() > 0 && b.len() > 0 {
        assert(a[0] != b[0]);
        assert(a != b);
    } else {
        assert(a.len() != b.len());
    }
}

pub proof fn lemma_lex_rank_trans(a: Seq<u16>, b: Seq<u16>, c: Seq<u16>)
    requires
        lex_rank(a, b) < 0,
        lex_rank(b, c) < 0,
    ensures
        lex_rank(a, c) < 0,
    decreases a.len(),
{
    if a.len() > 0 && b.len() > 0 && c.len() > 0 && a[0] == b[0] && b[0] == c[0] {
        lemma_lex_rank_trans(a.drop_first(), b.drop_first(), c.drop_first());
    }
}

/// On sequences without NUL units `wcscmp` has the sign of the lexicographic order.
pub proof fn lemma_wcs_diff_matches_lex(a: Seq<u16>, b: Seq<u16>)
    requires
        forall|i: int| 0 <= i < a.len() ==> a[i] != 0,
        forall|i: int| 0 <= i < b.len() ==> b[i] != 0,
    ensures
        (wcs_diff(a, b) < 0) == (lex_rank(a, b) < 0),
        (wcs_diff(a, b) == 0) == (lex_rank(a, b) == 0),
        (wcs_diff(a, b) > 0) == (lex_rank(a, b) > 0),
    decreases a.len(),
{
    if a.len() > 0 && b.len() > 0 && a[0] == b[0] {
        assert forall|i: int| 0 <= i < a.drop_first().len() implies a.drop_first()[i] != 0 by {
            assert(a.drop_first()[i] == a[i + 1]);
        }
        assert forall|i: int| 0 <= i < b.drop_first().len() implies b.drop_first()[i] != 0 by {
            assert(b.drop_first()[i] == b[i + 1]);
        }
        lemma_wcs_diff_matches_lex(a.drop_first(), b.drop_first());
    } else if a.len() == 0 && b.len() > 0 {
        assert(b[0] != 0);
    } else if a.len() > 0 && b.len() == 0 {
        assert(a[0] != 0);
    }
}

/// `key_before` is irreflexive, asymmetric, transitive and total: a strict total order.
pub proof fn lemma_key_before_strict_total(a: KeyView, b: KeyView, c: KeyView)
    ensures
        !key_before(a, a),
        key_before(a, b) ==> !key_before(b, a),
        key_before(a, b) && key_before(b, c) ==> key_before(a, c),
        a == b || key_before(a, b) || key_before(b, a),
{
    match a {
        KeyView::Str(x) => {
            lemma_lex_rank_zero(x, x);
            match b {
                KeyView::Str(y) => {
                    lemma_lex_rank_antisym(x, y);
                    lemma_lex_rank_zero(x, y);
                    match c {
                        KeyView::Str(z) => {
                            if lex_rank(x, y) < 0 && lex_rank(y, z) < 0 {
                                lemma_lex_rank_trans(x, y, z);
                            }
                        },
                        _ => {},
                    }
                },
                _ => {},
            }
        },
        _ => {},
    }
}

/// On keys whose names hold no NUL unit, the engine's key order is `key_before` and its
/// key equality is equality of the keys.
pub proof fn lemma_key_order_agrees(a: KeyView, b: KeyView)
    requires
        nul_free(a),
        nul_free(b),
    ensures
        key_lt(a, b) == key_before(a, b),
        key_eq(a, b) == (a == b),
{
    match (a, b) {
        (KeyView::Str(x), KeyView::Str(y)) => {
            lemma_wcs_diff_matches_lex(x, y);
            lemma_lex_rank_zero(x, y);
        },
        _ => {},
    }
}

/// Key `lt_op` never holds of a key and itself, and never in both directions;
/// `eq_op` is reflexive and symmetric, and excludes `lt_op`.
pub proof fn lemma_key_lt_irreflexive_asymmetric(a: KeyView, b: KeyView)
    ensures
        !key_lt(a, a),
        key_eq(a, a),
        key_lt(a, b) ==> !key_lt(b, a),
        key_eq(a, b) == key_eq(b, a),
        key_eq(a, b) ==> !key_lt(a, b),
        key_eq(a, b) || key_lt(a, b) || key_lt(b, a),
{
    match a {
        KeyView::Str(x) => {
            lemma_wcs_diff_refl(x);
            match b {
                KeyView::Str(y) => {
                    lemma_wcs_diff_antisym(x, y);
                },
                _ => {},
            }
        },
        _ => {},
    }
}

/// On keys without NUL units, `lt_op` is a strict total order and `eq_op` is key
/// equality.
pub proof fn lemma_key_lt_strict_total_order(a: KeyView, b: KeyView, c: KeyView)
    requires
        nul_free(a),
        nul_free(b),
        nul_free(c),
    ensures
        !key_lt(a, a),
        key_lt(a, b) ==> !key_lt(b, a),
        key_lt(a, b) && key_lt(b, c) ==> key_lt(a, c),
        key_eq(a, b) || key_lt(a, b) || key_lt(b, a),
        key_eq(a, b) <==> a == b,
{
    lemma_key_order_agrees(a, a);
    lemma_key_order_agrees(a, b);
    lemma_key_order_agrees(b, a);
    lemma_key_order_agrees(b, c);
    lemma_key_order_agrees(a, c);
    lemma_key_before_strict_total(a, b, c);
}

/// Signed difference of the first differing units of `a` and `b`, the end of the
/// shorter slice reading as a NUL unit; 0 when none differ.
pub fn wide_compare(a: &[u16], b: &[u16]) -> (r: i32)
    ensures
        r == wcs_diff(a@, b@),
{
    let n = if a.len() < b.len() { a.len() } else { b.len() };
    let mut i: usize = 0;
    assert(a@.skip(0) =~= a@);
    assert(b@.skip(0) =~= b@);
    while i < n
        invariant
            n <= a@.len(),
            n <= b@.len(),
            n == a@.len() || n == b@.len(),
            i <= n,
            wcs_diff(a@, b@) == wcs_diff(a@.skip(i as int), b@.skip(i as int)),
        decreases n - i,
    {
        let av = a[i] as i32;
        let bv = b[i] as i32;
        if av != bv {
            return av - bv;
        }
        assert(a@.skip(i as int).drop_first() =~= a@.skip(i + 1));
        assert(b@.skip(i as int).drop_first() =~= b@.skip(i + 1));
        i = i + 1;
    }
    if a.len() < b.len() {
        return 0 - (b[n] as i32);
    } else if a.len() > b.len() {
        return (a[n] as i32) - 0;
    }
    0
}

/// Exact three-way comparison (-1, 0, 1) of two unit slices, lexicographic.
fn lex_compare(a: &[u16], b: &[u16]) -> (r: i32)
    ensures
        r == lex_rank(a@, b@),
{
    let n = if a.len() < b.len() { a.len() } else { b.len() };
    let mut i: usize = 0;
    assert(a@.skip(0) =~= a@);
    assert(b@.skip(0) =~= b@);
    while i < n
        invariant
            n <= a@.len(),
            n <= b@.len(),
            n == a@.len() || n == b@.len(),
            i <= n,
            lex_rank(a@, b@) == lex_rank(a@.skip(i as int), b@.skip(i as int)),
        decreases n - i,
    {
        if a[i] < b[i] {
            return -1;
        } else if a[i] > b[i] {
            return 1;
        }
        assert(a@.skip(i as int).drop_first() =~= a@.skip(i + 1));
        assert(b@.skip(i as int).drop_first() =~= b@.skip(i + 1));
        i = i + 1;
    }
    if a.len() < b.len() {
        -1
    } else if a.len() > b.len() {
        1
    } else {
        0
    }
}

/// Key of a property in a property bag: an integer id, or a name.
///
/// An integer key has no name; a name key has `int_id == 0`.
#[derive(Debug)]
pub struct PropertyKey {
    pub int_id: u32,
    pub _pad: u32,
    pub str_ptr: Option<Box<CHncStringW>>,
}

impl View for PropertyKey {
    type V = KeyView;

    open spec fn view(&self) -> KeyView {
        match self.str_ptr {
            Some(s) => KeyView::Str(s@),
            None => KeyView::Int(self.int_id),
        }
    }
}

impl PropertyKey {
    /// The integer key `id`.
    pub fn from_int(id: u32) -> (k: Self)
        ensures
            k@ == KeyView::Int(id),
            k.int_id == id,
            k._pad == 0,
            k.str_ptr is None,
    {
        PropertyKey { int_id: id, _pad: 0, str_ptr: None }
    }

    /// The name key `src`; the name's buffer is shared with `src`.
    pub fn from_string(src: &CHncStringW) -> (k: Self)
        ensures
            k@ == KeyView::Str(src@),
            k.int_id == 0,
            k._pad == 0,
    {
        PropertyKey { int_id: 0, _pad: 0, str_ptr: Some(Box::new(src.share())) }
    }

    /// The name key made of the units `s`; an empty `s` gives the shared empty name.
    pub fn from_wide_chars(s: &[u16]) -> (k: Self)
        requires
            s@.len() <= i32::MAX,
        ensures
            k@ == KeyView::Str(s@),
            k.int_id == 0,
            k._pad == 0,
            k.str_ptr matches Some(name) && (name.is_nil() <==> s@.len() == 0),
    {
        let hnc = if s.len() == 0 {
            assert(s@ =~= Seq::<u16>::empty());
            CHncStringW::new()
        } else {
            CHncStringW::from_wide(s)
        };
        PropertyKey { int_id: 0, _pad: 0, str_ptr: Some(Box::new(hnc)) }
    }

    /// Whether the key is an integer key.
    pub fn is_int_keyed(&self) -> (r: bool)
        ensures
            r == (self@ is Int),
    {
        self.str_ptr.is_none()
    }

    /// Another key equal to this one; a name is shared, not copied.
    pub fn clone_op(&self) -> (k: Self)
        ensures
            k@ == self@,
            k.int_id == self.int_id,
            k._pad == self._pad,
    {
        let str_ptr = match &self.str_ptr {
            Some(s) => Some(Box::new(s.share())),
            None => None,
        };
        PropertyKey { int_id: self.int_id, _pad: self._pad, str_ptr }
    }

    /// The integer id (0 for a name key).
    pub fn int_value(&self) -> (r: u32)
        ensures
            r == self.int_id,
    {
        self.int_id
    }

    /// The name, for a name key.
    pub fn string_value(&self) -> (r: Option<&CHncStringW>)
        ensures
            r is Some <==> self@ is Str,
            r matches Some(s) ==> self@ == KeyView::Str(s@),
    {
        match &self.str_ptr {
            Some(s) => Some(&**s),
            None => None,
        }
    }

    /// Key equality: integer keys by id, name keys by `wcscmp`, never one of each.
    pub fn eq_op(&self, other: &PropertyKey) -> (r: bool)
        ensures
            r == key_eq(self@, other@),
    {
        match (&self.str_ptr, &other.str_ptr) {
            (None, None) => self.int_id == other.int_id,
            (Some(a), Some(b)) => wide_compare(a.as_wide(), b.as_wide()) == 0,
            _ => false,
        }
    }

    /// Negation of `eq_op`.
    pub fn ne_op(&self, other: &PropertyKey) -> (r: bool)
        ensures
            r == !key_eq(self@, other@),
    {
        !self.eq_op(other)
    }

    /// Key order: integer keys first, by id; then name keys by `wcscmp`.
    pub fn lt_op(&self, other: &PropertyKey) -> (r: bool)
        ensures
            r == key_lt(self@, other@),
    {
        match (&self.str_ptr, &other.str_ptr) {
            (None, None) => self.int_id < other.int_id,
            (None, Some(_)) => true,
            (Some(_), None) => false,
            (Some(a), Some(b)) => wide_compare(a.as_wide(), b.as_wide()) < 0,
        }
    }

    /// Exact three-way comparison (-1, 0, 1) in the order `key_before`.
    pub fn exact_compare(&self, other: &PropertyKey) -> (r: i32)
        ensures
            r < 0 <==> key_before(self@, other@),
            r == 0 <==> self@ == other@,
            r > 0 <==> key_before(other@, self@),
    {
        proof {
            lemma_key_before_strict_total(self@, other@, self@);
        }
        match (&self.str_ptr, &other.str_ptr) {
            (None, None) => {
                if self.int_id < other.int_id {
                    -1
                } else if self.int_id > other.int_id {
                    1
                } else {
                    0
                }
            },
            (None, Some(_)) => -1,
            (Some(_), None) => 1,
            (Some(a), Some(b)) => {
                let r = lex_compare(a.as_wide(), b.as_wide());
                proof {
                    lemma_lex_rank_antisym(a@, b@);
                    lemma_lex_rank_zero(a@, b@);
                }
                r
            },
        }
    }
}

impl PartialEq for PropertyKey {
    fn eq(&self, other: &Self) -> (r: bool) {
        self.eq_op(other)
    }
}

impl vstd::std_specs::cmp::PartialEqSpecImpl for PropertyKey {
    open spec fn obeys_eq_spec() -> bool {
        true
    }

    open spec fn eq_spec(&self, other: &Self) -> bool {
        key_eq(self@, other@)
    }
}

/// The engine's three-way order of two keys: equal by `key_eq`, else less by
/// `key_lt`, else greater.
pub open spec fn key_ordering(a: KeyView, b: KeyView) -> Ordering {
    if key_eq(a, b) {
        Ordering::Equal
    } else if key_lt(a, b) {
        Ordering::Less
    } else {
        Ordering::Greater
    }
}

impl PartialOrd for PropertyKey {
    fn partial_cmp(&self, other: &Self) -> (r: Option<Ordering>) {
        if self.eq_op(other) {
            Some(Ordering::Equal)
        } else if self.lt_op(other) {
            Some(Ordering::Less)
        } else {
            Some(Ordering::Greater)
        }
    }
}

impl vstd::std_specs::cmp::PartialOrdSpecImpl for PropertyKey {
    open spec fn obeys_partial_cmp_spec() -> bool {
        true
    }

    open spec fn partial_cmp_spec(&self, other: &Self) -> Option<Ordering> {
        Some(key_ordering(self@, other@))
    }
}

} // verus!
