use vstd::prelude::*;
use crate::property::{PropertyValue, state_enabled, property_eq};
use crate::property_key::{KeyView, PropertyKey, nul_free};
use crate::rb_tree::RbTree;

verus! {

/// The state a bag reports for key `k`: that of its property, or 0 without one.
pub open spec fn state_in(m: Map<KeyView, PropertyValue>, k: KeyView) -> u32 {
    if m.contains_key(k) {
        m[k].state()
    } else {
        0
    }
}

/// The body of a property bag: a merged flag and the properties by key, kept in a
/// red-black tree ordered by key.
#[derive(Debug)]
pub struct PropertyBagImpl {
    merged_flag_raw: u8,
    tree: RbTree,
}

impl View for PropertyBagImpl {
    type V = Map<KeyView, PropertyValue>;

    closed spec fn view(&self) -> Map<KeyView, PropertyValue> {
        self.tree@
    }
}

impl PropertyBagImpl {
    /// The entries, key by key, in key order.
    pub closed spec fn kv(self) -> Seq<(KeyView, PropertyValue)> {
        self.tree.entries()
    }

    /// Whether the bag is merged.
    pub closed spec fn merged(self) -> bool {
        self.merged_flag_raw == 0
    }

    /// The raw merged flag: 0 when merged.
    pub closed spec fn flag(self) -> u8 {
        self.merged_flag_raw
    }

    /// An empty body; the merged flag is stored inverted (0 when merged).
    pub fn new_boxed(is_merged: bool) -> (b: Box<Self>)
        ensures
            b@ == Map::<KeyView, PropertyValue>::empty(),
            b.kv().len() == 0,
            b.merged() == is_merged,
            b.flag() == (if is_merged { 0u8 } else { 1u8 }),
    {
        Box::new(PropertyBagImpl { merged_flag_raw: if is_merged { 0 } else { 1 }, tree: RbTree::new() })
    }

    /// A body holding copies of this body's properties, with the same merged flag.
    pub fn copy_boxed(&self) -> (b: Box<Self>)
        ensures
            b@ == self@,
            b.kv() == self.kv(),
            b.flag() == self.flag(),
            b.merged() == self.merged(),
    {
        Box::new(PropertyBagImpl { merged_flag_raw: self.merged_flag_raw, tree: self.tree.copy() })
    }

    /// Whether the bag holds no property.
    pub fn is_empty(&self) -> (r: bool)
        ensures
            r == (self@ == Map::<KeyView, PropertyValue>::empty()),
            r == (self.kv().len() == 0),
    {
        let n = self.tree.len();
        proof {
            if n > 0 {
                assert(self@.dom().len() > 0);
                assert(self@ != Map::<KeyView, PropertyValue>::empty());
            } else {
                assert(self@.dom() =~= Set::<KeyView>::empty());
                assert(self@ =~= Map::<KeyView, PropertyValue>::empty());
            }
        }
        n == 0
    }

    /// Number of properties in the bag: one per key.
    pub fn size(&self) -> (n: usize)
        ensures
            n == self.kv().len(),
            self@.dom().finite(),
            n == self@.dom().len(),
    {
        self.tree.len()
    }

    /// Sets the merged flag (stored inverted).
    pub fn set_merged(&mut self, is_merged: bool)
        ensures
            final(self)@ == old(self)@,
            final(self).kv() == old(self).kv(),
            final(self).merged() == is_merged,
            final(self).flag() == (if is_merged { 0u8 } else { 1u8 }),
    {
        self.merged_flag_raw = if is_merged { 0 } else { 1 };
    }

    /// Whether the bag is merged.
    pub fn is_merged(&self) -> (r: bool)
        ensures
            r == self.merged(),
    {
        self.merged_flag_raw == 0
    }

    /// The raw merged flag (0 when merged).
    pub fn merged_flag_raw(&self) -> (r: u8)
        ensures
            r == self.flag(),
    {
        self.merged_flag_raw
    }

    /// Looks `key` up: the property stored under it, or none.
    pub fn find_equal(&self, key: &PropertyKey) -> (r: Option<PropertyValue>)
        requires
            nul_free(key@),
        ensures
            r == (if self@.contains_key(key@) {
                Some(self@[key@])
            } else {
                None
            }),
    {
        self.tree.get(key)
    }

    /// Whether the bag holds a property for `key`.
    pub fn contains(&self, key: &PropertyKey) -> (r: bool)
        requires
            nul_free(key@),
        ensures
            r == self@.contains_key(key@),
    {
        self.tree.get(key).is_some()
    }

    /// The state of the property for `key`, or 0 without one.
    pub fn get_state(&self, key: &PropertyKey) -> (r: u32)
        requires
            nul_free(key@),
        ensures
            r == state_in(self@, key@),
    {
        match self.tree.get(key) {
            Some(v) => v.get_state(),
            None => 0,
        }
    }

    /// Whether the property for `key` exists and is enabled.
    pub fn is_enable(&self, key: &PropertyKey) -> (r: bool)
        requires
            nul_free(key@),
        ensures
            r == (self@.contains_key(key@) && state_enabled(self@[key@].state())),
    {
        match self.tree.get(key) {
            Some(v) => {
                let s = v.get_state();
                s != crate::state::DEFAULT && s != crate::state::DISABLED
            },
            None => false,
        }
    }

    /// The typed value slot of the property for `key`, which must be present.
    pub fn get_value_slot(&self, key: &PropertyKey) -> (r: u32)
        requires
            nul_free(key@),
            self@.contains_key(key@),
        ensures
            r == self@[key@].value_slot(),
    {
        match self.tree.get(key) {
            Some(v) => v.get_value_slot(),
            None => 0,
        }
    }

    /// Sets the state of the property for `key`; without one, nothing changes.
    pub fn set_state(&mut self, key: &PropertyKey, state: u32)
        requires
            nul_free(key@),
        ensures
            final(self).merged() == old(self).merged(),
            final(self).flag() == old(self).flag(),
            old(self)@.contains_key(key@) ==> final(self)@ == old(self)@.insert(
                key@,
                old(self)@[key@].with_state(state),
            ),
            !old(self)@.contains_key(key@) ==> final(self)@ == old(self)@,
            final(self).kv().len() == old(self).kv().len(),
    {
        match self.tree.get(key) {
            Some(v) => {
                let mut v2 = v;
                v2.set_state(state);
                let _ = self.tree.insert(key.clone_op(), v2);
            },
            None => {},
        }
    }

    /// Attaches `value` under `key`, replacing any property there, and hands back the
    /// property that was replaced.
    pub fn attach(&mut self, key: &PropertyKey, value: PropertyValue) -> (old_value: Option<
        PropertyValue,
    >)
        requires
            nul_free(key@),
            old(self)@.contains_key(key@) || old(self)@.dom().len() < usize::MAX,
        ensures
            final(self)@ == old(self)@.insert(key@, value),
            old_value == (if old(self)@.contains_key(key@) {
                Some(old(self)@[key@])
            } else {
                None
            }),
            final(self).merged() == old(self).merged(),
            final(self).flag() == old(self).flag(),
            final(self).kv().len() == old(self).kv().len() + (if old(self)@.contains_key(key@) {
                0int
            } else {
                1int
            }),
    {
        self.tree.insert(key.clone_op(), value)
    }

    /// Removes the property for `key` and hands it back; without one, nothing changes.
    pub fn detach(&mut self, key: &PropertyKey) -> (old_value: Option<PropertyValue>)
        requires
            nul_free(key@),
        ensures
            final(self)@ == old(self)@.remove(key@),
            old_value == (if old(self)@.contains_key(key@) {
                Some(old(self)@[key@])
            } else {
                None
            }),
            final(self).merged() == old(self).merged(),
            final(self).flag() == old(self).flag(),
            final(self).kv().len() == old(self).kv().len() - (if old(self)@.contains_key(key@) {
                1int
            } else {
                0int
            }),
    {
        self.tree.remove(key)
    }

    /// Removes every property.
    pub fn clear(&mut self)
        ensures
            final(self)@ == Map::<KeyView, PropertyValue>::empty(),
            final(self).kv().len() == 0,
            final(self).merged() == old(self).merged(),
            final(self).flag() == old(self).flag(),
    {
        self.tree = RbTree::new();
    }
}

/// A property bag: a handle on a body, or on none.
///
/// A bag without a body behaves as an empty one that ignores every change.
///
/// Keys given to the bag's operations are integer keys or names without a NUL unit:
/// on names holding a NUL unit the engine's name comparison is neither an equivalence
/// nor an order (`A` equals both `A\0` and `A\0\7`, which differ from each other), so
/// no map of properties matches it there. On the keys admitted, the bag's key identity
/// is the engine's (`lemma_key_order_agrees`).
#[derive(Debug)]
pub struct PropertyBag {
    pub ctrl: Option<Box<PropertyBagImpl>>,
}

/// The properties of a bag, by key (none without a body).
pub open spec fn bag_map(b: PropertyBag) -> Map<KeyView, PropertyValue> {
    match b.ctrl {
        Some(i) => i@,
        None => Map::empty(),
    }
}

/// Two entry lists match: the same length, and at each position the same key and
/// equal properties (`property_eq`).
pub open spec fn entries_eq(s: Seq<(KeyView, PropertyValue)>, t: Seq<(KeyView, PropertyValue)>) -> bool {
    &&& s.len() == t.len()
    &&& forall|i: int|
        #![trigger s[i]]
        #![trigger t[i]]
        0 <= i < s.len() ==> s[i].0 == t[i].0 && property_eq(s[i].1, t[i].1)
}

/// Bag equality: both without a body, or both bodies with the same merged flag and
/// matching entries in key order.
pub open spec fn bag_eq(a: PropertyBag, b: PropertyBag) -> bool {
    match (a.ctrl, b.ctrl) {
        (None, None) => true,
        (Some(x), Some(y)) => x.merged() == y.merged() && entries_eq(x.kv(), y.kv()),
        _ => false,
    }
}

/// Bag equality is reflexive and symmetric: in particular a bag equals itself.
pub proof fn law_bag_eq_reflexive_symmetric(a: PropertyBag, b: PropertyBag)
    ensures
        bag_eq(a, a),
        bag_eq(a, b) == bag_eq(b, a),
{
    match (a.ctrl, b.ctrl) {
        (Some(x), Some(y)) => {
            let s = x.kv();
            let t = y.kv();
            assert forall|i: int| 0 <= i < s.len() implies s[i].0 == s[i].0 && property_eq(s[i].1, s[i].1) by {
                crate::property::law_property_eq_reflexive_symmetric(s[i].1, s[i].1);
            }
            assert(entries_eq(s, s));
            assert forall|i: int| 0 <= i < s.len() && i < t.len() implies property_eq(s[i].1, t[i].1)
                == property_eq(t[i].1, s[i].1) by {
                crate::property::law_property_eq_reflexive_symmetric(s[i].1, t[i].1);
            }
            assert(entries_eq(s, t) == entries_eq(t, s));
        },
        _ => {},
    }
}

impl PropertyBag {
    /// A bag with a fresh empty body.
    pub fn new(is_merged: bool) -> (b: Self)
        ensures
            b.ctrl is Some,
            b.ctrl matches Some(i) && i.merged() == is_merged && i.kv().len() == 0,
            b.ctrl matches Some(i) && i.flag() == (if is_merged { 0u8 } else { 1u8 }),
            bag_map(b) == Map::<KeyView, PropertyValue>::empty(),
    {
        PropertyBag { ctrl: Some(PropertyBagImpl::new_boxed(is_merged)) }
    }

    /// A copy of the bag: a new body holding copies of the properties, with the same
    /// merged flag; a bag without a body copies to one without a body.
    pub fn copy_bag(&self) -> (b: Self)
        ensures
            b.ctrl is Some == self.ctrl is Some,
            bag_map(b) == bag_map(*self),
            b.ctrl matches Some(x) ==> (self.ctrl matches Some(y) && x.kv() == y.kv() && x.flag()
                == y.flag() && x.merged() == y.merged()),
    {
        match &self.ctrl {
            Some(body) => PropertyBag { ctrl: Some(body.copy_boxed()) },
            None => PropertyBag { ctrl: None },
        }
    }

    /// A bag on the body `body`.
    pub fn from_impl(body: Box<PropertyBagImpl>) -> (b: Self)
        ensures
            b.ctrl == Some(body),
    {
        PropertyBag { ctrl: Some(body) }
    }

    /// The body, if any.
    pub fn impl_ref(&self) -> (r: Option<&PropertyBagImpl>)
        ensures
            r is Some <==> self.ctrl is Some,
            r matches Some(i) ==> self.ctrl == Some(Box::new(*i)),
    {
        match &self.ctrl {
            Some(b) => Some(&**b),
            None => None,
        }
    }

    /// Attaches `value` under `key` (see `PropertyBagImpl::attach`); a bag without a
    /// body is left as it is and hands back nothing.
    pub fn attach(&mut self, key: &PropertyKey, value: PropertyValue) -> (old_value: Option<
        PropertyValue,
    >)
        requires
            nul_free(key@),
            bag_map(*old(self)).contains_key(key@) || bag_map(*old(self)).dom().len() < usize::MAX,
        ensures
            final(self).ctrl is Some == old(self).ctrl is Some,
            old(self).ctrl is Some ==> bag_map(*final(self)) == bag_map(*old(self)).insert(
                key@,
                value,
            ),
            old(self).ctrl is None ==> final(self).ctrl is None,
            old_value == (if bag_map(*old(self)).contains_key(key@) {
                Some(bag_map(*old(self))[key@])
            } else {
                None
            }),
            old(self).ctrl matches Some(i) ==> final(self).ctrl matches Some(j) && j.merged()
                == i.merged(),
    {
        match self.ctrl.take() {
            Some(mut b) => {
                let r = b.attach(key, value);
                self.ctrl = Some(b);
                r
            },
            None => None,
        }
    }

    /// Detaches the property for `key` (see `PropertyBagImpl::detach`).
    pub fn detach(&mut self, key: &PropertyKey) -> (old_value: Option<PropertyValue>)
        requires
            nul_free(key@),
        ensures
            final(self).ctrl is Some == old(self).ctrl is Some,
            bag_map(*final(self)) == bag_map(*old(self)).remove(key@),
            old_value == (if bag_map(*old(self)).contains_key(key@) {
                Some(bag_map(*old(self))[key@])
            } else {
                None
            }),
            old(self).ctrl matches Some(i) ==> final(self).ctrl matches Some(j) && j.merged()
                == i.merged(),
    {
        match self.ctrl.take() {
            Some(mut b) => {
                let r = b.detach(key);
                self.ctrl = Some(b);
                r
            },
            None => {
                assert(bag_map(*old(self)).remove(key@) =~= Map::<KeyView, PropertyValue>::empty());
                None
            },
        }
    }

    /// Whether the bag holds a property for `key`.
    pub fn contains(&self, key: &PropertyKey) -> (r: bool)
        requires
            nul_free(key@),
        ensures
            r == bag_map(*self).contains_key(key@),
    {
        match &self.ctrl {
            Some(b) => b.contains(key),
            None => false,
        }
    }

    /// The state of the property for `key`, or 0 without one.
    pub fn get_state(&self, key: &PropertyKey) -> (r: u32)
        requires
            nul_free(key@),
        ensures
            r == state_in(bag_map(*self), key@),
    {
        match &self.ctrl {
            Some(b) => b.get_state(key),
            None => 0,
        }
    }

    /// Sets the state of the property for `key`; without one, nothing changes.
    pub fn set_state(&mut self, key: &PropertyKey, state: u32)
        requires
            nul_free(key@),
        ensures
            final(self).ctrl is Some == old(self).ctrl is Some,
            bag_map(*old(self)).contains_key(key@) ==> bag_map(*final(self)) == bag_map(
                *old(self),
            ).insert(key@, bag_map(*old(self))[key@].with_state(state)),
            !bag_map(*old(self)).contains_key(key@) ==> bag_map(*final(self)) == bag_map(
                *old(self),
            ),
            old(self).ctrl matches Some(i) ==> final(self).ctrl matches Some(j) && j.merged()
                == i.merged(),
    {
        match self.ctrl.take() {
            Some(mut b) => {
                b.set_state(key, state);
                self.ctrl = Some(b);
            },
            None => {},
        }
    }

    /// Whether the property for `key` exists and is enabled.
    pub fn is_enable(&self, key: &PropertyKey) -> (r: bool)
        requires
            nul_free(key@),
        ensures
            r == (bag_map(*self).contains_key(key@) && state_enabled(
                bag_map(*self)[key@].state(),
            )),
    {
        match &self.ctrl {
            Some(b) => b.is_enable(key),
            None => false,
        }
    }

    /// The typed value slot of the property for `key`, which must be present.
    pub fn get_value_slot(&self, key: &PropertyKey) -> (r: u32)
        requires
            nul_free(key@),
            bag_map(*self).contains_key(key@),
        ensures
            r == bag_map(*self)[key@].value_slot(),
    {
        match &self.ctrl {
            Some(b) => b.get_value_slot(key),
            None => 0,
        }
    }

    /// Whether the bag holds no property (always, without a body).
    pub fn is_empty(&self) -> (r: bool)
        ensures
            r == (bag_map(*self) == Map::<KeyView, PropertyValue>::empty()),
    {
        match &self.ctrl {
            Some(b) => b.is_empty(),
            None => true,
        }
    }

    /// Number of properties (0 without a body).
    pub fn size(&self) -> (n: usize)
        ensures
            bag_map(*self).dom().finite(),
            n == bag_map(*self).dom().len(),
    {
        match &self.ctrl {
            Some(b) => b.size(),
            None => {
                assert(bag_map(*self).dom() =~= Set::<KeyView>::empty());
                0
            },
        }
    }

    /// Sets the merged flag of the body, if any.
    pub fn set_merged(&mut self, is_merged: bool)
        ensures
            final(self).ctrl is Some == old(self).ctrl is Some,
            bag_map(*final(self)) == bag_map(*old(self)),
            final(self).ctrl matches Some(j) ==> j.merged() == is_merged,
    {
        match self.ctrl.take() {
            Some(mut b) => {
                b.set_merged(is_merged);
                self.ctrl = Some(b);
            },
            None => {},
        }
    }

    /// Removes every property.
    pub fn clear(&mut self)
        ensures
            final(self).ctrl is Some == old(self).ctrl is Some,
            bag_map(*final(self)) == Map::<KeyView, PropertyValue>::empty(),
            old(self).ctrl matches Some(i) ==> final(self).ctrl matches Some(j) && j.merged()
                == i.merged(),
    {
        match self.ctrl.take() {
            Some(mut b) => {
                b.clear();
                self.ctrl = Some(b);
            },
            None => {},
        }
    }

    /// Number of handles on the body: 1 with a body (a bag owns its body), else 0.
    pub fn refcount(&self) -> (r: u64)
        ensures
            r == (if self.ctrl is Some { 1u64 } else { 0u64 }),
    {
        if self.ctrl.is_some() { 1 } else { 0 }
    }

    /// Exchanges the bodies of two bags.
    pub fn swap(&mut self, other: &mut PropertyBag)
        ensures
            final(self).ctrl == old(other).ctrl,
            final(other).ctrl == old(self).ctrl,
    {
        std::mem::swap(&mut self.ctrl, &mut other.ctrl);
    }

    /// Bag equality (see `bag_eq`): both without a body, or both bodies with the same
    /// merged flag and, key by key in order, the same keys and equal properties.
    pub fn eq_op(&self, other: &PropertyBag) -> (r: bool)
        ensures
            r == bag_eq(*self, *other),
    {
        match (&self.ctrl, &other.ctrl) {
            (None, None) => true,
            (Some(a), Some(b)) => {
                if a.is_merged() != b.is_merged() {
                    return false;
                }
                if a.size() != b.size() {
                    return false;
                }
                assert(bag_eq(*self, *other) == entries_eq(a.kv(), b.kv()));
                let ka = a.tree.keys_in_order();
                let kb = b.tree.keys_in_order();
                let va = a.tree.values_in_order();
                let vb = b.tree.values_in_order();
                let n = ka.len();
                let mut i: usize = 0;
                while i < n
                    invariant
                        bag_eq(*self, *other) == entries_eq(a.kv(), b.kv()),
                        n == ka@.len(),
                        ka@.len() == a.kv().len(),
                        kb@.len() == b.kv().len(),
                        a.kv().len() == b.kv().len(),
                        va@ == a.kv().map_values(|e: (KeyView, PropertyValue)| e.1),
                        vb@ == b.kv().map_values(|e: (KeyView, PropertyValue)| e.1),
                        forall|j: int| 0 <= j < ka@.len() ==> #[trigger] ka@[j]@ == a.kv()[j].0,
                        forall|j: int| 0 <= j < kb@.len() ==> #[trigger] kb@[j]@ == b.kv()[j].0,
                        i <= n,
                        forall|j: int|
                            #![trigger a.kv()[j]]
                            0 <= j < i ==> a.kv()[j].0 == b.kv()[j].0 && property_eq(a.kv()[j].1, b.kv()[j].1),
                    decreases n - i,
                {
                    assert(ka@[i as int]@ == a.kv()[i as int].0);
                    assert(kb@[i as int]@ == b.kv()[i as int].0);
                    if ka[i].exact_compare(&kb[i]) != 0 {
                        assert(a.kv()[i as int].0 != b.kv()[i as int].0);
                        return false;
                    }
                    assert(va@[i as int] == a.kv()[i as int].1);
                    assert(vb@[i as int] == b.kv()[i as int].1);
                    if !va[i].eq_op(&vb[i]) {
                        assert(!property_eq(a.kv()[i as int].1, b.kv()[i as int].1));
                        return false;
                    }
                    assert(a.kv()[i as int].0 == b.kv()[i as int].0 && property_eq(
                        a.kv()[i as int].1,
                        b.kv()[i as int].1,
                    ));
                    i = i + 1;
                }
                true
            },
            _ => false,
        }
    }

    /// Negation of `eq_op`.
    pub fn ne_op(&self, other: &PropertyBag) -> (r: bool)
        ensures
            r == !bag_eq(*self, *other),
    {
        !self.eq_op(other)
    }
}

/// After `attach(key, v)` the bag holds `v` under `key` and reports its state, and every
/// other key reads as before.
pub proof fn law_read_after_attach(
    before: Map<KeyView, PropertyValue>,
    after: Map<KeyView, PropertyValue>,
    key: KeyView,
    v: PropertyValue,
)
    requires
        after == before.insert(key, v),
    ensures
        after.contains_key(key),
        after[key] == v,
        state_in(after, key) == v.state(),
        forall|k: KeyView|
            k != key ==> (after.contains_key(k) == before.contains_key(k) && state_in(after, k)
                == state_in(before, k) && (before.contains_key(k) ==> after[k] == before[k])),
{
}

/// Detaching a key right after attaching it hands back the attached property and leaves
/// the bag as detaching it alone would have.
pub proof fn law_detach_undoes_attach(
    before: Map<KeyView, PropertyValue>,
    key: KeyView,
    v: PropertyValue,
)
    ensures
        before.insert(key, v).contains_key(key),
        before.insert(key, v)[key] == v,
        before.insert(key, v).remove(key) == before.remove(key),
        !before.contains_key(key) ==> before.insert(key, v).remove(key) == before,
{
    assert(before.insert(key, v).remove(key) =~= before.remove(key));
    if !before.contains_key(key) {
        assert(before.remove(key) =~= before);
    }
}

/// Attaching twice under one key keeps only the second property; the second attach
/// hands back the first.
pub proof fn law_attach_replaces(
    before: Map<KeyView, PropertyValue>,
    key: KeyView,
    v1: PropertyValue,
    v2: PropertyValue,
)
    ensures
        before.insert(key, v1).insert(key, v2) == before.insert(key, v2),
        before.insert(key, v1).contains_key(key) && before.insert(key, v1)[key] == v1,
{
    assert(before.insert(key, v1).insert(key, v2) =~= before.insert(key, v2));
}

/// After `set_state(key, s)` on a present key, `get_state(key)` reads `s`, the property
/// keeps its kind and value slot, and other keys are unchanged.
pub proof fn law_read_after_set_state(
    before: Map<KeyView, PropertyValue>,
    key: KeyView,
    s: u32,
)
    requires
        before.contains_key(key),
    ensures
        state_in(before.insert(key, before[key].with_state(s)), key) == s,
        before[key].with_state(s).value_slot() == before[key].value_slot(),
        forall|k: KeyView|
            k != key ==> state_in(before.insert(key, before[key].with_state(s)), k) == state_in(
                before,
                k,
            ),
{
}

} // verus!
