use vstd::prelude::*;
use crate::property_bag::{PropertyBag, bag_eq, bag_map};

verus! {

/// Three-dimensional shape settings (bevels, extrusion, contour, material), held in a property bag.
#[derive(Debug)]
pub struct Sp3D {
    pub bag: PropertyBag,
}

impl Sp3D {
    /// Settings with a fresh empty, unmerged bag.
    pub fn new_empty() -> (s: Self)
        ensures
            s.bag.ctrl matches Some(i) && !i.merged() && i.kv().len() == 0,
    {
        Sp3D { bag: PropertyBag::new(false) }
    }

    /// A copy of `other`: its bag copied (see `PropertyBag::copy_bag`).
    pub fn copy_of(other: &Sp3D) -> (s: Self)
        ensures
            s.bag.ctrl is Some == other.bag.ctrl is Some,
            bag_map(s.bag) == bag_map(other.bag),
            bag_eq(s.bag, other.bag),
    {
        let bag = other.bag.copy_bag();
        proof {
            crate::property_bag::law_bag_eq_reflexive_symmetric(bag, bag);
        }
        Sp3D { bag }
    }

    /// Exchanges the bags of `self` and `other`.
    pub fn swap(&mut self, other: &mut Sp3D)
        ensures
            final(self).bag == old(other).bag,
            final(other).bag == old(self).bag,
    {
        self.bag.swap(&mut other.bag);
    }

    /// Equality of the bags (see `PropertyBag::eq_op`).
    pub fn eq_op(&self, other: &Sp3D) -> (r: bool)
        ensures
            r == bag_eq(self.bag, other.bag),
    {
        self.bag.eq_op(&other.bag)
    }

    /// Negation of `eq_op`.
    pub fn ne_op(&self, other: &Sp3D) -> (r: bool)
        ensures
            r == !bag_eq(self.bag, other.bag),
    {
        !self.eq_op(other)
    }
}

impl PartialEq for Sp3D {
    fn eq(&self, other: &Self) -> (r: bool) {
        self.eq_op(other)
    }
}

impl vstd::std_specs::cmp::PartialEqSpecImpl for Sp3D {
    open spec fn obeys_eq_spec() -> bool {
        true
    }

    open spec fn eq_spec(&self, other: &Self) -> bool {
        bag_eq(self.bag, other.bag)
    }
}

} // verus!
