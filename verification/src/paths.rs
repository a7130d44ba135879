use vstd::prelude::*;

verus! {

/// The capacity after a full list of `len` entries and capacity `cap` grows: twice the
/// capacity, or one more than the length where that is larger.
pub open spec fn grown_capacity(cap: int, len: int) -> int {
    if 2 * cap >= len + 1 { 2 * cap } else { len + 1 }
}

/// A list of render paths, held by handle (the paths are owned elsewhere), with the
/// engine's capacity accounting: the capacity doubles (or grows to fit) whenever a
/// path is added to a full list.
#[derive(Debug)]
pub struct Paths {
    items: Vec<usize>,
    cap: usize,
}

impl View for Paths {
    type V = Seq<usize>;

    closed spec fn view(&self) -> Seq<usize> {
        self.items@
    }
}

impl Paths {
    #[verifier::type_invariant]
    spec fn well_formed(self) -> bool {
        self.items@.len() <= self.cap
    }

    /// The capacity of the list.
    pub closed spec fn cap(&self) -> nat {
        self.cap as nat
    }

    /// An empty list with no capacity.
    pub fn new() -> (p: Self)
        ensures
            p@ == Seq::<usize>::empty(),
            p.cap() == 0,
    {
        Paths { items: Vec::new(), cap: 0 }
    }

    /// The list holding `path`, or an empty one when `path` is 0 (no path).
    pub fn from_path(path: usize) -> (p: Self)
        ensures
            p@ == (if path == 0 { Seq::<usize>::empty() } else { seq![path] }),
            p.cap() == (if path == 0 { 0nat } else { 1nat }),
    {
        let mut p = Self::new();
        p.add_path(path);
        p
    }

    /// The number of paths.
    pub fn len(&self) -> (n: usize)
        ensures
            n == self@.len(),
    {
        self.items.len()
    }

    /// Whether the list holds no path.
    pub fn is_empty(&self) -> (b: bool)
        ensures
            b == (self@.len() == 0),
    {
        self.items.len() == 0
    }

    /// The capacity of the list.
    pub fn capacity(&self) -> (c: usize)
        ensures
            c == self.cap(),
            self@.len() <= c,
    {
        proof {
            use_type_invariant(self);
        }
        self.cap
    }

    /// Appends `path`; 0 (no path) is ignored. A full list grows first (see
    /// `grown_capacity`).
    pub fn add_path(&mut self, path: usize)
        requires
            path != 0 && old(self)@.len() == old(self).cap() ==> 8 * grown_capacity(
                old(self).cap() as int,
                old(self)@.len() as int,
            ) <= usize::MAX,
        ensures
            final(self)@ == (if path == 0 { old(self)@ } else { old(self)@.push(path) }),
            final(self).cap() == (if path != 0 && old(self)@.len() == old(self).cap() {
                grown_capacity(old(self).cap() as int, old(self)@.len() as int)
            } else {
                old(self).cap() as int
            }),
    {
        proof {
            use_type_invariant(&*self);
        }
        if path == 0 {
            return;
        }
        let size = self.items.len();
        let new_cap = if size < self.cap {
            self.cap
        } else {
            let doubled = self.cap * 2;
            if doubled >= size + 1 { doubled } else { size + 1 }
        };
        let mut items = Vec::new();
        core::mem::swap(&mut items, &mut self.items);
        items.push(path);
        *self = Paths { items, cap: new_cap };
    }

    /// The path at `index`.
    pub fn get_at(&self, index: usize) -> (p: usize)
        requires
            index < self@.len(),
        ensures
            p == self@[index as int],
    {
        self.items[index]
    }
}

impl Default for Paths {
    /// An empty list with no capacity.
    fn default() -> (p: Self)
        ensures
            p@ == Seq::<usize>::empty(),
            p.cap() == 0,
    {
        Self::new()
    }
}

} // verus!
