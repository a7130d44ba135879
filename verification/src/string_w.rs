use vstd::prelude::*;
use std::rc::Rc;
use crate::share_ptr::{rc_share, rc_handle_count};

verus! {

/// The UTF-16 code units of one character: itself below U+10000, otherwise a
/// surrogate pair.
pub open spec fn utf16_units(c: char) -> Seq<u16> {
    let v = c as u32;
    if v < 0x10000 {
        seq![v as u16]
    } else {
        let u = (v - 0x10000) as u32;
        seq![(0xD800 + u / 1024) as u16, (0xDC00 + u % 1024) as u16]
    }
}

/// UTF-16 encoding of a character sequence.
pub open spec fn utf16_encode(s: Seq<char>) -> Seq<u16>
    decreases s.len(),
{
    if s.len() == 0 {
        Seq::empty()
    } else {
        utf16_encode(s.drop_last()) + utf16_units(s.last())
    }
}

proof fn lemma_utf16_encode_take(s: Seq<char>, i: int)
    requires
        0 <= i < s.len(),
    ensures
        utf16_encode(s.take(i + 1)) == utf16_encode(s.take(i)) + utf16_units(s[i]),
{
    assert(s.take(i + 1).drop_last() =~= s.take(i));
}

/// Encodes one character into `out`.
fn push_utf16(out: &mut Vec<u16>, c: char)
    ensures
        final(out)@ == old(out)@ + utf16_units(c),
{
    let v = c as u32;
    if v < 0x10000 {
        out.push(v as u16);
        assert(final(out)@ =~= old(out)@ + utf16_units(c));
    } else {
        assert(v <= 0x10FFFF);
        let u = v - 0x10000;
        out.push((0xD800 + u / 1024) as u16);
        out.push((0xDC00 + u % 1024) as u16);
        assert(final(out)@ =~= old(out)@ + utf16_units(c));
    }
}

/// Reference count of the shared empty string: it is never counted nor freed.
pub const REFCOUNT_NIL: i32 = -2;

/// A wide (UTF-16) string whose buffer is shared between copies.
///
/// The default value is the shared empty string; any other value owns a counted buffer.
#[derive(Debug)]
pub struct CHncStringW {
    data: Option<Rc<Vec<u16>>>,
}

impl View for CHncStringW {
    type V = Seq<u16>;

    closed spec fn view(&self) -> Seq<u16> {
        match self.data {
            Some(rc) => rc@,
            None => Seq::empty(),
        }
    }
}

impl CHncStringW {
    #[verifier::type_invariant]
    closed spec fn length_fits(self) -> bool {
        self.data matches Some(rc) ==> rc@.len() <= i32::MAX
    }

    /// Whether this value is the shared empty string.
    pub closed spec fn is_nil(&self) -> bool {
        self.data is None
    }

    /// The shared empty string.
    pub fn new() -> (s: Self)
        ensures
            s@ == Seq::<u16>::empty(),
            s.is_nil(),
    {
        CHncStringW { data: None }
    }

    /// A string holding a fresh copy of `s`.
    pub fn from_wide(s: &[u16]) -> (r: Self)
        requires
            s@.len() <= i32::MAX,
        ensures
            r@ == s@,
            !r.is_nil(),
    {
        let mut v: Vec<u16> = Vec::with_capacity(s.len());
        let mut i: usize = 0;
        while i < s.len()
            invariant
                i <= s@.len(),
                v@ == s@.subrange(0, i as int),
            decreases s@.len() - i,
        {
            v.push(s[i]);
            i = i + 1;
            assert(v@ =~= s@.subrange(0, i as int));
        }
        assert(v@ =~= s@);
        CHncStringW { data: Some(Rc::new(v)) }
    }

    /// A string holding the UTF-16 encoding of `s`.
    pub fn from_str(s: &str) -> (r: Self)
        requires
            utf16_encode(s@).len() <= i32::MAX,
        ensures
            r@ == utf16_encode(s@),
            !r.is_nil(),
    {
        let mut encoded: Vec<u16> = Vec::new();
        for c in it: s.chars()
            invariant
                it.seq() == s@,
                encoded@ == utf16_encode(s@.take(it.index() as int)),
        {
            proof { lemma_utf16_encode_take(s@, it.index() as int); }
            push_utf16(&mut encoded, c);
        }
        assert(s@.take(s@.len() as int) =~= s@);
        Self::from_wide(encoded.as_slice())
    }

    /// Number of UTF-16 units, without terminator.
    pub fn length(&self) -> (n: i32)
        ensures
            n == self@.len(),
    {
        proof { use_type_invariant(self); }
        match &self.data {
            Some(rc) => rc.len() as i32,
            None => 0,
        }
    }

    /// The UTF-16 units.
    pub fn as_wide(&self) -> (w: &[u16])
        ensures
            w@ == self@,
    {
        match &self.data {
            Some(rc) => rc.as_slice(),
            None => &[],
        }
    }

    /// Another handle to the same characters; the buffer is shared, not copied.
    pub fn share(&self) -> (r: Self)
        ensures
            r@ == self@,
            r.is_nil() == self.is_nil(),
    {
        proof { use_type_invariant(self); }
        match &self.data {
            Some(rc) => CHncStringW { data: Some(rc_share(rc)) },
            None => CHncStringW { data: None },
        }
    }

    /// Reference count of the buffer: `REFCOUNT_NIL` for the shared empty string,
    /// otherwise the number of live handles (at least one).
    pub fn refcount(&self) -> (r: i32)
        ensures
            self.is_nil() ==> r == REFCOUNT_NIL,
            !self.is_nil() ==> r >= 1,
    {
        match &self.data {
            Some(rc) => {
                let n = rc_handle_count(rc);
                if n <= i32::MAX as usize { n as i32 } else { i32::MAX }
            },
            None => REFCOUNT_NIL,
        }
    }
}

/// Whether two unit slices hold the same units.
pub fn wide_equal(a: &[u16], b: &[u16]) -> (r: bool)
    ensures
        r == (a@ == b@),
{
    if a.len() != b.len() {
        return false;
    }
    let mut i: usize = 0;
    while i < a.len()
        invariant
            a@.len() == b@.len(),
            i <= a@.len(),
            forall|j: int| 0 <= j < i ==> a@[j] == b@[j],
        decreases a@.len() - i,
    {
        if a[i] != b[i] {
            return false;
        }
        i = i + 1;
    }
    assert(a@ =~= b@);
    true
}

impl PartialEq for CHncStringW {
    fn eq(&self, other: &Self) -> (r: bool) {
        wide_equal(self.as_wide(), other.as_wide())
    }
}

impl vstd::std_specs::cmp::PartialEqSpecImpl for CHncStringW {
    open spec fn obeys_eq_spec() -> bool {
        true
    }

    open spec fn eq_spec(&self, other: &Self) -> bool {
        self@ == other@
    }
}

impl Eq for CHncStringW {}

impl Default for CHncStringW {
    fn default() -> (s: Self)
        ensures
            s@ == Seq::<u16>::empty(),
            s.is_nil(),
    {
        CHncStringW::new()
    }
}

} // verus!
