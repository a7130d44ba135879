use vstd::prelude::*;
use std::rc::Rc;

verus! {

/// Gives a second handle to the value behind `rc`.
///
/// Trusted: calls `Rc::clone`, which std documents as making another pointer to the
/// same allocation; the contract claims that the new handle holds the same value.
#[verifier::external_body]
pub(crate) fn rc_share<T>(rc: &Rc<T>) -> (r: Rc<T>)
    ensures
        r == *rc,
{
    Rc::clone(rc)
}

/// Number of handles on the value behind `rc`.
///
/// Trusted: calls `Rc::strong_count`. The count depends on every handle alive in the
/// process, so the contract states only what holds of every outcome: `rc` itself counts.
#[verifier::external_body]
pub(crate) fn rc_handle_count<T>(rc: &Rc<T>) -> (n: usize)
    ensures
        n >= 1,
{
    Rc::strong_count(rc)
}

/// A shared pointer: empty, or one of the counted handles on a heap value.
#[derive(Debug)]
pub struct SharePtr<T> {
    pub raw: Option<Rc<T>>,
}

impl<T> SharePtr<T> {
    /// The empty pointer.
    pub fn null() -> (p: Self)
        ensures
            p.raw is None,
    {
        SharePtr { raw: None }
    }

    /// A pointer to a fresh heap copy of `value`, its only handle.
    pub fn from_object(value: T) -> (p: Self)
        ensures
            p.raw matches Some(rc) && *rc == value,
    {
        SharePtr { raw: Some(Rc::new(value)) }
    }

    /// Whether the pointer is empty.
    pub fn is_null(&self) -> (r: bool)
        ensures
            r == (self.raw is None),
    {
        self.raw.is_none()
    }

    /// The value pointed to, if any.
    pub fn obj(&self) -> (r: Option<&T>)
        ensures
            r is Some == self.raw is Some,
            r matches Some(v) ==> (self.raw matches Some(rc) && *v == *rc),
    {
        match &self.raw {
            Some(rc) => Some(&**rc),
            None => None,
        }
    }

    /// Number of handles on the value: 0 for the empty pointer, otherwise at least 1.
    pub fn refcount(&self) -> (r: u64)
        ensures
            self.raw is None ==> r == 0,
            self.raw is Some ==> r >= 1,
    {
        match &self.raw {
            Some(rc) => rc_handle_count(rc) as u64,
            None => 0,
        }
    }
}

impl<T> Clone for SharePtr<T> {
    /// Another handle on the same value (the count grows by one); empty stays empty.
    fn clone(&self) -> (r: Self)
        ensures
            r.raw == self.raw,
    {
        match &self.raw {
            Some(rc) => SharePtr { raw: Some(rc_share(rc)) },
            None => SharePtr { raw: None },
        }
    }
}

impl<T> Default for SharePtr<T> {
    /// The empty pointer.
    fn default() -> (r: Self)
        ensures
            r.raw is None,
    {
        SharePtr::null()
    }
}

} // verus!
