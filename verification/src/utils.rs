//! Small helpers for what is known to be there.

use vstd::prelude::*;

verus! {

/// The content of an option that is known to hold one: what
/// `o.as_ref()` holds. An empty option here means that something needed a
/// system to be initialized that was not.
pub fn unwrap_ref<T>(o: &Option<T>) -> (content: &T)
    requires
        o is Some,
    ensures
        *content == o->0,
{
    o.as_ref().unwrap()
}

/// The content of an option that is known to hold one, to work with: what
/// `o.as_mut()` holds.
pub fn unwrap_mut<T>(o: &mut Option<T>) -> (content: &mut T)
    requires
        *old(o) is Some,
    ensures
        *content == (*old(o))->0,
        *final(o) == Some(*final(content)),
{
    o.as_mut().unwrap()
}

} // verus!
