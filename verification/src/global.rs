//! A container for state that must be declared before the code that can
//! construct its payload has run: created empty, initialized exactly once
//! later, and never torn down.

use vstd::prelude::*;

verus! {

/// Deferred-initialization container: either still empty or initialized with
/// a payload. Once initialized it never reverts to empty; reading it while
/// empty is a contract violation, so `get` and `get_mut` demand
/// initialization up front.
pub struct Global<T> {
    value: Option<T>,
}

impl<T> Global<T> {
    /// Whether the payload has been stored.
    pub closed spec fn is_init(self) -> bool {
        self.value is Some
    }

    /// The stored payload; meaningful only once initialized.
    pub closed spec fn value(self) -> T
        recommends
            self.is_init(),
    {
        self.value->0
    }

    /// Creates a container that already holds `value`.
    pub fn new(value: T) -> (g: Global<T>)
        ensures
            g.is_init(),
            g.value() == value,
    {
        Global { value: Some(value) }
    }

    /// Creates an empty container; it must be initialized with `init`
    /// before `get` or `get_mut` may be called.
    pub fn new_empty() -> (g: Global<T>)
        ensures
            !g.is_init(),
    {
        Global { value: None }
    }

    /// Stores the payload. This happens exactly once in the container's
    /// lifetime: initializing twice is a setup-ordering error, so a second
    /// call is ruled out here rather than silently overwriting.
    pub fn init(&mut self, value: T)
        requires
            !old(self).is_init(),
        ensures
            final(self).is_init(),
            final(self).value() == value,
    {
        self.value = Some(value);
    }

    /// Reads the payload. Calling this while the container is still empty
    /// is a fatal setup-ordering error, excluded by the precondition.
    pub fn get(&self) -> (r: &T)
        requires
            self.is_init(),
        ensures
            *r == self.value(),
    {
        self.value.as_ref().unwrap()
    }

    /// Mutable access to the payload, under the same initialization demand
    /// as `get`. The container stays initialized with whatever the caller
    /// leaves behind the returned handle.
    pub fn get_mut(&mut self) -> (r: &mut T)
        requires
            old(self).is_init(),
        ensures
            *r == old(self).value(),
            final(self).is_init(),
            final(self).value() == *final(r),
    {
        self.value.as_mut().unwrap()
    }
}

} // verus!
