//! Compare-and-swap updates.
use vstd::prelude::*;
use vstd::std_specs::cmp::PartialEqSpec;

verus! {

/// Atomic update result.
#[derive(Debug)]
pub struct AtomicUpdate<T> {
    pub previous: Option<T>,
    pub current: T,
}

/// Compare-and-swap operation: a new value, and the value it expects to
/// replace (none, to replace whatever is there).
#[derive(Debug)]
pub struct CompareAndSwap<T> {
    previous: Option<T>,
    new: T,
}

impl<T> CompareAndSwap<T> {
    /// The value the operation expects to find, if any.
    pub closed spec fn expected(self) -> Option<T> {
        self.previous
    }

    /// The value the operation puts in place.
    pub closed spec fn replacement(self) -> T {
        self.new
    }

    /// The operation replacing `previous` (or anything, if `None`) by `new`.
    pub fn new(previous: Option<T>, new: T) -> (c: CompareAndSwap<T>)
        ensures
            c.expected() == previous,
            c.replacement() == new,
    {
        CompareAndSwap { previous, new }
    }

    /// Whether the operation may take place on the current value: when it
    /// expects a value, the current value must equal it; when it expects
    /// none, it always may.
    pub fn execute(&self, current: &T) -> (b: bool) where T: PartialEq
        ensures
            match self.expected() {
                Some(p) => T::obeys_eq_spec() ==> b == current.eq_spec(&p),
                None => b,
            },
    {
        match &self.previous {
            Some(prev) => *current == *prev,
            None => true,
        }
    }
}

} // verus!
