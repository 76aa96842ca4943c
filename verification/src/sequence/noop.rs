//! The sequence that does nothing.

use vstd::prelude::*;

verus! {

/// A sequence without any effect: it is done as soon as it is started.
#[derive(Clone, Copy, Debug)]
pub struct Noop(());

impl Noop {
    /// The one value of this type.
    pub closed spec fn unit() -> Noop {
        Noop(())
    }

    /// A sequence that does nothing.
    pub fn new() -> (n: Noop)
        ensures
            n == Noop::unit(),
    {
        Noop(())
    }
}

} // verus!
