//! Machine addresses as plain words.

use vstd::prelude::*;

verus! {

/// The address held by an untyped pointer. The word zero is the null
/// address; no other value is interpreted.
#[derive(Clone, Copy, Debug, PartialEq, Eq, Hash, Structural)]
pub struct Addr(pub usize);

impl Addr {
    /// The null address.
    pub open spec fn null_addr() -> Addr {
        Addr(0)
    }

    /// Whether this is the null address.
    pub open spec fn is_null_addr(self) -> bool {
        self.0 == 0
    }

    /// Returns the null address.
    pub fn null() -> (a: Addr)
        ensures
            a == Addr::null_addr(),
    {
        Addr(0)
    }

    /// Tells whether this is the null address.
    pub fn is_null(&self) -> (b: bool)
        ensures
            b == self.is_null_addr(),
    {
        self.0 == 0
    }
}

} // verus!
