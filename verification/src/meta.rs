//! Tagged metadata: the closed union of the supported metadata kinds, and
//! the conversion of each kind to and from it.

use crate::addr::Addr;
use vstd::prelude::*;

verus! {

/// The metadata word of a reference to an unsized value, tagged with its
/// kind.
#[derive(Clone, Copy, Debug, PartialEq, Eq, Hash, Structural)]
pub enum WrapMeta {
    /// An element count, for slice-like values.
    Length(usize),
    /// A dispatch address, for polymorphic values.
    TraitObject(Addr),
}

/// A kind of metadata that can be stored as a [`WrapMeta`].
///
/// An implementation names the tagged form of each of its values
/// (`tagged`), the value that a tagged form stands for, if any
/// (`untagged`), and its canonical empty value (`null_value`), and proves
/// that `untagged` is the exact inverse of `tagged`.
pub trait MetaWrapped: Sized {
    /// The tagged form of `self`.
    spec fn tagged(self) -> WrapMeta;

    /// The value of this kind that `x` holds; `None` when `x` holds a
    /// value of another kind.
    spec fn untagged(x: WrapMeta) -> Option<Self>;

    /// The canonical empty value of this kind.
    spec fn null_value() -> Self;

    /// Tagging loses nothing: the tagged form of a value holds that value.
    proof fn untagged_of_tagged(self)
        ensures
            Self::untagged(self.tagged()) == Some(self),
    ;

    /// A value read out of a tagged form has exactly that tagged form.
    proof fn tagged_of_untagged(x: WrapMeta)
        ensures
            Self::untagged(x) matches Some(m) ==> m.tagged() == x,
    ;

    /// Tags `self` with its kind.
    fn wrap(self) -> (t: WrapMeta)
        ensures
            t == self.tagged(),
    ;

    /// Reads a value of this kind out of `x`; `None` when `x` is tagged
    /// with another kind.
    fn unwrap(x: WrapMeta) -> (r: Option<Self>)
        ensures
            r == Self::untagged(x),
    ;

    /// Returns the canonical empty value of this kind.
    fn null() -> (r: Self)
        ensures
            r == Self::null_value(),
    ;
}

/// Element counts are stored under [`WrapMeta::Length`]; the empty count
/// is zero.
impl MetaWrapped for usize {
    open spec fn tagged(self) -> WrapMeta {
        WrapMeta::Length(self)
    }

    open spec fn untagged(x: WrapMeta) -> Option<usize> {
        match x {
            WrapMeta::Length(n) => Some(n),
            WrapMeta::TraitObject(_) => None,
        }
    }

    open spec fn null_value() -> usize {
        0
    }

    proof fn untagged_of_tagged(self) {
    }

    proof fn tagged_of_untagged(x: WrapMeta) {
    }

    fn wrap(self) -> (t: WrapMeta) {
        WrapMeta::Length(self)
    }

    fn unwrap(x: WrapMeta) -> (r: Option<usize>) {
        if let WrapMeta::Length(y) = x {
            Some(y)
        } else {
            None
        }
    }

    fn null() -> (r: usize) {
        0
    }
}

/// Dispatch addresses are stored under [`WrapMeta::TraitObject`]; the
/// empty dispatch address is the null address.
impl MetaWrapped for Addr {
    open spec fn tagged(self) -> WrapMeta {
        WrapMeta::TraitObject(self)
    }

    open spec fn untagged(x: WrapMeta) -> Option<Addr> {
        match x {
            WrapMeta::TraitObject(p) => Some(p),
            WrapMeta::Length(_) => None,
        }
    }

    open spec fn null_value() -> Addr {
        Addr::null_addr()
    }

    proof fn untagged_of_tagged(self) {
    }

    proof fn tagged_of_untagged(x: WrapMeta) {
    }

    fn wrap(self) -> (t: WrapMeta) {
        WrapMeta::TraitObject(self)
    }

    fn unwrap(x: WrapMeta) -> (r: Option<Addr>) {
        if let WrapMeta::TraitObject(y) = x {
            Some(y)
        } else {
            None
        }
    }

    fn null() -> (r: Addr) {
        Addr::null()
    }
}

} // verus!
