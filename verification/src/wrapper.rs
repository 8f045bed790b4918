//! The stored two-word record, and the transform between it and the two
//! words of a reference.

use crate::addr::Addr;
use crate::meta::{MetaWrapped, WrapMeta};
use vstd::prelude::*;

verus! {

/// The stored form of a reference to an unsized value: the address of its
/// data and its tagged metadata. The record owns nothing and carries no
/// type: which kind of metadata is read back from it is chosen by the
/// caller at each reading.
#[derive(Clone, Copy, Debug, PartialEq, Eq, Hash, Structural)]
pub struct WrapperInner {
    /// Address of the value's storage; may be null.
    pub data: Addr,
    /// The value's metadata, tagged with its kind.
    pub meta: WrapMeta,
}

/// The two words of a reference to an unsized value whose metadata is of
/// kind `M`.
#[derive(Debug, PartialEq, Eq, Hash)]
pub struct RawParts<M> {
    /// The metadata word.
    pub meta: M,
    /// Address of the value's storage.
    pub data: Addr,
}

impl<M: Copy> Copy for RawParts<M> {
}

impl<M: Copy> Clone for RawParts<M> {
    fn clone(&self) -> (r: Self)
        ensures
            r == *self,
    {
        *self
    }
}

/// Resolves the metadata and data address that a reference of metadata
/// kind `M` is assembled from: the stored pair when `x` is tagged with
/// kind `M`, else the empty metadata of `M` and the null address.
pub fn prepare_assemble<M: MetaWrapped + Copy>(x: WrapperInner) -> (r: (M, Addr))
    ensures
        r == (RawParts::<M>::viewed(x).meta, RawParts::<M>::viewed(x).data),
{
    if let Some(meta) = M::unwrap(x.meta) {
        (meta, x.data)
    } else {
        (M::null(), Addr::null())
    }
}

impl<M: MetaWrapped + Copy> RawParts<M> {
    /// The record that stores these two words.
    pub open spec fn wrapped(self) -> WrapperInner {
        WrapperInner { data: self.data, meta: self.meta.tagged() }
    }

    /// The two words read back from `x` for metadata kind `M`: the stored
    /// pair when `x` holds metadata of kind `M`, else the all-null pair.
    pub open spec fn viewed(x: WrapperInner) -> RawParts<M> {
        match M::untagged(x.meta) {
            Some(meta) => RawParts { meta, data: x.data },
            None => Self::null_parts(),
        }
    }

    /// The inert pair: empty metadata and the null address.
    pub open spec fn null_parts() -> RawParts<M> {
        RawParts { meta: M::null_value(), data: Addr::null_addr() }
    }

    /// Packs the two words into a record for storage.
    pub fn wrap(self) -> (w: WrapperInner)
        ensures
            w == self.wrapped(),
    {
        let RawParts { meta, data } = self;
        WrapperInner { data, meta: meta.wrap() }
    }

    /// Reads the two words back from `x` for metadata kind `M`.
    pub fn as_ptr(x: &WrapperInner) -> (r: RawParts<M>)
        ensures
            r == Self::viewed(*x),
    {
        let (meta, data) = prepare_assemble::<M>(*x);
        RawParts { meta, data }
    }

    /// Reads the two words back from `x` for metadata kind `M`, telling a
    /// record of another kind apart: `None` exactly when `x` holds no
    /// metadata of kind `M`, where [`RawParts::as_ptr`] gives the all-null
    /// pair.
    pub fn as_ptr_checked(x: &WrapperInner) -> (r: Option<RawParts<M>>)
        ensures
            r is Some <==> M::untagged(x.meta) is Some,
            r matches Some(p) ==> p == Self::viewed(*x),
    {
        match M::unwrap(x.meta) {
            Some(meta) => Some(RawParts { meta, data: x.data }),
            None => None,
        }
    }

    /// Reads the two words back from `x` for metadata kind `M`, for a
    /// reference through which the value may be changed. The record itself
    /// is left as it was.
    pub fn as_mut_ptr(x: &mut WrapperInner) -> (r: RawParts<M>)
        ensures
            *final(x) == *old(x),
            r == Self::viewed(*old(x)),
    {
        let (meta, data) = prepare_assemble::<M>(*x);
        RawParts { meta, data }
    }
}

} // verus!
