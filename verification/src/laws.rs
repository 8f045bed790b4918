//! What holds between packing a reference's two words and reading them
//! back.

use crate::addr::Addr;
use crate::meta::{MetaWrapped, WrapMeta};
use crate::wrapper::{RawParts, WrapperInner};
use vstd::prelude::*;

verus! {

/// Packing is lossless: reading a freshly packed pair back for its own
/// metadata kind gives the same data address and the same metadata.
pub proof fn lemma_view_of_wrap<M: MetaWrapped + Copy>(p: RawParts<M>)
    ensures
        RawParts::<M>::viewed(p.wrapped()) == p,
{
    p.meta.untagged_of_tagged();
}

/// A slice-like reference survives packing: the same data address and the
/// same length are read back.
pub proof fn lemma_length_round_trip(len: usize, data: Addr)
    ensures
        (RawParts { meta: len, data }).wrapped() == (WrapperInner {
            data,
            meta: WrapMeta::Length(len),
        }),
        RawParts::<usize>::viewed((RawParts { meta: len, data }).wrapped()) == (RawParts {
            meta: len,
            data,
        }),
{
}

/// A polymorphic reference survives packing: the same data address and
/// the same dispatch address are read back.
pub proof fn lemma_dispatch_round_trip(dispatch: Addr, data: Addr)
    ensures
        (RawParts { meta: dispatch, data }).wrapped() == (WrapperInner {
            data,
            meta: WrapMeta::TraitObject(dispatch),
        }),
        RawParts::<Addr>::viewed((RawParts { meta: dispatch, data }).wrapped()) == (RawParts {
            meta: dispatch,
            data,
        }),
{
}

/// Reading is stable under storage: when what was read from a record for
/// kind `M` is packed and read for kind `M` again, the same pair comes
/// back, whether the record held metadata of kind `M` or not.
pub proof fn lemma_view_is_stable<M: MetaWrapped + Copy>(x: WrapperInner)
    ensures
        RawParts::<M>::viewed(RawParts::<M>::viewed(x).wrapped()) == RawParts::<M>::viewed(x),
{
    lemma_view_of_wrap(RawParts::<M>::viewed(x));
}

/// A record that holds metadata of kind `M` is given back unchanged when
/// what is read from it for kind `M` is packed again.
pub proof fn lemma_wrap_of_view<M: MetaWrapped + Copy>(x: WrapperInner)
    requires
        M::untagged(x.meta) is Some,
    ensures
        RawParts::<M>::viewed(x).wrapped() == x,
{
    M::tagged_of_untagged(x.meta);
}

/// The null record of a kind is inert: a record with the null data address
/// and the empty metadata of kind `M` reads back, for kind `M`, as the null
/// data address and the empty metadata.
pub proof fn lemma_null_wrapper_is_inert<M: MetaWrapped + Copy>(x: WrapperInner)
    requires
        x.data == Addr::null_addr(),
        x.meta == M::null_value().tagged(),
    ensures
        RawParts::<M>::viewed(x) == RawParts::<M>::null_parts(),
{
    M::null_value().untagged_of_tagged();
}

/// A record that holds metadata of another kind than the one asked for
/// reads back as the all-null pair: neither its data address nor the bits
/// of its metadata reach the result.
pub proof fn lemma_mismatch_reads_null<M: MetaWrapped + Copy>(x: WrapperInner)
    requires
        M::untagged(x.meta) is None,
    ensures
        RawParts::<M>::viewed(x) == RawParts::<M>::null_parts(),
{
}

/// Tagged metadata holds exactly one of a length and a dispatch address.
pub proof fn lemma_exactly_one_kind(x: WrapMeta)
    ensures
        <usize as MetaWrapped>::untagged(x) is Some <==> <Addr as MetaWrapped>::untagged(x) is None,
{
}

/// A record tagged as a length, read as a polymorphic reference, gives the
/// null data address and the null dispatch address, whatever the length
/// and the stored data address are.
pub proof fn lemma_length_read_as_dispatch(len: usize, data: Addr)
    ensures
        RawParts::<Addr>::viewed(WrapperInner { data, meta: WrapMeta::Length(len) }) == (RawParts {
            meta: Addr(0),
            data: Addr(0),
        }),
{
}

/// A record tagged as a dispatch address, read as a slice-like reference,
/// gives the null data address and length zero, whatever the two stored
/// addresses are.
pub proof fn lemma_dispatch_read_as_length(dispatch: Addr, data: Addr)
    ensures
        RawParts::<usize>::viewed(WrapperInner { data, meta: WrapMeta::TraitObject(dispatch) })
            == (RawParts { meta: 0usize, data: Addr(0) }),
{
}

} // verus!
