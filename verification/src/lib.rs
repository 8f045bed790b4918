//! A fixed two-word representation for references to unsized values.
//!
//! A reference to an unsized value is a data address together with one word
//! of metadata: an element count for slice-like values, a dispatch address
//! for polymorphic values. This crate tags that metadata, stores it beside
//! the data address in a [`WrapperInner`], and recovers both words again
//! for a requested kind of metadata, falling back to an inert all-null pair
//! when the stored tag is of another kind.
//!
//! Addresses are handled as plain machine words ([`Addr`]); nothing here
//! dereferences them.

pub mod addr;
pub mod laws;
pub mod meta;
pub mod wrapper;

pub use addr::Addr;
pub use meta::{MetaWrapped, WrapMeta};
pub use wrapper::{prepare_assemble, RawParts, WrapperInner};
