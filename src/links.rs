use crate::link_type::LinkType;
use vstd::prelude::*;

verus! {

/// `std::io::Error`, which `Error::AllocFailed` carries as an opaque value; nothing
/// is assumed of it.
#[verifier::external_type_specification]
#[verifier::external_body]
pub struct ExIoError(std::io::Error);

/// Why an operation on a store of links failed.
#[derive(Debug)]
pub enum Error<T: LinkType> {
    /// The link with this index does not exist.
    NotExists(T),
    /// The link cannot change, because these links use it.
    HasUsages(Box<[Box<[T]>]>),
    /// A link with these parts already exists.
    AlreadyExists(Box<[T]>),
    /// The store holds as many links as it can.
    LimitReached(T),
    /// Memory for the store could not be allocated.
    AllocFailed(std::io::Error),
    /// A failure of a lower layer, by its message.
    Other(String),
}

fn _require_send_sync<E: Send + Sync>() {
}

fn _assert_send_sync<T: LinkType>() {
    _require_send_sync::<Error<T>>();
}

} // verus!
