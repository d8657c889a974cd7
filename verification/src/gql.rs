//! Requests that carry a typed body, and the record types that can describe
//! themselves.

use vstd::prelude::*;

verus! {

/// A request with its body.
#[derive(Debug)]
pub struct Request<T> {
    pub body: T,
}

/// A record type that can describe its own structure.
pub trait ObjectMeta {
    /// The description of the type's structure.
    fn metastruct() -> String;
}

} // verus!
