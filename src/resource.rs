//! Resources of the API that can be fetched as collections.
use vstd::prelude::*;

verus! {

/// A resource of the API, known by the URL of its collection.
pub trait ApiResource {
    /// The URL of the resource's collection.
    fn url() -> String;
}

impl<T: ApiResource> ApiResource for Vec<T> {
    fn url() -> String {
        T::url()
    }
}

} // verus!
