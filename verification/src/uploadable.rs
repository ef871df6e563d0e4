//! `Uploadable<T>`: the `Loadable` lifecycle specialized for write
//! operations, driving the same four-state contract for a value sent to
//! a remote resource.
use vstd::prelude::*;

use crate::loadable::FetchHandle;

verus! {

/// A value sent to a remote resource, in exactly one of four states.
#[derive(Debug)]
pub enum Uploadable<T> {
    /// No upload has been dispatched yet.
    NotUploaded,
    /// An upload is in flight; the handle identifies it.
    Uploading(FetchHandle),
    /// The last upload succeeded with this response value.
    Uploaded(T),
    /// The last upload failed, with an error message when one was given.
    Failed(Option<String>),
}

impl<T> Uploadable<T> {
    /// Dispatching an upload stores its handle: the slot is now
    /// `Uploading`, whatever it held before.
    pub fn set_ft(&mut self, ft: FetchHandle)
        ensures
            *final(self) matches Uploadable::Uploading(h) && h.request_id == ft.request_id,
    {
        *self = Uploadable::Uploading(ft);
    }
}

impl<T> Default for Uploadable<T> {
    /// A fresh slot has nothing uploaded.
    fn default() -> (r: Self)
        ensures
            r matches Uploadable::NotUploaded,
    {
        Uploadable::NotUploaded
    }
}

} // verus!
