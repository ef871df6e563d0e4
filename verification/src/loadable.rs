//! `Loadable<T>`: the lifecycle of a value fetched over the network.
//!
//! A slot starts `Unloaded`, moves to `Loading` when a request is
//! dispatched, and then to `Loaded` on success or `Failed` on error.
//! Exactly one state holds at a time; a new request while `Loading`
//! replaces the in-flight handle, with no promise beyond discarding the
//! old handle.
use vstd::prelude::*;
use vstd::string::StringExecFns;

use crate::html::Html;
use crate::html::LoadingType;
use crate::html::loading_view;
use crate::html::is_centered_text;
use crate::html::centered_text;
use crate::html::empty;

verus! {

/// The handle of one in-flight request. It identifies the request whose
/// completion may still write to the slot that holds it. It cannot be
/// cloned: at most one slot retains a given handle.
#[derive(Debug)]
pub struct FetchHandle {
    /// The request this handle belongs to.
    pub request_id: u64,
}

/// A value fetched over the network, in exactly one of four states.
#[derive(Debug)]
pub enum Loadable<T> {
    /// No request has been dispatched yet.
    Unloaded,
    /// A request is in flight; the handle identifies it.
    Loading(FetchHandle),
    /// The last request succeeded with this value.
    Loaded(T),
    /// The last request failed, with an error message when one was given.
    Failed(Option<String>),
}

impl<T> Loadable<T> {
    /// Dispatching a request stores its handle: the slot is now `Loading`,
    /// whatever it held before.
    pub fn set_ft(&mut self, ft: FetchHandle)
        ensures
            *final(self) matches Loadable::Loading(h) && h.request_id == ft.request_id,
    {
        *self = Loadable::Loading(ft);
    }
}

impl<T> Default for Loadable<T> {
    /// A fresh slot is `Unloaded`.
    fn default() -> (r: Self)
        ensures
            r matches Loadable::Unloaded,
    {
        Loadable::Unloaded
    }
}

impl<T: Clone> Clone for Loadable<T> {
    /// Cloning keeps the state, except that a `Loading` clone degrades to
    /// `Unloaded`: the in-flight handle itself cannot be cloned, so the
    /// copy simply has no request in flight.
    fn clone(&self) -> (r: Self)
        ensures
            *self matches Loadable::Unloaded ==> r matches Loadable::Unloaded,
            *self matches Loadable::Loading(_) ==> r matches Loadable::Unloaded,
            *self matches Loadable::Loaded(t) ==> (r matches Loadable::Loaded(t2)
                && cloned::<T>(t, t2)),
            *self matches Loadable::Failed(m) ==> (r matches Loadable::Failed(m2)
                && (m is Some <==> m2 is Some) && (m matches Some(s) ==> m2->0@ == s@)),
    {
        match self {
            Loadable::Unloaded => Loadable::Unloaded,
            Loadable::Loading(_) => Loadable::Unloaded,
            Loadable::Loaded(t) => Loadable::Loaded(t.clone()),
            Loadable::Failed(o) => Loadable::Failed(o.clone()),
        }
    }
}

/// Holds when `r` is a possible render of the slot under the given
/// pieces: empty when `Unloaded`, the loading placeholder while
/// `Loading`, the caller-supplied render of the value when `Loaded`, and
/// the error view when `Failed`, where a missing message falls back to
/// the literal text "Request Failed".
pub open spec fn is_loadable_view<T, F: Fn(&T) -> Html>(
    l: Loadable<T>,
    loaded_fn: F,
    loading: Html,
    r: Html,
) -> bool {
    match l {
        Loadable::Unloaded => r == Html::Empty,
        Loadable::Loading(_) => r == loading,
        Loadable::Loaded(t) => call_ensures(loaded_fn, (&t,), r),
        Loadable::Failed(m) => is_failed_view(r, m),
    }
}

/// Holds when `r` is the error view for the message `m`: a centered text
/// node with the message, or with "Request Failed" when there is none.
pub open spec fn is_failed_view(r: Html, m: Option<String>) -> bool {
    match m {
        Some(msg) => is_centered_text(r, msg@),
        None => is_centered_text(r, "Request Failed"@),
    }
}

impl<T> Loadable<T> {
    /// The error view: the message when one was given, the literal
    /// fallback text "Request Failed" otherwise.
    pub fn failed(error: &Option<String>) -> (r: Html)
        ensures
            is_failed_view(r, *error),
    {
        match error {
            Some(message) => centered_text(message.clone()),
            None => centered_text(String::from_str("Request Failed")),
        }
    }

    /// Renders the slot from caller-supplied pieces: a render of the
    /// loaded value, a loading placeholder, and a render of a failure.
    fn custom_view<F: Fn(&T) -> Html, G: Fn(&Option<String>) -> Html>(
        &self,
        loaded_fn: F,
        loading: Html,
        failed_fn: G,
    ) -> (r: Html)
        requires
            (*self matches Loadable::Loaded(t) ==> call_requires(loaded_fn, (&t,))),
            (*self matches Loadable::Failed(m) ==> call_requires(failed_fn, (&m,))),
        ensures
            *self matches Loadable::Unloaded ==> r == Html::Empty,
            *self matches Loadable::Loading(_) ==> r == loading,
            *self matches Loadable::Loaded(t) ==> call_ensures(loaded_fn, (&t,), r),
            *self matches Loadable::Failed(m) ==> call_ensures(failed_fn, (&m,), r),
    {
        match self {
            Loadable::Unloaded => empty(),
            Loadable::Loading(_) => loading,
            Loadable::Loaded(t) => loaded_fn(t),
            Loadable::Failed(error) => failed_fn(error),
        }
    }

    /// Renders with a large loading icon as the placeholder and the
    /// default error view; for medium to large panes.
    pub fn default_view<F: Fn(&T) -> Html>(&self, render_fn: F) -> (r: Html)
        requires
            (*self matches Loadable::Loaded(t) ==> call_requires(render_fn, (&t,))),
        ensures
            is_loadable_view(*self, render_fn, loading_view((LoadingType::Fidget { diameter: 100 })), r),
    {
        let loading = LoadingType::Fidget { diameter: 100 }.view();
        self.custom_view(render_fn, loading, Self::failed)
    }

    /// Renders with no loading placeholder and the default error view;
    /// usable in the smallest panes.
    pub fn small_view<F: Fn(&T) -> Html>(&self, render_fn: F) -> (r: Html)
        requires
            (*self matches Loadable::Loaded(t) ==> call_requires(render_fn, (&t,))),
        ensures
            is_loadable_view(*self, render_fn, loading_view(LoadingType::Empty), r),
    {
        let loading = LoadingType::Empty.view();
        self.custom_view(render_fn, loading, Self::failed)
    }
}

} // verus!
