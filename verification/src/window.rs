//! Window identifiers and the registry of open windows.
//!
//! Both belong to the window subsystem. This crate only ever compares
//! identifiers and asks the registry for a window's current size.

use bevy_window::{WindowId, Windows};
use vstd::prelude::*;

verus! {

/// `bevy_window::WindowId`, an opaque identifier. Nothing is known of a value but
/// whether it is the same identifier as another.
#[verifier::external_type_specification]
#[verifier::external_body]
pub struct ExWindowId(WindowId);

/// `bevy_window::Windows`, the registry that maps identifiers to window records.
#[verifier::external_type_specification]
#[verifier::external_body]
pub struct ExWindows(Windows);

/// What the registry holds: for each identifier that it has a record under, the
/// width and height of that record.
pub uninterp spec fn window_sizes(windows: Windows) -> Map<WindowId, (u32, u32)>;

/// The current width and height of the window `id`, or `None` if the registry
/// does not know the window.
pub open spec fn window_size(windows: Windows, id: WindowId) -> Option<(u32, u32)> {
    if window_sizes(windows).dom().contains(id) {
        Some(window_sizes(windows)[id])
    } else {
        None
    }
}

/// Calls `WindowId`'s `==`.
///
/// Trusted: the derived comparison is on the identifier's sixteen bytes, so it
/// returns `true` exactly when the two identifiers are the same value.
#[verifier::external_body]
pub(crate) fn same_window(a: WindowId, b: WindowId) -> (same: bool)
    ensures
        same == (a == b),
{
    a == b
}

/// Calls `Windows::get` and copies out the `width` and `height` fields of the
/// record found.
///
/// Trusted: the result is the size that [`window_sizes`] maps `id` to, and `None`
/// when the registry has no record under `id`.
#[verifier::external_body]
pub(crate) fn lookup_size(windows: &Windows, id: WindowId) -> (size: Option<(u32, u32)>)
    ensures
        match size {
            Some(found) => window_sizes(*windows).dom().contains(id) && window_sizes(
                *windows,
            )[id] == found,
            None => !window_sizes(*windows).dom().contains(id),
        },
{
    windows.get(id).map(|window| (window.width, window.height))
}

} // verus!
