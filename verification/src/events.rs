//! The window event streams and the cursors that read them.
//!
//! A stream is an append-only log owned by the window subsystem. A reader is a
//! forward-only cursor into one stream: whoever owns the reader sees each event
//! once, whatever other readers of the same stream do.

use bevy_app::{EventReader, Events};
use bevy_window::{WindowCreated, WindowId, WindowResized};
use vstd::prelude::*;

verus! {

/// `bevy_window::WindowResized`, the event sent when a window has been resized.
#[verifier::external_type_specification]
#[verifier::external_body]
pub struct ExWindowResized(WindowResized);

/// `bevy_window::WindowCreated`, the event sent when a window has been created.
#[verifier::external_type_specification]
#[verifier::external_body]
pub struct ExWindowCreated(WindowCreated);

/// `bevy_app::Events`, a stream of events of one type.
#[verifier::external_type_specification]
#[verifier::external_body]
#[verifier::reject_recursive_types(T)]
pub struct ExEvents<T>(Events<T>);

/// `bevy_app::EventReader`, a cursor into a stream of events of one type.
#[verifier::external_type_specification]
#[verifier::external_body]
#[verifier::reject_recursive_types(T)]
pub struct ExEventReader<T>(EventReader<T>);

/// The window identifiers of the resize events in `events` that `reader` has not
/// read yet, in emission order.
pub uninterp spec fn unread_resized(
    reader: EventReader<WindowResized>,
    events: Events<WindowResized>,
) -> Seq<WindowId>;

/// The window identifiers of the creation events in `events` that `reader` has not
/// read yet, in emission order.
pub uninterp spec fn unread_created(
    reader: EventReader<WindowCreated>,
    events: Events<WindowCreated>,
) -> Seq<WindowId>;

/// `EventReader`'s `Default::default`: a reader that has read nothing. Nothing is
/// claimed of it.
pub assume_specification<T>[ <EventReader<T> as Default>::default ]() -> (reader: EventReader<T>);

/// Calls `EventReader::iter` on a resize stream and copies out the `id` field of
/// each event it yields.
///
/// Trusted: the identifiers come in emission order and are the ones that
/// [`unread_resized`] names for the reader as it was; the call moves the reader
/// past everything in the stream, so that it has nothing left to read there.
#[verifier::external_body]
pub(crate) fn take_resized(
    reader: &mut EventReader<WindowResized>,
    events: &Events<WindowResized>,
) -> (ids: Vec<WindowId>)
    ensures
        ids@ == unread_resized(*old(reader), *events),
        unread_resized(*final(reader), *events).len() == 0,
{
    reader.iter(events).map(|event| event.id).collect()
}

/// Calls `EventReader::iter` on a creation stream and copies out the `id` field
/// of each event it yields.
///
/// Trusted: the identifiers come in emission order and are the ones that
/// [`unread_created`] names for the reader as it was; the call moves the reader
/// past everything in the stream, so that it has nothing left to read there.
#[verifier::external_body]
pub(crate) fn take_created(
    reader: &mut EventReader<WindowCreated>,
    events: &Events<WindowCreated>,
) -> (ids: Vec<WindowId>)
    ensures
        ids@ == unread_created(*old(reader), *events),
        unread_created(*final(reader), *events).len() == 0,
{
    reader.iter(events).map(|event| event.id).collect()
}

} // verus!
