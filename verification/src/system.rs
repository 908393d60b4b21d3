//! The per-tick update: drain the window events, then refresh every camera whose
//! window changed.

use crate::camera::{Camera, CameraProjection};
use crate::changed::{
    changed_ids, changed_ids_are_the_distinct_ids, collect_changed, contains_window, merged,
};
use crate::events::{take_created, take_resized, unread_created, unread_resized};
use crate::window::{lookup_size, window_size, window_sizes};
use bevy_app::{EventReader, Events};
use bevy_window::{WindowCreated, WindowId, WindowResized, Windows};
use vstd::prelude::*;

verus! {

/// The state that one camera system keeps between ticks: its own cursor into each
/// of the two window event streams.
pub struct CameraSystemState {
    window_resized_event_reader: EventReader<WindowResized>,
    window_created_event_reader: EventReader<WindowCreated>,
}

impl Default for CameraSystemState {
    fn default() -> (state: Self) {
        CameraSystemState {
            window_resized_event_reader: EventReader::default(),
            window_created_event_reader: EventReader::default(),
        }
    }
}

impl CameraSystemState {
    /// The window identifiers of the resize events that this state has not read.
    pub closed spec fn pending_resized(&self, events: Events<WindowResized>) -> Seq<WindowId> {
        unread_resized(self.window_resized_event_reader, events)
    }

    /// The window identifiers of the creation events that this state has not read.
    pub closed spec fn pending_created(&self, events: Events<WindowCreated>) -> Seq<WindowId> {
        unread_created(self.window_created_event_reader, events)
    }

    /// The changed set that the next tick on these streams will act on.
    pub open spec fn pending_changes(
        &self,
        resized: Events<WindowResized>,
        created: Events<WindowCreated>,
    ) -> Seq<WindowId> {
        changed_ids(self.pending_resized(resized), self.pending_created(created))
    }

    /// Whether this state has read everything in both streams.
    pub open spec fn caught_up(
        &self,
        resized: Events<WindowResized>,
        created: Events<WindowCreated>,
    ) -> bool {
        self.pending_resized(resized).len() == 0 && self.pending_created(created).len() == 0
    }

    /// Drains both streams and returns the changed set: the distinct identifiers
    /// of the windows that had an unread event, each once.
    pub fn changed_windows(
        &mut self,
        resized: &Events<WindowResized>,
        created: &Events<WindowCreated>,
    ) -> (changed: Vec<WindowId>)
        ensures
            changed@ == old(self).pending_changes(*resized, *created),
            changed@.no_duplicates(),
            forall|id: WindowId| #[trigger]
                changed@.contains(id) <==> old(self).pending_resized(*resized).contains(id)
                    || old(self).pending_created(*created).contains(id),
            final(self).caught_up(*resized, *created),
    {
        let resized_ids = take_resized(&mut self.window_resized_event_reader, resized);
        let created_ids = take_created(&mut self.window_created_event_reader, created);
        collect_changed(&resized_ids, &created_ids)
    }
}

/// The size to refresh a camera on `window` to: the window's current size if the
/// window is in the changed set and the registry knows it, else `None`.
pub open spec fn due_size(window: WindowId, changed: Seq<WindowId>, windows: Windows) -> Option<
    (usize, usize),
> {
    match window_size(windows, window) {
        Some((width, height)) if changed.contains(window) => Some(
            (width as usize, height as usize),
        ),
        _ => None,
    }
}

/// Whether `after` is what a refresh to `width` by `height` may make of `before`:
/// the projection was updated to that size, the camera holds the matrix and the
/// depth mode that the updated projection reports, and nothing else changed.
pub open spec fn refreshed_to<T: CameraProjection>(
    before: (Camera, T),
    after: (Camera, T),
    width: usize,
    height: usize,
) -> bool {
    &&& before.1.resizes_to(width, height, &after.1)
    &&& after.1.reports_matrix(after.0.projection_matrix)
    &&& after.1.reports_depth(after.0.depth_calculation)
    &&& after.0.name == before.0.name
    &&& after.0.window == before.0.window
}

/// Whether `after` is what a tick with the given changed set may make of a camera
/// and its projection: refreshed to the window's current size if the window is in
/// the changed set and the registry knows it, untouched otherwise.
pub open spec fn synced_to<T: CameraProjection>(
    before: (Camera, T),
    after: (Camera, T),
    changed: Seq<WindowId>,
    windows: Windows,
) -> bool {
    match due_size(before.0.window, changed, windows) {
        Some((width, height)) => refreshed_to(before, after, width, height),
        None => after == before,
    }
}

/// Whether a tick on the given streams and registry may take a system from
/// `state` to `next` and its cameras from `before` to `after`.
pub open spec fn ticked<T: CameraProjection>(
    state: CameraSystemState,
    next: CameraSystemState,
    resized: Events<WindowResized>,
    created: Events<WindowCreated>,
    windows: Windows,
    before: Seq<(Camera, T)>,
    after: Seq<(Camera, T)>,
) -> bool {
    &&& next.caught_up(resized, created)
    &&& after.len() == before.len()
    &&& forall|i: int|
        0 <= i < before.len() ==> synced_to(
            #[trigger] before[i],
            after[i],
            state.pending_changes(resized, created),
            windows,
        )
}

/// The size that a camera on `window` must be refreshed to this tick, if any.
pub fn pending_size(window: WindowId, changed: &Vec<WindowId>, windows: &Windows) -> (size:
    Option<(usize, usize)>)
    ensures
        size == due_size(window, changed@, *windows),
{
    match lookup_size(windows, window) {
        Some((width, height)) => {
            if contains_window(changed, window) {
                Some((width as usize, height as usize))
            } else {
                None
            }
        },
        None => None,
    }
}

/// Updates `projection` to a viewport of `width` by `height` and copies what it
/// then reports into `camera`.
pub fn refresh<T: CameraProjection>(
    camera: &mut Camera,
    projection: &mut T,
    width: usize,
    height: usize,
)
    ensures
        refreshed_to(
            (*old(camera), *old(projection)),
            (*final(camera), *final(projection)),
            width,
            height,
        ),
{
    projection.update(width, height);
    camera.projection_matrix = projection.get_projection_matrix();
    camera.depth_calculation = projection.depth_calculation();
}

/// Refreshes one camera if its window is in the changed set and known to the
/// registry, and leaves it and its projection untouched otherwise.
pub fn sync_camera<T: CameraProjection>(
    camera: &mut Camera,
    projection: &mut T,
    changed: &Vec<WindowId>,
    windows: &Windows,
)
    ensures
        synced_to(
            (*old(camera), *old(projection)),
            (*final(camera), *final(projection)),
            changed@,
            *windows,
        ),
{
    match pending_size(camera.window, changed, windows) {
        Some((width, height)) => refresh(camera, projection, width, height),
        None => {},
    }
}

/// One tick of the camera system: drains both event streams, then refreshes every
/// camera in `query` whose window had an event and is known to the registry.
pub fn camera_system<T: CameraProjection>(
    state: &mut CameraSystemState,
    window_resized_events: &Events<WindowResized>,
    window_created_events: &Events<WindowCreated>,
    windows: &Windows,
    query: &mut Vec<(Camera, T)>,
)
    ensures
        ticked(
            *old(state),
            *final(state),
            *window_resized_events,
            *window_created_events,
            *windows,
            old(query)@,
            final(query)@,
        ),
{
    let changed = state.changed_windows(window_resized_events, window_created_events);
    let mut i: usize = 0;
    while i < query.len()
        invariant
            i <= query@.len(),
            query@.len() == old(query)@.len(),
            forall|j: int|
                0 <= j < i ==> synced_to(
                    #[trigger] old(query)@[j],
                    query@[j],
                    changed@,
                    *windows,
                ),
            forall|j: int| i <= j < query@.len() ==> #[trigger] query@[j] == old(query)@[j],
        decreases query@.len() - i,
    {
        let entry = &mut query[i];
        sync_camera(&mut entry.0, &mut entry.1, &changed, windows);
        i += 1;
    }
}

/// A second tick on the same streams, with no event sent in between, is idle: its
/// changed set is empty and it leaves every camera and projection as the first
/// tick left them, even if the registry has changed.
pub proof fn second_tick_is_idle<T: CameraProjection>(
    state: CameraSystemState,
    next: CameraSystemState,
    last: CameraSystemState,
    resized: Events<WindowResized>,
    created: Events<WindowCreated>,
    windows: Windows,
    windows_then: Windows,
    before: Seq<(Camera, T)>,
    between: Seq<(Camera, T)>,
    after: Seq<(Camera, T)>,
)
    requires
        ticked(state, next, resized, created, windows, before, between),
        ticked(next, last, resized, created, windows_then, between, after),
    ensures
        next.pending_changes(resized, created) == Seq::<WindowId>::empty(),
        after == between,
{
    let none = Seq::<WindowId>::empty();
    assert(next.pending_resized(resized) == none);
    assert(next.pending_created(created) == none);
    assert(none.reverse() == none);
    assert(merged(none, none) == none);
    assert forall|i: int| 0 <= i < between.len() implies after[i] == between[i] by {
        assert(synced_to(between[i], after[i], none, windows_then));
        assert(!none.contains(between[i].0.window));
    }
    assert(after =~= between);
}

/// However many unread events name a camera's window, one tick updates the
/// camera's projection once, to the size that the registry holds for the window,
/// and the camera takes over what the updated projection reports.
pub proof fn repeated_events_refresh_once<T: CameraProjection>(
    state: CameraSystemState,
    next: CameraSystemState,
    resized: Events<WindowResized>,
    created: Events<WindowCreated>,
    windows: Windows,
    before: Seq<(Camera, T)>,
    after: Seq<(Camera, T)>,
    i: int,
)
    requires
        ticked(state, next, resized, created, windows, before, after),
        0 <= i < before.len(),
        state.pending_resized(resized).contains(before[i].0.window) || state.pending_created(
            created,
        ).contains(before[i].0.window),
        window_sizes(windows).dom().contains(before[i].0.window),
    ensures
        ({
            let (width, height) = window_sizes(windows)[before[i].0.window];
            refreshed_to(before[i], after[i], width as usize, height as usize)
        }),
{
    changed_ids_are_the_distinct_ids(state.pending_resized(resized), state.pending_created(created));
    assert(synced_to(before[i], after[i], state.pending_changes(resized, created), windows));
}

/// A camera whose window the registry does not know is left as it was, and so is
/// its projection, whatever events were sent.
pub proof fn unknown_window_is_skipped<T: CameraProjection>(
    state: CameraSystemState,
    next: CameraSystemState,
    resized: Events<WindowResized>,
    created: Events<WindowCreated>,
    windows: Windows,
    before: Seq<(Camera, T)>,
    after: Seq<(Camera, T)>,
    i: int,
)
    requires
        ticked(state, next, resized, created, windows, before, after),
        0 <= i < before.len(),
        !window_sizes(windows).dom().contains(before[i].0.window),
    ensures
        after[i] == before[i],
{
    assert(synced_to(before[i], after[i], state.pending_changes(resized, created), windows));
}

/// A camera whose window had no unread event is left as it was, and so is its
/// projection.
pub proof fn unchanged_window_is_skipped<T: CameraProjection>(
    state: CameraSystemState,
    next: CameraSystemState,
    resized: Events<WindowResized>,
    created: Events<WindowCreated>,
    windows: Windows,
    before: Seq<(Camera, T)>,
    after: Seq<(Camera, T)>,
    i: int,
)
    requires
        ticked(state, next, resized, created, windows, before, after),
        0 <= i < before.len(),
        !state.pending_resized(resized).contains(before[i].0.window),
        !state.pending_created(created).contains(before[i].0.window),
    ensures
        after[i] == before[i],
{
    changed_ids_are_the_distinct_ids(state.pending_resized(resized), state.pending_created(created));
    assert(synced_to(before[i], after[i], state.pending_changes(resized, created), windows));
}

/// Systems that read the same streams do not take events from each other: each
/// keeps its own cursors, and a tick only borrows the streams. When a second
/// system, of whatever projection type, ticks after a first one has consumed
/// everything, it still refreshes each of its cameras whose window had an event
/// that it had not read itself.
pub proof fn systems_read_independently<T: CameraProjection, U: CameraProjection>(
    first: CameraSystemState,
    first_next: CameraSystemState,
    second: CameraSystemState,
    second_next: CameraSystemState,
    resized: Events<WindowResized>,
    created: Events<WindowCreated>,
    windows: Windows,
    first_before: Seq<(Camera, T)>,
    first_after: Seq<(Camera, T)>,
    second_before: Seq<(Camera, U)>,
    second_after: Seq<(Camera, U)>,
    i: int,
)
    requires
        ticked(first, first_next, resized, created, windows, first_before, first_after),
        ticked(second, second_next, resized, created, windows, second_before, second_after),
        0 <= i < second_before.len(),
        second.pending_resized(resized).contains(second_before[i].0.window)
            || second.pending_created(created).contains(second_before[i].0.window),
        window_sizes(windows).dom().contains(second_before[i].0.window),
    ensures
        ({
            let (width, height) = window_sizes(windows)[second_before[i].0.window];
            refreshed_to(second_before[i], second_after[i], width as usize, height as usize)
        }),
{
    repeated_events_refresh_once(
        second,
        second_next,
        resized,
        created,
        windows,
        second_before,
        second_after,
        i,
    );
}

} // verus!
