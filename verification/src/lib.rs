//! A verified model of the resource lifecycle and per-frame synchronization
//! core of a minimal real-time rendering harness.
//!
//! The library owns every decision the renderer makes: adapter and queue
//! selection, swapchain configuration, buffer memory planning, per-frame
//! vertex uploads, command recording, the frame-in-flight rotation, and the
//! teardown order. The surrounding process performs the actual GPU calls and
//! feeds their outcomes back as events.

use vstd::prelude::*;

pub mod adapter;
pub mod buffer_info;
pub mod drawing;
pub mod error;
pub mod gfx_state;
pub mod memory;
pub mod pipeline_info;
pub mod swapchain;
pub mod teardown;

verus! {

/// Maximum number of frames whose GPU work may be outstanding at once.
/// Matches mailbox presentation, which uses three images for vsync.
pub const FRAMES_IN_FLIGHT: usize = 3;

/// Total byte size of a slice, as `len * size_of::<T>()`.
pub fn array_size<T>(array: &[T]) -> (r: usize)
    ensures
        r == array@.len() * vstd::layout::size_of::<T>(),
{
    proof {
        broadcast use vstd::layout::layout_of_slices;
    }
    core::mem::size_of_val(array)
}

/// Builds one synchronization primitive per frame in flight by calling the
/// given constructor, stopping at its first failure.
pub fn flight<T, F: Fn() -> Result<T, &'static str>>(cb: F) -> (r: Result<Vec<T>, &'static str>)
    requires
        cb.requires(()),
    ensures
        match r {
            Ok(v) => v@.len() == FRAMES_IN_FLIGHT && forall|k: int|
                0 <= k < v@.len() ==> cb.ensures((), Ok(v@[k])),
            Err(e) => cb.ensures((), Err(e)),
        },
{
    let mut v: Vec<T> = Vec::new();
    let mut i: usize = 0;
    while i < FRAMES_IN_FLIGHT
        invariant
            i <= FRAMES_IN_FLIGHT,
            v@.len() == i,
            cb.requires(()),
            forall|k: int| 0 <= k < v@.len() ==> cb.ensures((), Ok(v@[k])),
        decreases FRAMES_IN_FLIGHT - i,
    {
        match cb() {
            Ok(t) => v.push(t),
            Err(e) => {
                return Err(e);
            },
        }
        i = i + 1;
    }
    Ok(v)
}

/// Builds one synchronization primitive per frame in flight by calling the
/// given constructor, stopping at its first failure.
pub fn full_flight<T, F: Fn() -> Result<T, &'static str>>(cb: F) -> (r: Result<
    Vec<T>,
    &'static str,
>)
    requires
        cb.requires(()),
    ensures
        match r {
            Ok(v) => v@.len() == FRAMES_IN_FLIGHT && forall|k: int|
                0 <= k < v@.len() ==> cb.ensures((), Ok(v@[k])),
            Err(e) => cb.ensures((), Err(e)),
        },
{
    flight(cb)
}

} // verus!
