//! Adapter and queue family selection: the first adapter exposing a queue
//! family that supports graphics work and can present to the surface.

use vstd::prelude::*;
use crate::error::RenderError;

verus! {

/// What the selection reads of one queue family.
#[derive(Clone, Copy, Debug, PartialEq, Eq, Structural)]
pub struct QueueFamilyDesc {
    /// The family supports graphics operations.
    pub supports_graphics: bool,
    /// The family can present to the window's surface.
    pub supports_presentation: bool,
}

/// What the selection reads of one adapter.
#[derive(Clone, Debug, PartialEq, Eq)]
pub struct AdapterDesc {
    /// The adapter's queue families, in reported order.
    pub queue_families: Vec<QueueFamilyDesc>,
}

/// A family that both draws and presents.
pub open spec fn spec_family_suitable(f: QueueFamilyDesc) -> bool {
    f.supports_graphics && f.supports_presentation
}

/// An adapter with at least one suitable family.
pub open spec fn spec_adapter_suitable(a: AdapterDesc) -> bool {
    exists|k: int| 0 <= k < a.queue_families@.len() && spec_family_suitable(
        #[trigger] a.queue_families@[k],
    )
}

/// Index of the first queue family that supports both graphics and
/// presentation, or `None` when no family qualifies.
pub fn find_queue_family(families: &Vec<QueueFamilyDesc>) -> (r: Option<usize>)
    ensures
        match r {
            Some(i) => {
                &&& i < families@.len()
                &&& spec_family_suitable(families@[i as int])
                &&& forall|j: int| 0 <= j < i ==> !spec_family_suitable(#[trigger] families@[j])
            },
            None => forall|j: int| 0 <= j < families@.len() ==> !spec_family_suitable(
                #[trigger] families@[j],
            ),
        },
{
    let mut i: usize = 0;
    while i < families.len()
        invariant
            i <= families@.len(),
            forall|j: int| 0 <= j < i ==> !spec_family_suitable(#[trigger] families@[j]),
        decreases families@.len() - i,
    {
        let f = families[i];
        if f.supports_graphics && f.supports_presentation {
            return Some(i);
        }
        i = i + 1;
    }
    None
}

/// Whether the adapter exposes a suitable queue family.
pub fn adapter_suitable(adapter: &AdapterDesc) -> (r: bool)
    ensures
        r == spec_adapter_suitable(*adapter),
{
    find_queue_family(&adapter.queue_families).is_some()
}

/// Index of the first adapter exposing a queue family with graphics and
/// presentation support, or `None` when no adapter qualifies.
pub fn find_adapter(adapters: &Vec<AdapterDesc>) -> (r: Option<usize>)
    ensures
        match r {
            Some(i) => {
                &&& i < adapters@.len()
                &&& spec_adapter_suitable(adapters@[i as int])
                &&& forall|j: int| 0 <= j < i ==> !spec_adapter_suitable(#[trigger] adapters@[j])
            },
            None => forall|j: int| 0 <= j < adapters@.len() ==> !spec_adapter_suitable(
                #[trigger] adapters@[j],
            ),
        },
{
    let mut i: usize = 0;
    while i < adapters.len()
        invariant
            i <= adapters@.len(),
            forall|j: int| 0 <= j < i ==> !spec_adapter_suitable(#[trigger] adapters@[j]),
        decreases adapters@.len() - i,
    {
        if adapter_suitable(&adapters[i]) {
            return Some(i);
        }
        i = i + 1;
    }
    None
}

/// The opened queue group must hold at least one command queue: accepts a
/// non-empty group and fails an empty one with `NoQueues`.
pub fn validate_queue_group(queue_count: usize) -> (r: Result<(), RenderError>)
    ensures
        queue_count > 0 ==> r == Ok::<(), RenderError>(()),
        queue_count == 0 ==> r == Err::<(), RenderError>(RenderError::NoQueues),
{
    if queue_count == 0 {
        Err(RenderError::NoQueues)
    } else {
        Ok(())
    }
}

} // verus!
