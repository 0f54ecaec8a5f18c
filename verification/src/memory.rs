//! Buffer memory planning: picking a CPU-visible memory type that is
//! compatible with a buffer's memory requirements.

use vstd::prelude::*;

verus! {

/// Memory requirements reported for a freshly created buffer handle.
#[derive(Clone, Copy, Debug, PartialEq, Eq, Structural)]
pub struct MemoryRequirements {
    /// Byte size the allocation must have.
    pub size: u64,
    /// Required alignment of the allocation.
    pub alignment: u64,
    /// Bit `i` is set when memory type `i` may back this buffer.
    pub type_mask: u64,
}

/// The one property of an adapter memory type that the planner reads.
#[derive(Clone, Copy, Debug, PartialEq, Eq, Structural)]
pub struct MemoryType {
    /// Whether the CPU can map memory of this type.
    pub cpu_visible: bool,
}

/// Memory type `id` can back a buffer with the given type mask and can be
/// mapped for CPU uploads.
pub open spec fn spec_memory_type_supports(type_mask: u64, id: int, cpu_visible: bool) -> bool {
    &&& 0 <= id < 64
    &&& type_mask & (1u64 << (id as u64)) != 0
    &&& cpu_visible
}

/// Index of the first memory type that is both compatible with `type_mask`
/// and CPU-visible, or `None` when no type qualifies.
pub fn find_memory_type(type_mask: u64, memory_types: &Vec<MemoryType>) -> (r: Option<usize>)
    ensures
        match r {
            Some(id) => {
                &&& id < memory_types@.len()
                &&& spec_memory_type_supports(type_mask, id as int, memory_types@[id as int].cpu_visible)
                &&& forall|j: int| 0 <= j < id
                    ==> !spec_memory_type_supports(type_mask, j, memory_types@[j].cpu_visible)
            },
            None => forall|j: int| 0 <= j < memory_types@.len()
                ==> !spec_memory_type_supports(type_mask, j, memory_types@[j].cpu_visible),
        },
{
    let mut id: usize = 0;
    while id < memory_types.len()
        invariant
            id <= memory_types@.len(),
            forall|j: int| 0 <= j < id
                ==> !spec_memory_type_supports(type_mask, j, memory_types@[j].cpu_visible),
        decreases memory_types@.len() - id,
    {
        if id < 64 && (type_mask & (1u64 << (id as u64))) != 0 && memory_types[id].cpu_visible {
            return Some(id);
        }
        id = id + 1;
    }
    None
}

} // verus!
