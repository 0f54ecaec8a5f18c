//! A CPU-visible buffer resource: a buffer handle bound to one memory
//! allocation, whose contents are rewritten every frame by mapped uploads.
//!
//! The structure models the bound memory range as plain bytes, so that an
//! upload followed by a read-back is provably byte-identical to the source.

use vstd::prelude::*;
use crate::error::RenderError;
use crate::memory::{MemoryRequirements, MemoryType, find_memory_type, spec_memory_type_supports};
use crate::teardown::{BufferId, TeardownStep};

verus! {

/// The memory range after writing `data` over the front of `contents`:
/// the copied bytes, then the untouched remainder.
pub open spec fn spec_upload(contents: Seq<u8>, data: Seq<u8>) -> Seq<u8> {
    Seq::new(contents.len(), |i: int| if i < data.len() { data[i] } else { contents[i] })
}

/// A buffer handle, its backing allocation, and a byte model of the bound
/// memory range. Handle and memory are always bound together and freed
/// together, never independently.
#[derive(Debug)]
pub struct BufferInfo {
    /// Requirements reported for the buffer handle.
    pub requirements: MemoryRequirements,
    /// Index of the CPU-visible memory type backing the allocation.
    pub memory_type_id: usize,
    /// The bytes of the buffer's logical range, as the GPU would read them back.
    pub contents: Vec<u8>,
    /// Whether the resource pair has been released.
    pub freed: bool,
}

impl BufferInfo {
    /// A live buffer never outgrows the allocation it is bound to.
    pub open spec fn wf(self) -> bool {
        self.contents@.len() <= self.requirements.size
    }

    /// Plans the allocation for a buffer of `byte_length` bytes: selects the
    /// first CPU-visible memory type compatible with `requirements`, and
    /// models the not-yet-written memory range as zeroed.
    ///
    /// Fails with `NoCompatibleMemoryType` exactly when no memory type is
    /// both compatible and CPU-visible.
    pub fn new(
        byte_length: usize,
        requirements: MemoryRequirements,
        memory_types: &Vec<MemoryType>,
    ) -> (r: Result<BufferInfo, RenderError>)
        requires
            byte_length <= requirements.size,
        ensures
            match r {
                Ok(b) => {
                    &&& b.wf()
                    &&& !b.freed
                    &&& b.requirements == requirements
                    &&& b.contents@ == Seq::new(byte_length as nat, |i: int| 0u8)
                    &&& b.memory_type_id < memory_types@.len()
                    &&& spec_memory_type_supports(
                        requirements.type_mask,
                        b.memory_type_id as int,
                        memory_types@[b.memory_type_id as int].cpu_visible,
                    )
                    &&& forall|j: int| 0 <= j < b.memory_type_id
                        ==> !spec_memory_type_supports(
                            requirements.type_mask, j, memory_types@[j].cpu_visible)
                },
                Err(e) => {
                    &&& e == RenderError::NoCompatibleMemoryType
                    &&& forall|j: int| 0 <= j < memory_types@.len()
                        ==> !spec_memory_type_supports(
                            requirements.type_mask, j, memory_types@[j].cpu_visible)
                },
            },
    {
        let memory_type_id = match find_memory_type(requirements.type_mask, memory_types) {
            Some(id) => id,
            None => {
                return Err(RenderError::NoCompatibleMemoryType);
            },
        };
        let mut contents: Vec<u8> = Vec::new();
        let mut i: usize = 0;
        while i < byte_length
            invariant
                i <= byte_length,
                contents@ == Seq::new(i as nat, |k: int| 0u8),
            decreases byte_length - i,
        {
            contents.push(0u8);
            proof {
                assert(contents@ =~= Seq::new((i + 1) as nat, |k: int| 0u8));
            }
            i = i + 1;
        }
        Ok(BufferInfo { requirements, memory_type_id, contents, freed: false })
    }

    /// Maps the memory range, copies `data` byte-for-byte over its front, and
    /// unmaps; prior contents beyond `data` are untouched. May be called every
    /// frame.
    pub fn load_data(&mut self, data: &[u8]) -> (r: Result<(), RenderError>)
        requires
            !old(self).freed,
            data@.len() <= old(self).contents@.len(),
        ensures
            r matches Ok(u) && u == (),
            final(self).contents@ == spec_upload(old(self).contents@, data@),
            final(self).requirements == old(self).requirements,
            final(self).memory_type_id == old(self).memory_type_id,
            final(self).freed == old(self).freed,
    {
        let mut written: Vec<u8> = Vec::new();
        let mut i: usize = 0;
        while i < data.len()
            invariant
                i <= data@.len(),
                written@ == data@.subrange(0, i as int),
            decreases data@.len() - i,
        {
            written.push(data[i]);
            proof {
                assert(written@ =~= data@.subrange(0, (i + 1) as int));
            }
            i = i + 1;
        }
        let mut j: usize = data.len();
        while j < self.contents.len()
            invariant
                data@.len() <= j <= self.contents@.len(),
                written@.len() == j,
                written@.subrange(0, data@.len() as int) == data@,
                forall|k: int| data@.len() <= k < j ==> written@[k] == self.contents@[k],
            decreases self.contents@.len() - j,
        {
            let b = self.contents[j];
            written.push(b);
            proof {
                assert(written@.subrange(0, data@.len() as int)
                    =~= written@.drop_last().subrange(0, data@.len() as int));
            }
            j = j + 1;
        }
        proof {
            assert(written@ =~= spec_upload(self.contents@, data@));
        }
        self.contents = written;
        Ok(())
    }

    /// Releases the pair: destroys the buffer handle, then frees its memory,
    /// in that order. Asking again after release is a no-op with an empty
    /// plan.
    pub fn free(&mut self, id: BufferId) -> (steps: Vec<TeardownStep>)
        ensures
            final(self).freed,
            final(self).requirements == old(self).requirements,
            final(self).memory_type_id == old(self).memory_type_id,
            final(self).contents == old(self).contents,
            steps@ == if old(self).freed {
                Seq::<TeardownStep>::empty()
            } else {
                seq![TeardownStep::DestroyBuffer { id }, TeardownStep::FreeMemory { id }]
            },
    {
        let mut steps: Vec<TeardownStep> = Vec::new();
        if !self.freed {
            self.freed = true;
            steps.push(TeardownStep::DestroyBuffer { id });
            steps.push(TeardownStep::FreeMemory { id });
            proof {
                assert(steps@ =~= seq![
                    TeardownStep::DestroyBuffer { id },
                    TeardownStep::FreeMemory { id },
                ]);
            }
        }
        steps
    }
}

/// An upload followed by an immediate read-back yields contents byte-identical
/// to the source data, whatever the buffer held before.
pub proof fn lemma_upload_read_back(contents: Seq<u8>, data: Seq<u8>)
    requires
        data.len() <= contents.len(),
    ensures
        spec_upload(contents, data).len() == contents.len(),
        spec_upload(contents, data).subrange(0, data.len() as int) == data,
{
    assert(spec_upload(contents, data).subrange(0, data.len() as int) =~= data);
}

} // verus!
