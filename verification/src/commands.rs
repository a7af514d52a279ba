//! Command encoders and the allocator that keeps track of them.
//!
//! The allocator keeps one command pool for each queue family and the list
//! of command buffers that were taken from it and not given back. The driver
//! creates the pools and the buffers; the allocator decides when a pool is
//! needed and holds the books.

use vstd::prelude::*;
use crate::queue::{Queue, QueueFamily};
use crate::texture::{
    flat, spec_blit, spec_layout_transition, ImageBarrier, ImageBlit, ImageLayout, Texture,
};

verus! {

#[derive(Clone, Copy, Debug, PartialEq, Eq, Structural)]
pub enum CommandError {
    /// Recording was begun on an encoder that is recording.
    AlreadyRecording,
    /// Recording was ended on an encoder that is not recording.
    NotRecording,
    /// The allocator has no pool for the encoder's queue family.
    PoolNotFound,
    /// The allocator does not hold the encoder's command buffer.
    BufferNotTracked,
    /// The driver refused; the code is the driver's.
    Driver(i32),
}

/// One command buffer, the queue it is meant for, and whether it is being
/// recorded.
#[derive(Debug)]
pub struct CommandEncoder {
    command_buffer: u64,
    queue: Queue,
    is_recording: bool,
}

impl CommandEncoder {
    pub closed spec fn spec_command_buffer(&self) -> u64 {
        self.command_buffer
    }

    pub closed spec fn spec_queue(&self) -> Queue {
        self.queue
    }

    pub closed spec fn spec_is_recording(&self) -> bool {
        self.is_recording
    }

    pub fn command_buffer(&self) -> (r: u64)
        ensures
            r == self.spec_command_buffer(),
    {
        self.command_buffer
    }

    pub fn queue(&self) -> (r: Queue)
        ensures
            r == self.spec_queue(),
    {
        self.queue
    }

    /// An encoder for `command_buffer` that is not recording.
    pub fn new(command_buffer: u64, queue: Queue) -> (r: CommandEncoder)
        ensures
            r.spec_command_buffer() == command_buffer,
            r.spec_queue() == queue,
            !r.spec_is_recording(),
    {
        CommandEncoder { command_buffer, queue, is_recording: false }
    }

    pub fn is_recording(&self) -> (r: bool)
        ensures
            r == self.spec_is_recording(),
    {
        self.is_recording
    }

    /// Takes note of the driver's answer to the request to begin recording
    /// into the command buffer, which follows a successful
    /// `begin_recording`. Where the driver refused, the encoder is idle
    /// again and the refusal is handed on.
    pub fn begin_answered(&mut self, answer: Result<(), i32>) -> (r: Result<(), CommandError>)
        ensures
            final(self).spec_command_buffer() == old(self).spec_command_buffer(),
            final(self).spec_queue() == old(self).spec_queue(),
            match answer {
                Ok(_) => {
                    &&& r == Ok::<(), CommandError>(())
                    &&& final(self).spec_is_recording() == old(self).spec_is_recording()
                },
                Err(code) => {
                    &&& r == Err::<(), CommandError>(CommandError::Driver(code))
                    &&& !final(self).spec_is_recording()
                },
            },
    {
        match answer {
            Ok(_) => Ok(()),
            Err(code) => {
                self.is_recording = false;
                Err(CommandError::Driver(code))
            },
        }
    }

    /// Takes note of the driver's answer to the request to end recording,
    /// which follows a successful `end_recording`. Where the driver
    /// refused, the encoder is recording still and the refusal is handed
    /// on.
    pub fn end_answered(&mut self, answer: Result<(), i32>) -> (r: Result<(), CommandError>)
        ensures
            final(self).spec_command_buffer() == old(self).spec_command_buffer(),
            final(self).spec_queue() == old(self).spec_queue(),
            match answer {
                Ok(_) => {
                    &&& r == Ok::<(), CommandError>(())
                    &&& final(self).spec_is_recording() == old(self).spec_is_recording()
                },
                Err(code) => {
                    &&& r == Err::<(), CommandError>(CommandError::Driver(code))
                    &&& final(self).spec_is_recording()
                },
            },
    {
        match answer {
            Ok(_) => Ok(()),
            Err(code) => {
                self.is_recording = true;
                Err(CommandError::Driver(code))
            },
        }
    }

    /// Starts recording, unless the encoder is recording already.
    pub fn begin_recording(&mut self) -> (r: Result<(), CommandError>)
        ensures
            final(self).spec_command_buffer() == old(self).spec_command_buffer(),
            final(self).spec_queue() == old(self).spec_queue(),
            final(self).spec_is_recording(),
            match r {
                Ok(_) => !old(self).spec_is_recording(),
                Err(e) => e == CommandError::AlreadyRecording && old(self).spec_is_recording(),
            },
    {
        if self.is_recording {
            return Err(CommandError::AlreadyRecording);
        }
        self.is_recording = true;
        Ok(())
    }

    /// The barrier to record for a change of layout of `image`; none where
    /// the layout stays. The encoder has to be recording.
    pub fn transition_image_layout(
        &self,
        image: &Texture,
        old_layout: ImageLayout,
        new_layout: ImageLayout,
    ) -> (r: Option<ImageBarrier>)
        requires
            self.spec_is_recording(),
        ensures
            r == spec_layout_transition(image.image, image.aspect, old_layout, new_layout),
    {
        image.transition_layout(old_layout, new_layout)
    }

    /// The blit to record for a copy of all of `src_image` onto all of
    /// `dst_image`. The encoder has to be recording.
    pub fn copy_image_to_image(&self, src_image: &Texture, dst_image: &Texture) -> (r: ImageBlit)
        requires
            self.spec_is_recording(),
        ensures
            r == spec_blit(
                src_image.image,
                flat(src_image.extent),
                dst_image.image,
                flat(dst_image.extent),
            ),
    {
        src_image.copy_to(dst_image)
    }

    /// Stops recording, unless the encoder is not recording.
    pub fn end_recording(&mut self) -> (r: Result<(), CommandError>)
        ensures
            final(self).spec_command_buffer() == old(self).spec_command_buffer(),
            final(self).spec_queue() == old(self).spec_queue(),
            !final(self).spec_is_recording(),
            match r {
                Ok(_) => old(self).spec_is_recording(),
                Err(e) => e == CommandError::NotRecording && !old(self).spec_is_recording(),
            },
    {
        if !self.is_recording {
            return Err(CommandError::NotRecording);
        }
        self.is_recording = false;
        Ok(())
    }
}

/// What the driver is to do next so that an encoder can be allocated.
#[derive(Clone, Copy, Debug, PartialEq, Eq, Structural)]
pub enum AllocationStep {
    /// Create the pool of the family. Its command buffers can be reset one
    /// by one.
    CreatePool { family_index: u32, reset_command_buffer: bool },
    /// Allocate command buffers of the primary level from the pool.
    AllocateBuffers { pool: u64, count: u32, primary: bool },
}

/// What the allocator holds for one queue family.
pub struct PoolView {
    /// The command pool of the family.
    pub pool: u64,
    /// The command buffers taken from the pool and not given back.
    pub outstanding: Seq<u64>,
}

/// What is to be destroyed for one queue family at teardown.
#[derive(Debug)]
pub struct PoolTeardown {
    pub family: QueueFamily,
    pub pool: u64,
    /// The command buffers to free before the pool is destroyed.
    pub command_buffers: Vec<u64>,
}

#[derive(Debug)]
struct PoolEntry {
    family: QueueFamily,
    pool: u64,
    outstanding: Vec<u64>,
}

/// `i` is the first place of `buffer` in `outstanding`.
pub open spec fn is_first_index(outstanding: Seq<u64>, buffer: u64, i: int) -> bool {
    &&& 0 <= i < outstanding.len()
    &&& outstanding[i] == buffer
    &&& forall|j: int| 0 <= j < i ==> outstanding[j] != buffer
}

/// The list after the entry at `i` left it: the last entry takes its place.
pub open spec fn swap_removed(outstanding: Seq<u64>, i: int) -> Seq<u64> {
    outstanding.update(i, outstanding.last()).drop_last()
}

/// A buffer that is tracked and then given back leaves as many buffers
/// outstanding as there were before.
pub proof fn lemma_track_then_untrack(outstanding: Seq<u64>, buffer: u64, i: int)
    requires
        is_first_index(outstanding.push(buffer), buffer, i),
    ensures
        swap_removed(outstanding.push(buffer), i).len() == outstanding.len(),
        !outstanding.contains(buffer) ==> swap_removed(outstanding.push(buffer), i) == outstanding,
{
}

/// The command pools, one for each queue family that asked for an encoder,
/// and the command buffers outstanding from each.
#[derive(Debug)]
pub struct CommandEncoderAllocator {
    entries: Vec<PoolEntry>,
}

impl View for CommandEncoderAllocator {
    type V = Map<QueueFamily, PoolView>;

    closed spec fn view(&self) -> Map<QueueFamily, PoolView> {
        entries_view(self.entries@)
    }
}

spec fn has_entry(entries: Seq<PoolEntry>, family: QueueFamily) -> bool {
    exists|i: int| 0 <= i < entries.len() && (#[trigger] entries[i]).family == family
}

spec fn entry_of(entries: Seq<PoolEntry>, family: QueueFamily) -> int {
    choose|i: int| 0 <= i < entries.len() && (#[trigger] entries[i]).family == family
}

spec fn entries_view(entries: Seq<PoolEntry>) -> Map<QueueFamily, PoolView> {
    Map::new(
        |family: QueueFamily| has_entry(entries, family),
        |family: QueueFamily|
            PoolView {
                pool: entries[entry_of(entries, family)].pool,
                outstanding: entries[entry_of(entries, family)].outstanding@,
            },
    )
}

spec fn distinct_families(entries: Seq<PoolEntry>) -> bool {
    forall|i: int, j: int|
        0 <= i < j < entries.len() ==> (#[trigger] entries[i]).family != (
        #[trigger] entries[j]).family
}

proof fn lemma_outstanding_changed(before: Seq<PoolEntry>, after: Seq<PoolEntry>, i: int)
    requires
        distinct_families(before),
        0 <= i < before.len(),
        after.len() == before.len(),
        forall|k: int| 0 <= k < before.len() && k != i ==> after[k] == before[k],
        after[i].family == before[i].family,
        after[i].pool == before[i].pool,
    ensures
        distinct_families(after),
        entries_view(after) == entries_view(before).insert(
            before[i].family,
            PoolView { pool: before[i].pool, outstanding: after[i].outstanding@ },
        ),
{
}

impl CommandEncoderAllocator {
    /// No pool is held for two families at once under one name.
    pub closed spec fn wf(&self) -> bool {
        distinct_families(self.entries@)
    }

    /// The number of pools.
    pub closed spec fn spec_pool_count(&self) -> nat {
        self.entries@.len()
    }

    /// An allocator without pools.
    pub fn new() -> (r: CommandEncoderAllocator)
        ensures
            r.wf(),
            r@ == Map::<QueueFamily, PoolView>::empty(),
            r.spec_pool_count() == 0,
    {
        let r = CommandEncoderAllocator { entries: Vec::new() };
        r
    }

    fn find(&self, family: &QueueFamily) -> (r: Option<usize>)
        requires
            self.wf(),
        ensures
            match r {
                Some(i) => {
                    &&& i < self.entries@.len()
                    &&& self.entries@[i as int].family == *family
                    &&& has_entry(self.entries@, *family)
                    &&& entry_of(self.entries@, *family) == i
                },
                None => !has_entry(self.entries@, *family),
            },
    {
        let mut i: usize = 0;
        while i < self.entries.len()
            invariant
                self.wf(),
                i <= self.entries@.len(),
                forall|j: int| 0 <= j < i ==> (#[trigger] self.entries@[j]).family != *family,
            decreases self.entries.len() - i,
        {
            if self.entries[i].family == *family {
                return Some(i);
            }
            i = i + 1;
        }
        None
    }

    /// The number of pools.
    pub fn pool_count(&self) -> (r: usize)
        ensures
            r == self.spec_pool_count(),
    {
        self.entries.len()
    }

    /// The pool of `family`, if one was made.
    pub fn command_pool(&self, family: &QueueFamily) -> (r: Option<u64>)
        requires
            self.wf(),
        ensures
            match r {
                Some(pool) => self@.dom().contains(*family) && pool == self@[*family].pool,
                None => !self@.dom().contains(*family),
            },
    {
        match self.find(family) {
            Some(i) => Some(self.entries[i].pool),
            None => None,
        }
    }

    /// What the driver is to do next for an encoder of `family`: create
    /// the pool where the family has none, else allocate one primary
    /// command buffer from its pool.
    pub fn next_step(&self, family: &QueueFamily) -> (r: AllocationStep)
        requires
            self.wf(),
        ensures
            r == if self@.dom().contains(*family) {
                AllocationStep::AllocateBuffers {
                    pool: self@[*family].pool,
                    count: 1,
                    primary: true,
                }
            } else {
                AllocationStep::CreatePool { family_index: family.index, reset_command_buffer: true }
            },
    {
        match self.find(family) {
            Some(i) => AllocationStep::AllocateBuffers {
                pool: self.entries[i].pool,
                count: 1,
                primary: true,
            },
            None => AllocationStep::CreatePool {
                family_index: family.index,
                reset_command_buffer: true,
            },
        }
    }

    /// The number of command buffers outstanding for `family`; none where
    /// the family has no pool.
    pub fn outstanding_count(&self, family: &QueueFamily) -> (r: usize)
        requires
            self.wf(),
        ensures
            r == if self@.dom().contains(*family) {
                self@[*family].outstanding.len()
            } else {
                0
            },
    {
        match self.find(family) {
            Some(i) => self.entries[i].outstanding.len(),
            None => 0,
        }
    }

    /// Takes note of the pool that the driver made for `family` and returns
    /// the pool to use. A family that has a pool keeps it: then nothing
    /// changes and the pool it has is returned.
    pub fn pool_created(&mut self, family: QueueFamily, pool: u64) -> (r: u64)
        requires
            old(self).wf(),
        ensures
            final(self).wf(),
            if old(self)@.dom().contains(family) {
                &&& final(self)@ == old(self)@
                &&& final(self).spec_pool_count() == old(self).spec_pool_count()
                &&& r == old(self)@[family].pool
            } else {
                &&& final(self)@ == old(self)@.insert(
                    family,
                    PoolView { pool, outstanding: Seq::empty() },
                )
                &&& final(self).spec_pool_count() == old(self).spec_pool_count() + 1
                &&& r == pool
            },
    {
        match self.find(&family) {
            Some(i) => self.entries[i].pool,
            None => {
                let ghost before = self.entries@;
                self.entries.push(PoolEntry { family, pool, outstanding: Vec::new() });
                proof {
                    let after = self.entries@;
                    let last = after.len() - 1;
                    let target = entries_view(before).insert(
                        family,
                        PoolView { pool, outstanding: Seq::empty() },
                    );
                    assert forall|f: QueueFamily| #[trigger]
                        entries_view(after).dom().contains(f) == target.dom().contains(f) by {
                        if has_entry(before, f) {
                            let k = entry_of(before, f);
                            assert(after[k].family == f);
                        }
                        if f == family {
                            assert(after[last].family == f);
                        }
                    }
                }
                pool
            },
        }
    }

    /// Takes note of `command_buffer`, which the driver allocated from the
    /// pool of the queue's family, and wraps it in an encoder that is not
    /// recording. Refused where the family has no pool.
    pub fn allocate(&mut self, queue: Queue, command_buffer: u64) -> (r: Result<
        CommandEncoder,
        CommandError,
    >)
        requires
            old(self).wf(),
        ensures
            final(self).wf(),
            final(self).spec_pool_count() == old(self).spec_pool_count(),
            match r {
                Ok(encoder) => {
                    &&& old(self)@.dom().contains(queue.family)
                    &&& encoder.spec_command_buffer() == command_buffer
                    &&& encoder.spec_queue() == queue
                    &&& !encoder.spec_is_recording()
                    &&& final(self)@ == old(self)@.insert(
                        queue.family,
                        PoolView {
                            pool: old(self)@[queue.family].pool,
                            outstanding: old(self)@[queue.family].outstanding.push(command_buffer),
                        },
                    )
                },
                Err(e) => {
                    &&& e == CommandError::PoolNotFound
                    &&& !old(self)@.dom().contains(queue.family)
                    &&& final(self)@ == old(self)@
                },
            },
    {
        let i = match self.find(&queue.family) {
            Some(i) => i,
            None => {
                return Err(CommandError::PoolNotFound);
            },
        };
        let ghost before = self.entries@;
        let mut entry = self.entries.remove(i);
        entry.outstanding.push(command_buffer);
        self.entries.insert(i, entry);
        proof {
            lemma_outstanding_changed(before, self.entries@, i as int);
        }
        Ok(CommandEncoder::new(command_buffer, queue))
    }

    /// Strikes the encoder's command buffer from the books of its queue
    /// family; the last buffer of the list takes its place. Refused where
    /// the family has no pool or the buffer is not in its list.
    pub fn deallocate(&mut self, encoder: &CommandEncoder) -> (r: Result<(), CommandError>)
        requires
            old(self).wf(),
        ensures
            final(self).wf(),
            final(self).spec_pool_count() == old(self).spec_pool_count(),
            match r {
                Ok(_) => {
                    &&& old(self)@.dom().contains(encoder.spec_queue().family)
                    &&& exists|i: int|
                        {
                            &&& is_first_index(
                                old(self)@[encoder.spec_queue().family].outstanding,
                                encoder.spec_command_buffer(),
                                i,
                            )
                            &&& final(self)@ == old(self)@.insert(
                                encoder.spec_queue().family,
                                PoolView {
                                    pool: old(self)@[encoder.spec_queue().family].pool,
                                    outstanding: swap_removed(
                                        old(self)@[encoder.spec_queue().family].outstanding,
                                        i,
                                    ),
                                },
                            )
                        }
                },
                Err(e) => {
                    &&& final(self)@ == old(self)@
                    &&& e == if !old(self)@.dom().contains(encoder.spec_queue().family) {
                        CommandError::PoolNotFound
                    } else {
                        CommandError::BufferNotTracked
                    }
                    &&& !old(self)@.dom().contains(encoder.spec_queue().family) || !old(
                        self,
                    )@[encoder.spec_queue().family].outstanding.contains(
                        encoder.spec_command_buffer(),
                    )
                },
            },
    {
        let family = encoder.queue.family;
        let buffer = encoder.command_buffer;
        let i = match self.find(&family) {
            Some(i) => i,
            None => {
                return Err(CommandError::PoolNotFound);
            },
        };
        let mut at: usize = 0;
        let count = self.entries[i].outstanding.len();
        while at < count && self.entries[i].outstanding[at] != buffer
            invariant
                i < self.entries@.len(),
                count == self.entries@[i as int].outstanding@.len(),
                at <= count,
                forall|j: int| 0 <= j < at ==> self.entries@[i as int].outstanding@[j] != buffer,
            decreases count - at,
        {
            at = at + 1;
        }
        if at == count {
            return Err(CommandError::BufferNotTracked);
        }
        let ghost before = self.entries@;
        assert(is_first_index(before[i as int].outstanding@, buffer, at as int));
        let mut entry = self.entries.remove(i);
        entry.outstanding.swap_remove(at);
        self.entries.insert(i, entry);
        proof {
            lemma_outstanding_changed(before, self.entries@, i as int);
            assert(old(self)@[family].outstanding == before[i as int].outstanding@);
            assert(buffer == encoder.spec_command_buffer());
        }
        Ok(())
    }

    /// Empties the allocator and says what is to be destroyed: for each
    /// family its pool, and before that the command buffers still
    /// outstanding from it.
    pub fn teardown(&mut self) -> (r: Vec<PoolTeardown>)
        requires
            old(self).wf(),
        ensures
            final(self).wf(),
            final(self)@ == Map::<QueueFamily, PoolView>::empty(),
            final(self).spec_pool_count() == 0,
            r@.len() == old(self).spec_pool_count(),
            forall|i: int|
                0 <= i < r@.len() ==> {
                    &&& old(self)@.dom().contains((#[trigger] r@[i]).family)
                    &&& r@[i].pool == old(self)@[r@[i].family].pool
                    &&& r@[i].command_buffers@ == old(self)@[r@[i].family].outstanding
                },
            forall|i: int, j: int|
                0 <= i < j < r@.len() ==> (#[trigger] r@[i]).family != (#[trigger] r@[j]).family,
            forall|family: QueueFamily| #[trigger]
                old(self)@.dom().contains(family) ==> exists|i: int|
                    0 <= i < r@.len() && (#[trigger] r@[i]).family == family,
    {
        let ghost before = self.entries@;
        let mut out: Vec<PoolTeardown> = Vec::new();
        while self.entries.len() > 0
            invariant
                distinct_families(before),
                out@.len() + self.entries@.len() == before.len(),
                self.entries@ == before.take(self.entries@.len() as int),
                forall|i: int|
                    0 <= i < out@.len() ==> {
                        &&& (#[trigger] out@[i]).family == before[before.len() - 1 - i].family
                        &&& out@[i].pool == before[before.len() - 1 - i].pool
                        &&& out@[i].command_buffers@ == before[before.len() - 1
                            - i].outstanding@
                    },
            decreases self.entries@.len(),
        {
            match self.entries.pop() {
                Some(entry) => {
                    out.push(
                        PoolTeardown {
                            family: entry.family,
                            pool: entry.pool,
                            command_buffers: entry.outstanding,
                        },
                    );
                },
                None => {},
            }
        }
        proof {
            assert forall|family: QueueFamily| #[trigger]
                old(self)@.dom().contains(family) implies exists|i: int|
                0 <= i < out@.len() && (#[trigger] out@[i]).family == family by {
                let k = entry_of(before, family);
                assert(before[k].family == family);
                assert(out@[before.len() - 1 - k].family == family);
            }
        }
        out
    }
}

} // verus!
