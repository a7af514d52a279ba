//! Sub-allocation of byte ranges out of one large, fixed-capacity buffer.
//!
//! A [`Megabuffer`] keeps the list of byte ranges that are not handed out.
//! The list is sorted by offset, and two neighbouring ranges never touch:
//! whenever a release makes two free ranges adjacent they become one.

use vstd::prelude::*;
use crate::align::{align_up, aligned_size, is_power_of_two};

verus! {

/// Why an operation on a megabuffer or on one of its regions was refused.
#[derive(Clone, Copy, Debug, PartialEq, Eq, Structural)]
pub enum MegabufferError {
    /// No free range is large enough for the rounded request.
    OutOfSpace,
    /// The region was already released.
    DoubleFree,
    /// The rounded size does not fit in 64 bits.
    SizeOverflow,
    /// The data is larger than the region it is written to.
    DataTooLarge,
    /// The requested part is larger than the region it is carved from.
    SubregionTooLarge,
    /// The requested part is empty.
    SubregionEmpty,
    /// The requested part is the whole region.
    SubregionIsParent,
    /// The two regions come from different megabuffers.
    DifferentMegabuffer,
    /// The two regions do not touch.
    NotAdjacent,
}

/// A byte range that is not handed out.
#[derive(Clone, Copy, Debug, PartialEq, Eq, Structural)]
pub struct FreeMegabufferRegion {
    pub offset: u64,
    pub size: u64,
}

impl FreeMegabufferRegion {
    /// The first byte after the range.
    pub open spec fn end(self) -> int {
        self.offset + self.size
    }
}

/// The free list is inside `capacity`, sorted by offset, and any two of its
/// ranges are separated by at least one byte. Only a buffer without bytes
/// has a free range without bytes.
pub open spec fn free_list_wf(free: Seq<FreeMegabufferRegion>, capacity: int) -> bool {
    &&& forall|i: int| 0 <= i < free.len() ==> (#[trigger] free[i]).end() <= capacity
    &&& forall|i: int| 0 <= i < free.len() ==> (#[trigger] free[i]).size > 0 || capacity == 0
    &&& forall|i: int, j: int|
        0 <= i < j < free.len() ==> (#[trigger] free[i]).end() < (#[trigger] free[j]).offset
}

/// `i` is the first range of `free` that holds `need` bytes.
pub open spec fn is_first_fit(free: Seq<FreeMegabufferRegion>, need: int, i: int) -> bool {
    &&& 0 <= i < free.len()
    &&& free[i].size >= need
    &&& forall|j: int| 0 <= j < i ==> (#[trigger] free[j]).size < need
}

/// No range of `free` holds `need` bytes.
pub open spec fn no_fit(free: Seq<FreeMegabufferRegion>, need: int) -> bool {
    forall|j: int| 0 <= j < free.len() ==> (#[trigger] free[j]).size < need
}

/// The free list after `need` bytes were taken from the low end of range `i`:
/// an exact fit removes the range, otherwise the range shrinks in place.
pub open spec fn take_low(free: Seq<FreeMegabufferRegion>, i: int, need: int)
    -> Seq<FreeMegabufferRegion> {
    if free[i].size == need {
        free.remove(i)
    } else {
        free.update(
            i,
            FreeMegabufferRegion {
                offset: (free[i].offset + need) as u64,
                size: (free[i].size - need) as u64,
            },
        )
    }
}

/// Position `p` splits `free` around the bytes `[offset, offset + size)`:
/// every range before `p` ends at or before `offset`, every range from `p` on
/// starts at or after `offset + size`.
pub open spec fn is_gap(free: Seq<FreeMegabufferRegion>, p: int, offset: int, size: int) -> bool {
    &&& 0 <= p <= free.len()
    &&& forall|i: int| 0 <= i < p ==> (#[trigger] free[i]).end() <= offset
    &&& forall|i: int| p <= i < free.len() ==> (#[trigger] free[i]).offset >= offset + size
}

/// The range before position `p` ends exactly at `offset`.
pub open spec fn touches_left(free: Seq<FreeMegabufferRegion>, p: int, offset: int) -> bool {
    p > 0 && free[p - 1].end() == offset
}

/// The range at position `p` starts exactly at `end`.
pub open spec fn touches_right(free: Seq<FreeMegabufferRegion>, p: int, end: int) -> bool {
    p < free.len() && free[p].offset == end
}

/// The free list after the bytes `[offset, offset + size)` came back at
/// position `p`: they join the neighbour on either side that they touch, and
/// become a range of their own when they touch none.
pub open spec fn give_back(free: Seq<FreeMegabufferRegion>, p: int, offset: u64, size: u64) -> Seq<
    FreeMegabufferRegion,
> {
    let left = touches_left(free, p, offset as int);
    let right = touches_right(free, p, offset + size);
    if left && right {
        free.update(
            p - 1,
            FreeMegabufferRegion {
                offset: free[p - 1].offset,
                size: (free[p - 1].size + size + free[p].size) as u64,
            },
        ).remove(p)
    } else if left {
        free.update(
            p - 1,
            FreeMegabufferRegion {
                offset: free[p - 1].offset,
                size: (free[p - 1].size + size) as u64,
            },
        )
    } else if right {
        free.update(p, FreeMegabufferRegion { offset, size: (size + free[p].size) as u64 })
    } else {
        free.insert(p, FreeMegabufferRegion { offset, size })
    }
}

/// Giving bytes back at their gap keeps the free list well formed.
pub proof fn lemma_give_back_wf(
    free: Seq<FreeMegabufferRegion>,
    p: int,
    offset: u64,
    size: u64,
    capacity: int,
)
    requires
        free_list_wf(free, capacity),
        is_gap(free, p, offset as int, size as int),
        size > 0,
        offset + size <= capacity,
        capacity <= u64::MAX,
    ensures
        free_list_wf(give_back(free, p, offset, size), capacity),
{
}

/// Bytes given back between two free ranges that both touch them make the
/// three one range: it starts where the lower range started and has the size
/// of all three, and the list is one range shorter.
pub proof fn lemma_give_back_joins_both_neighbours(
    free: Seq<FreeMegabufferRegion>,
    p: int,
    offset: u64,
    size: u64,
)
    requires
        0 < p < free.len(),
        touches_left(free, p, offset as int),
        touches_right(free, p, offset + size),
    ensures
        give_back(free, p, offset, size).len() == free.len() - 1,
        give_back(free, p, offset, size)[p - 1] == (FreeMegabufferRegion {
            offset: free[p - 1].offset,
            size: (free[p - 1].size + size + free[p].size) as u64,
        }),
        forall|i: int| 0 <= i < p - 1 ==> give_back(free, p, offset, size)[i] == free[i],
        forall|i: int|
            p <= i < free.len() - 1 ==> give_back(free, p, offset, size)[i] == free[i + 1],
{
}

/// At most one position splits the free list around bytes that are not
/// free.
pub proof fn lemma_gap_is_unique(
    free: Seq<FreeMegabufferRegion>,
    p: int,
    q: int,
    offset: int,
    size: int,
)
    requires
        is_gap(free, p, offset, size),
        is_gap(free, q, offset, size),
        size > 0,
    ensures
        p == q,
{
    if p < q {
        assert(free[p].end() <= offset);
    } else if q < p {
        assert(free[q].end() <= offset);
    }
}

/// Bytes taken from the low end of a free range and then given back leave
/// the free list as it was.
pub proof fn lemma_take_then_give_back(
    free: Seq<FreeMegabufferRegion>,
    i: int,
    need: u64,
    capacity: int,
)
    requires
        free_list_wf(free, capacity),
        capacity <= u64::MAX,
        0 <= i < free.len(),
        0 < need <= free[i].size,
    ensures
        is_gap(take_low(free, i, need as int), i, free[i].offset as int, need as int),
        give_back(take_low(free, i, need as int), i, free[i].offset, need) == free,
{
}

/// Bytes that share nothing with the free list nor with the bytes given
/// back share nothing with the free list afterwards.
pub proof fn lemma_give_back_keeps_apart(
    free: Seq<FreeMegabufferRegion>,
    p: int,
    offset: u64,
    size: u64,
    low: int,
    high: int,
)
    requires
        is_gap(free, p, offset as int, size as int),
        offset + size <= u64::MAX,
        forall|i: int| 0 <= i < free.len() ==> (#[trigger] free[i]).end() <= u64::MAX,
        low < high,
        high <= offset || offset + size <= low,
        forall|i: int|
            0 <= i < free.len() ==> (#[trigger] free[i]).end() <= low || high <= free[i].offset,
    ensures
        forall|a: int|
            0 <= a < give_back(free, p, offset, size).len() ==> (#[trigger] give_back(
                free,
                p,
                offset,
                size,
            )[a]).end() <= low || high <= give_back(free, p, offset, size)[a].offset,
{
}

/// The list after one pass from the left in which every range that starts
/// exactly where the range before it ends is joined to that range.
pub open spec fn coalesce(regions: Seq<FreeMegabufferRegion>) -> Seq<FreeMegabufferRegion>
    decreases regions.len(),
{
    if regions.len() == 0 {
        regions
    } else {
        let done = coalesce(regions.drop_last());
        let next = regions.last();
        if done.len() > 0 && done.last().end() == next.offset {
            done.drop_last().push(
                FreeMegabufferRegion {
                    offset: done.last().offset,
                    size: (done.last().size + next.size) as u64,
                },
            )
        } else {
            done.push(next)
        }
    }
}

/// A pass over a well-formed free list finds nothing to join.
pub proof fn lemma_coalesce_of_well_formed(free: Seq<FreeMegabufferRegion>, capacity: int)
    requires
        free_list_wf(free, capacity),
    ensures
        coalesce(free) == free,
    decreases free.len(),
{
    if free.len() > 0 {
        let front = free.drop_last();
        lemma_coalesce_of_well_formed(front, capacity);
    }
}

/// Joins every range of `regions` that starts exactly where the range before
/// it ends to that range.
pub fn coalesce_regions(regions: &Vec<FreeMegabufferRegion>) -> (r: Vec<FreeMegabufferRegion>)
    requires
        forall|i: int| 0 <= i < regions@.len() ==> (#[trigger] regions@[i]).end() <= u64::MAX,
    ensures
        r@ == coalesce(regions@),
{
    let mut out: Vec<FreeMegabufferRegion> = Vec::new();
    let mut i: usize = 0;
    while i < regions.len()
        invariant
            i <= regions.len(),
            out@ == coalesce(regions@.take(i as int)),
            forall|k: int| 0 <= k < regions@.len() ==> (#[trigger] regions@[k]).end() <= u64::MAX,
            out@.len() > 0 ==> i > 0 && out@.last().end() == regions@[i - 1].end(),
        decreases regions.len() - i,
    {
        let next = regions[i];
        let ghost prefix = regions@.take(i as int + 1);
        assert(prefix.drop_last() =~= regions@.take(i as int));
        let n = out.len();
        if n > 0 && out[n - 1].offset + out[n - 1].size == next.offset {
            let last = out[n - 1];
            out[n - 1] = FreeMegabufferRegion { offset: last.offset, size: last.size + next.size };
        } else {
            out.push(next);
        }
        i = i + 1;
    }
    assert(regions@.take(i as int) =~= regions@);
    out
}

/// One copy from the staging buffer to the device buffer.
#[derive(Clone, Copy, Debug, PartialEq, Eq, Structural)]
pub struct BufferCopy {
    pub src_offset: u64,
    pub dst_offset: u64,
    pub size: u64,
}

/// The copy that carries `size` bytes at `offset` of the staging buffer to
/// the same place of the device buffer.
pub open spec fn copy_in_place(offset: u64, size: u64) -> BufferCopy {
    BufferCopy { src_offset: offset, dst_offset: offset, size }
}

/// A byte range handed out by a megabuffer. A size of zero marks a region
/// that was released.
#[derive(Debug)]
pub struct AllocatedMegabufferRegion {
    offset: u64,
    size: u64,
    alignment: u64,
    parent: usize,
}

impl AllocatedMegabufferRegion {
    pub closed spec fn spec_offset(&self) -> u64 {
        self.offset
    }

    pub closed spec fn spec_size(&self) -> u64 {
        self.size
    }

    /// The alignment of the megabuffer that handed the region out.
    pub closed spec fn spec_alignment(&self) -> u64 {
        self.alignment
    }

    /// The identity of the megabuffer that handed the region out.
    pub closed spec fn spec_parent(&self) -> usize {
        self.parent
    }

    /// The first byte after the region.
    pub open spec fn end(&self) -> int {
        self.spec_offset() + self.spec_size()
    }

    /// The region ends inside the 64-bit range and its alignment is a power
    /// of two.
    pub open spec fn wf(&self) -> bool {
        &&& self.end() <= u64::MAX
        &&& is_power_of_two(self.spec_alignment())
    }

    /// The region shares no byte with `free`.
    pub open spec fn apart_from(&self, free: FreeMegabufferRegion) -> bool {
        free.end() <= self.spec_offset() || self.end() <= free.offset
    }

    pub fn offset(&self) -> (r: u64)
        ensures
            r == self.spec_offset(),
    {
        self.offset
    }

    pub fn size(&self) -> (r: u64)
        ensures
            r == self.spec_size(),
    {
        self.size
    }

    /// Where in the staging buffer `data_len` bytes written to this region
    /// go: at the region's offset, unless they do not fit.
    pub fn write(&self, data_len: u64) -> (r: Result<u64, MegabufferError>)
        ensures
            match r {
                Ok(at) => data_len <= self.spec_size() && at == self.spec_offset(),
                Err(e) => e == MegabufferError::DataTooLarge && data_len > self.spec_size(),
            },
    {
        if data_len > self.size {
            return Err(MegabufferError::DataTooLarge);
        }
        Ok(self.offset)
    }

    /// Carves the high end off this region as a region of its own. The part
    /// has `size` rounded up to the alignment; it can neither be empty nor be
    /// the whole region.
    pub fn suballocate_region(&mut self, size: u64) -> (r: Result<
        AllocatedMegabufferRegion,
        MegabufferError,
    >)
        requires
            old(self).wf(),
        ensures
            final(self).spec_offset() == old(self).spec_offset(),
            final(self).spec_alignment() == old(self).spec_alignment(),
            final(self).spec_parent() == old(self).spec_parent(),
            final(self).wf(),
            forall|megabuffer: Megabuffer| #[trigger]
                megabuffer.holds(old(self)) ==> megabuffer.holds(final(self)) && (r matches Ok(
                    part,
                ) ==> megabuffer.holds(&part)),
            ({
                let need = aligned_size(size as int, old(self).spec_alignment() as int);
                match r {
                    Ok(part) => {
                        &&& 0 < need < old(self).spec_size()
                        &&& part.spec_size() == need
                        &&& part.spec_offset() == old(self).spec_offset() + old(self).spec_size()
                            - need
                        &&& part.spec_alignment() == old(self).spec_alignment()
                        &&& part.spec_parent() == old(self).spec_parent()
                        &&& part.wf()
                        &&& final(self).spec_size() == old(self).spec_size() - need
                    },
                    Err(e) => {
                        &&& final(self).spec_size() == old(self).spec_size()
                        &&& e == if need > old(self).spec_size() {
                            MegabufferError::SubregionTooLarge
                        } else if need == 0 {
                            MegabufferError::SubregionEmpty
                        } else {
                            MegabufferError::SubregionIsParent
                        }
                        &&& need > old(self).spec_size() || need == 0 || need == old(self).spec_size()
                    },
                }
            }),
    {
        let need = match align_up(size, self.alignment) {
            Some(v) => v,
            None => {
                return Err(MegabufferError::SubregionTooLarge);
            },
        };
        if need > self.size {
            return Err(MegabufferError::SubregionTooLarge);
        }
        if need == 0 {
            return Err(MegabufferError::SubregionEmpty);
        }
        if need == self.size {
            return Err(MegabufferError::SubregionIsParent);
        }
        let part = AllocatedMegabufferRegion {
            offset: self.offset + (self.size - need),
            size: need,
            alignment: self.alignment,
            parent: self.parent,
        };
        self.size = self.size - need;
        Ok(part)
    }

    /// Whether both regions were handed out by the same megabuffer.
    pub fn belongs_to_same_megabuffer(&self, other: &AllocatedMegabufferRegion) -> (r: bool)
        ensures
            r == (self.spec_parent() == other.spec_parent()),
    {
        self.parent == other.parent
    }

    /// Whether this region was handed out by `megabuffer`.
    pub fn belongs_to_megabuffer(&self, megabuffer: &Megabuffer) -> (r: bool)
        ensures
            r == (self.spec_parent() == megabuffer.spec_id()),
    {
        self.parent == megabuffer.id
    }

    /// The lower of the two regions ends exactly where the other starts.
    pub open spec fn touches(&self, other: &AllocatedMegabufferRegion) -> bool {
        if self.spec_offset() < other.spec_offset() {
            self.end() == other.spec_offset()
        } else {
            other.end() == self.spec_offset()
        }
    }

    /// Whether the two regions come from the same megabuffer and the lower
    /// one ends exactly where the other starts.
    pub fn is_adjacent_to(&self, other: &AllocatedMegabufferRegion) -> (r: bool)
        requires
            self.wf(),
            other.wf(),
        ensures
            r == (self.spec_parent() == other.spec_parent() && self.touches(other)),
    {
        if !self.belongs_to_same_megabuffer(other) {
            return false;
        }
        if self.offset < other.offset {
            self.offset + self.size == other.offset
        } else {
            other.offset + other.size == self.offset
        }
    }

    /// Takes over the bytes of `other`, a region of the same megabuffer that
    /// touches this one. After that this region starts where the lower of
    /// the two started and has the size of both.
    pub fn merge_adjacent_region(&mut self, other: AllocatedMegabufferRegion) -> (r: Result<
        (),
        MegabufferError,
    >)
        requires
            old(self).wf(),
            other.wf(),
        ensures
            final(self).spec_alignment() == old(self).spec_alignment(),
            final(self).spec_parent() == old(self).spec_parent(),
            final(self).wf(),
            forall|megabuffer: Megabuffer| #[trigger]
                megabuffer.holds(old(self)) && megabuffer.wf() && (r is Err || megabuffer.holds(
                    &other,
                )) ==> megabuffer.holds(final(self)),
            match r {
                Ok(_) => {
                    &&& old(self).spec_parent() == other.spec_parent()
                    &&& old(self).touches(&other)
                    &&& final(self).spec_offset() == if old(self).spec_offset()
                        < other.spec_offset() {
                        old(self).spec_offset()
                    } else {
                        other.spec_offset()
                    }
                    &&& final(self).spec_size() == old(self).spec_size() + other.spec_size()
                },
                Err(e) => {
                    &&& final(self).spec_offset() == old(self).spec_offset()
                    &&& final(self).spec_size() == old(self).spec_size()
                    &&& e == if old(self).spec_parent() != other.spec_parent() {
                        MegabufferError::DifferentMegabuffer
                    } else {
                        MegabufferError::NotAdjacent
                    }
                    &&& !(old(self).spec_parent() == other.spec_parent() && old(self).touches(
                        &other,
                    ))
                },
            },
    {
        if !self.belongs_to_same_megabuffer(&other) {
            return Err(MegabufferError::DifferentMegabuffer);
        }
        if !self.is_adjacent_to(&other) {
            return Err(MegabufferError::NotAdjacent);
        }
        if self.offset < other.offset {
            self.size = self.size + other.size;
        } else {
            self.size = other.size + self.size;
            self.offset = other.offset;
        }
        Ok(())
    }
}

/// The identity that follows `id`. After the largest one the count starts
/// again at zero.
pub open spec fn following_id(id: usize) -> usize {
    if id == usize::MAX {
        0
    } else {
        (id + 1) as usize
    }
}

/// The identity that is handed out `k` draws after `id` was.
pub open spec fn nth_following_id(id: usize, k: nat) -> usize
    decreases k,
{
    if k == 0 {
        id
    } else {
        following_id(nth_following_id(id, (k - 1) as nat))
    }
}

/// The identity handed out `k` draws after `id` is `id` moved on by `k`,
/// counted round the largest identity.
pub proof fn lemma_nth_following_id(id: usize, k: nat)
    requires
        k <= usize::MAX,
    ensures
        nth_following_id(id, k) == if id + k <= usize::MAX {
            id + k
        } else {
            id + k - usize::MAX - 1
        },
    decreases k,
{
    if k > 0 {
        lemma_nth_following_id(id, (k - 1) as nat);
    }
}

/// Two megabuffers that take their identities from one source differ in
/// them, as long as fewer megabuffers lie between them than there are
/// identities.
pub proof fn lemma_identities_differ(id: usize, k: nat)
    requires
        0 < k <= usize::MAX,
    ensures
        nth_following_id(id, k) != id,
{
    lemma_nth_following_id(id, k);
}

/// The source of the identities of megabuffers. It hands them out one
/// after the other, so that the megabuffers made with one source can be
/// told apart.
#[derive(Debug)]
pub struct MegabufferIds {
    next: usize,
}

impl MegabufferIds {
    /// The identity that the next megabuffer gets.
    pub closed spec fn spec_next(&self) -> usize {
        self.next
    }

    /// A source that starts at zero.
    pub fn new() -> (r: MegabufferIds)
        ensures
            r.spec_next() == 0,
    {
        MegabufferIds { next: 0 }
    }

    /// The identity that the next megabuffer gets.
    pub fn next(&self) -> (r: usize)
        ensures
            r == self.spec_next(),
    {
        self.next
    }

    /// Hands out the next identity.
    pub fn take(&mut self) -> (r: usize)
        ensures
            r == old(self).spec_next(),
            final(self).spec_next() == following_id(old(self).spec_next()),
    {
        let id = self.next;
        self.next = if id == usize::MAX {
            0
        } else {
            id + 1
        };
        id
    }
}

/// The allocator state of one large buffer: its capacity, its alignment and
/// the byte ranges that are free.
#[derive(Debug)]
pub struct Megabuffer {
    free_regions: Vec<FreeMegabufferRegion>,
    pending: Vec<BufferCopy>,
    alignment: u64,
    capacity: u64,
    id: usize,
}

impl Megabuffer {
    /// The free ranges, lowest offset first.
    pub closed spec fn spec_free_regions(&self) -> Seq<FreeMegabufferRegion> {
        self.free_regions@
    }

    /// The writes to the staging buffer that no upload has carried to the
    /// device buffer yet, oldest first.
    pub closed spec fn spec_pending(&self) -> Seq<BufferCopy> {
        self.pending@
    }

    pub closed spec fn spec_alignment(&self) -> u64 {
        self.alignment
    }

    pub closed spec fn spec_capacity(&self) -> u64 {
        self.capacity
    }

    pub closed spec fn spec_id(&self) -> usize {
        self.id
    }

    /// The alignment is a power of two and the free list is well formed.
    pub open spec fn wf(&self) -> bool {
        &&& is_power_of_two(self.spec_alignment())
        &&& free_list_wf(self.spec_free_regions(), self.spec_capacity() as int)
    }

    /// `other` is the same buffer: it has the alignment, the capacity and
    /// the identity of `self`.
    pub open spec fn same_buffer(&self, other: &Megabuffer) -> bool {
        &&& self.spec_alignment() == other.spec_alignment()
        &&& self.spec_capacity() == other.spec_capacity()
        &&& self.spec_id() == other.spec_id()
    }

    /// `region` was handed out by this megabuffer and is still held: it lies
    /// inside the capacity and shares no byte with a free range.
    pub open spec fn holds(&self, region: &AllocatedMegabufferRegion) -> bool {
        &&& region.spec_parent() == self.spec_id()
        &&& region.spec_alignment() == self.spec_alignment()
        &&& region.end() <= self.spec_capacity()
        &&& forall|i: int|
            0 <= i < self.spec_free_regions().len() ==> region.apart_from(
                #[trigger] self.spec_free_regions()[i],
            )
    }

    /// Decides whether `region` was handed out by this megabuffer and is
    /// still held.
    pub fn holds_region(&self, region: &AllocatedMegabufferRegion) -> (r: bool)
        requires
            region.wf(),
        ensures
            r == self.holds(region),
    {
        if region.parent != self.id || region.alignment != self.alignment {
            return false;
        }
        let end = region.offset + region.size;
        if end > self.capacity {
            return false;
        }
        let mut i: usize = 0;
        while i < self.free_regions.len()
            invariant
                i <= self.free_regions@.len(),
                end == region.end(),
                forall|k: int| 0 <= k < i ==> region.apart_from(#[trigger] self.free_regions@[k]),
            decreases self.free_regions.len() - i,
        {
            let free = self.free_regions[i];
            let before = free.offset <= region.offset && free.size <= region.offset - free.offset;
            if !before && end > free.offset {
                assert(!region.apart_from(self.spec_free_regions()[i as int]));
                return false;
            }
            i = i + 1;
        }
        true
    }

    /// A megabuffer of `size` bytes, all of them free. It takes the next
    /// identity of `ids`, which tells it from the other megabuffers made
    /// with `ids`.
    pub fn new(size: u64, alignment: u64, ids: &mut MegabufferIds) -> (r: Megabuffer)
        requires
            is_power_of_two(alignment),
        ensures
            final(ids).spec_next() == following_id(old(ids).spec_next()),
            r.wf(),
            r.spec_free_regions() == seq![FreeMegabufferRegion { offset: 0, size }],
            r.spec_pending() == Seq::<BufferCopy>::empty(),
            r.spec_alignment() == alignment,
            r.spec_capacity() == size,
            r.spec_id() == old(ids).spec_next(),
    {
        let id = ids.take();
        let mut free_regions: Vec<FreeMegabufferRegion> = Vec::new();
        free_regions.push(FreeMegabufferRegion { offset: 0, size });
        Megabuffer { free_regions, pending: Vec::new(), alignment, capacity: size, id }
    }

    pub fn alignment(&self) -> (r: u64)
        ensures
            r == self.spec_alignment(),
    {
        self.alignment
    }

    pub fn capacity(&self) -> (r: u64)
        ensures
            r == self.spec_capacity(),
    {
        self.capacity
    }

    pub fn id(&self) -> (r: usize)
        ensures
            r == self.spec_id(),
    {
        self.id
    }

    /// A copy of the free list, lowest offset first.
    pub fn free_regions(&self) -> (r: Vec<FreeMegabufferRegion>)
        ensures
            r@ == self.spec_free_regions(),
    {
        let mut out: Vec<FreeMegabufferRegion> = Vec::new();
        let mut i: usize = 0;
        while i < self.free_regions.len()
            invariant
                i <= self.free_regions.len(),
                out@ == self.free_regions@.take(i as int),
            decreases self.free_regions.len() - i,
        {
            out.push(self.free_regions[i]);
            i = i + 1;
        }
        out
    }

    /// `size` rounded up to this megabuffer's alignment.
    pub fn aligned_size(&self, size: u64) -> (r: Result<u64, MegabufferError>)
        requires
            self.wf(),
        ensures
            match r {
                Ok(v) => v == aligned_size(size as int, self.spec_alignment() as int),
                Err(e) => e == MegabufferError::SizeOverflow && aligned_size(
                    size as int,
                    self.spec_alignment() as int,
                ) > u64::MAX,
            },
    {
        match align_up(size, self.alignment) {
            Some(v) => Ok(v),
            None => Err(MegabufferError::SizeOverflow),
        }
    }

    /// Hands out the low end of the first free range that holds `size`
    /// rounded up to the alignment. Nothing changes when no range fits.
    pub fn allocate_region(&mut self, size: u64) -> (r: Result<
        AllocatedMegabufferRegion,
        MegabufferError,
    >)
        requires
            old(self).wf(),
        ensures
            final(self).wf(),
            final(self).same_buffer(old(self)),
            final(self).spec_pending() == old(self).spec_pending(),
            forall|other: AllocatedMegabufferRegion|
                old(self).holds(&other) ==> #[trigger] final(self).holds(&other),
            match r {
                Ok(region) => {
                    let need = aligned_size(size as int, old(self).spec_alignment() as int);
                    &&& region.spec_size() == need
                    &&& region.wf()
                    &&& final(self).holds(&region)
                    &&& exists|i: int|
                        {
                            &&& is_first_fit(old(self).spec_free_regions(), need, i)
                            &&& region.spec_offset() == old(self).spec_free_regions()[i].offset
                            &&& final(self).spec_free_regions() == take_low(
                                old(self).spec_free_regions(),
                                i,
                                need,
                            )
                        }
                },
                Err(e) => {
                    &&& e == MegabufferError::OutOfSpace
                    &&& no_fit(
                        old(self).spec_free_regions(),
                        aligned_size(size as int, old(self).spec_alignment() as int),
                    )
                    &&& final(self).spec_free_regions() == old(self).spec_free_regions()
                },
            },
    {
        let need = match align_up(size, self.alignment) {
            Some(v) => v,
            None => {
                return Err(MegabufferError::OutOfSpace);
            },
        };
        let mut i: usize = 0;
        while i < self.free_regions.len() && self.free_regions[i].size < need
            invariant
                i <= self.free_regions.len(),
                forall|j: int| 0 <= j < i ==> (#[trigger] self.free_regions@[j]).size < need,
            decreases self.free_regions.len() - i,
        {
            i = i + 1;
        }
        if i == self.free_regions.len() {
            return Err(MegabufferError::OutOfSpace);
        }
        let found = self.free_regions[i];
        let ghost before = self.free_regions@;
        assert(is_first_fit(before, need as int, i as int));
        if found.size == need {
            self.free_regions.remove(i);
        } else {
            self.free_regions[i] = FreeMegabufferRegion {
                offset: found.offset + need,
                size: found.size - need,
            };
        }
        let region = AllocatedMegabufferRegion {
            offset: found.offset,
            size: need,
            alignment: self.alignment,
            parent: self.id,
        };
        Ok(region)
    }

    /// Takes `region` back. Its bytes join the free neighbour on either side
    /// that they touch, and the region is marked as released. A region that
    /// was already released is refused and nothing changes.
    pub fn deallocate_region(&mut self, region: &mut AllocatedMegabufferRegion) -> (r: Result<
        (),
        MegabufferError,
    >)
        requires
            old(self).wf(),
            old(region).spec_size() > 0 ==> old(self).holds(old(region)),
        ensures
            final(self).wf(),
            final(self).same_buffer(old(self)),
            final(region).spec_offset() == old(region).spec_offset(),
            final(region).spec_alignment() == old(region).spec_alignment(),
            final(region).spec_parent() == old(region).spec_parent(),
            final(region).spec_size() == 0,
            final(self).spec_pending() == old(self).spec_pending(),
            forall|other: AllocatedMegabufferRegion|
                old(self).holds(&other) && other.spec_size() > 0 && (other.end() <= old(
                    region,
                ).spec_offset() || old(region).end() <= other.spec_offset())
                    ==> #[trigger] final(self).holds(&other),
            match r {
                Ok(_) => {
                    &&& old(region).spec_size() > 0
                    &&& exists|p: int|
                        {
                            &&& is_gap(
                                old(self).spec_free_regions(),
                                p,
                                old(region).spec_offset() as int,
                                old(region).spec_size() as int,
                            )
                            &&& final(self).spec_free_regions() == give_back(
                                old(self).spec_free_regions(),
                                p,
                                old(region).spec_offset(),
                                old(region).spec_size(),
                            )
                        }
                },
                Err(e) => {
                    &&& e == MegabufferError::DoubleFree
                    &&& old(region).spec_size() == 0
                    &&& final(self).spec_free_regions() == old(self).spec_free_regions()
                },
            },
    {
        if region.size == 0 {
            return Err(MegabufferError::DoubleFree);
        }
        let offset = region.offset;
        let size = region.size;
        let ghost before = self.free_regions@;
        let n = self.free_regions.len();
        let mut p: usize = 0;
        while p < n && self.free_regions[p].offset <= offset && self.free_regions[p].size <= offset
            - self.free_regions[p].offset
            invariant
                n == self.free_regions@.len(),
                self.free_regions@ == before,
                p <= n,
                forall|i: int| 0 <= i < p ==> (#[trigger] before[i]).end() <= offset,
            decreases n - p,
        {
            p = p + 1;
        }
        proof {
            lemma_give_back_wf(before, p as int, offset, size, self.capacity as int);
        }
        let left = p > 0 && self.free_regions[p - 1].offset + self.free_regions[p - 1].size
            == offset;
        let right = p < n && self.free_regions[p].offset - size == offset;
        if left && right {
            let low = self.free_regions[p - 1];
            let high = self.free_regions[p];
            self.free_regions[p - 1] = FreeMegabufferRegion {
                offset: low.offset,
                size: low.size + size + high.size,
            };
            self.free_regions.remove(p);
        } else if left {
            let low = self.free_regions[p - 1];
            self.free_regions[p - 1] = FreeMegabufferRegion {
                offset: low.offset,
                size: low.size + size,
            };
        } else if right {
            let high = self.free_regions[p];
            self.free_regions[p] = FreeMegabufferRegion { offset, size: size + high.size };
        } else {
            self.free_regions.insert(p, FreeMegabufferRegion { offset, size });
        }
        region.size = 0;
        Ok(())
    }

    /// Records a write of `data_len` bytes to `region` and says where in the
    /// staging buffer they go: at the region's offset. Data that does not
    /// fit in the region is refused. A write of no bytes is not recorded.
    pub fn write(&mut self, data_len: u64, region: &AllocatedMegabufferRegion) -> (r: Result<
        u64,
        MegabufferError,
    >)
        ensures
            final(self).same_buffer(old(self)),
            final(self).spec_free_regions() == old(self).spec_free_regions(),
            match r {
                Ok(at) => {
                    &&& data_len <= region.spec_size()
                    &&& at == region.spec_offset()
                    &&& final(self).spec_pending() == if data_len > 0 {
                        old(self).spec_pending().push(copy_in_place(region.spec_offset(), data_len))
                    } else {
                        old(self).spec_pending()
                    }
                },
                Err(e) => {
                    &&& e == MegabufferError::DataTooLarge
                    &&& data_len > region.spec_size()
                    &&& final(self).spec_pending() == old(self).spec_pending()
                },
            },
    {
        let at = region.write(data_len)?;
        if data_len > 0 {
            self.pending.push(BufferCopy { src_offset: at, dst_offset: at, size: data_len });
        }
        Ok(at)
    }

    /// The copies that carry every write recorded since the last upload from
    /// the staging buffer to the device buffer, oldest first. Afterwards no
    /// write is pending.
    pub fn upload(&mut self) -> (r: Vec<BufferCopy>)
        ensures
            final(self).same_buffer(old(self)),
            final(self).spec_free_regions() == old(self).spec_free_regions(),
            r@ == old(self).spec_pending(),
            final(self).spec_pending() == Seq::<BufferCopy>::empty(),
    {
        let mut out: Vec<BufferCopy> = Vec::new();
        core::mem::swap(&mut out, &mut self.pending);
        out
    }

    /// Joins free ranges that touch. The free list of a well-formed
    /// megabuffer holds none, so the pass leaves it as it is.
    pub fn defragment(&mut self)
        requires
            old(self).wf(),
        ensures
            final(self).wf(),
            final(self).same_buffer(old(self)),
            final(self).spec_pending() == old(self).spec_pending(),
            final(self).spec_free_regions() == coalesce(old(self).spec_free_regions()),
            final(self).spec_free_regions() == old(self).spec_free_regions(),
    {
        proof {
            lemma_coalesce_of_well_formed(self.free_regions@, self.capacity as int);
        }
        let joined = coalesce_regions(&self.free_regions);
        self.free_regions = joined;
    }
}

} // verus!
