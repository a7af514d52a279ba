//! Choosing the adapter and its three queue families.
//!
//! An adapter qualifies when it offers every required extension and three
//! different queue families: one for graphics (and presentation, where a
//! surface is in use), one for compute and one for transfer. Among the
//! adapters that qualify the kind decides, and among equals the one listed
//! first.
//!
//! Of the triples of families that the adapter offers, the one with the
//! lowest graphics index is taken, among those the one with the lowest
//! compute index, and among those the one with the lowest transfer index.
//! Wherever the first graphics family, the first other compute family and
//! the first transfer family that is left exist, they are that triple.

use vstd::prelude::*;
use crate::commands::{CommandEncoder, CommandEncoderAllocator, CommandError, PoolView};
use crate::flags::{contains, spec_contains, QUEUE_COMPUTE, QUEUE_GRAPHICS, QUEUE_TRANSFER};
use crate::align::is_power_of_two;
use crate::megabuffer::{
    following_id, BufferCopy, FreeMegabufferRegion, Megabuffer, MegabufferIds,
};
use crate::queue::{Queue, QueueFamily};
use crate::texture::{Texture, TextureDescriptor};
use crate::transfer::{TransferCommandEncoder, TransferStep};

verus! {

/// The kind of an adapter, best first.
#[derive(Clone, Copy, Debug, PartialEq, Eq, Structural)]
pub enum DeviceKind {
    DiscreteGpu,
    IntegratedGpu,
    VirtualGpu,
    Cpu,
    Other,
    Unknown,
}

impl DeviceKind {
    /// The place of the kind in the order of preference; lower is better.
    pub open spec fn spec_rank(self) -> int {
        match self {
            DeviceKind::DiscreteGpu => 0,
            DeviceKind::IntegratedGpu => 1,
            DeviceKind::VirtualGpu => 2,
            DeviceKind::Cpu => 3,
            DeviceKind::Other => 4,
            DeviceKind::Unknown => 5,
        }
    }

    pub fn rank(self) -> (r: u8)
        ensures
            r == self.spec_rank(),
    {
        match self {
            DeviceKind::DiscreteGpu => 0,
            DeviceKind::IntegratedGpu => 1,
            DeviceKind::VirtualGpu => 2,
            DeviceKind::Cpu => 3,
            DeviceKind::Other => 4,
            DeviceKind::Unknown => 5,
        }
    }
}

/// What an adapter reports of one queue family.
#[derive(Clone, Copy, Debug, PartialEq, Eq, Structural)]
pub struct QueueFamilyInfo {
    /// The capability bits of the family.
    pub flags: u32,
    /// Whether the family can present to the surface in use.
    pub supports_present: bool,
}

/// What an adapter reports of itself.
#[derive(Debug)]
pub struct AdapterInfo {
    pub kind: DeviceKind,
    /// The names of the extensions it offers, as bytes.
    pub extensions: Vec<Vec<u8>>,
    /// Its queue families, by index.
    pub queue_families: Vec<QueueFamilyInfo>,
    /// The features it supports, one bit each.
    pub features: u32,
}

/// The adapter that was chosen, by its place in the list, and its three
/// queue families.
#[derive(Clone, Copy, Debug, PartialEq, Eq, Structural)]
pub struct DeviceSelection {
    pub adapter: usize,
    pub graphics: QueueFamily,
    pub compute: QueueFamily,
    pub transfer: QueueFamily,
}

#[derive(Clone, Copy, Debug, PartialEq, Eq, Structural)]
pub enum DeviceError {
    /// No adapter offers the extensions and the three queue families.
    NoSuitableDevice,
    /// The adapter lacks a feature that the renderer cannot do without.
    FeatureUnsupported,
}

/// The names of `offered`, each as a sequence of bytes.
pub open spec fn names(offered: Seq<Vec<u8>>) -> Seq<Seq<u8>> {
    offered.map_values(|name: Vec<u8>| name@)
}

/// Every name of `required` is among `offered`.
pub open spec fn offers_all(offered: Seq<Seq<u8>>, required: Seq<Seq<u8>>) -> bool {
    forall|j: int| 0 <= j < required.len() ==> offered.contains(#[trigger] required[j])
}

/// Family `i` has the capability `wanted`, can present where that is asked
/// for, and is neither `taken_a` nor `taken_b`.
pub open spec fn family_qualifies(
    families: Seq<QueueFamilyInfo>,
    i: int,
    wanted: u32,
    needs_present: bool,
    taken_a: int,
    taken_b: int,
) -> bool {
    &&& spec_contains(families[i].flags, wanted)
    &&& needs_present ==> families[i].supports_present
    &&& i != taken_a
    &&& i != taken_b
}

/// Family `i` is the first that qualifies.
pub open spec fn is_first_family(
    families: Seq<QueueFamilyInfo>,
    i: int,
    wanted: u32,
    needs_present: bool,
    taken_a: int,
    taken_b: int,
) -> bool {
    &&& 0 <= i < families.len()
    &&& family_qualifies(families, i, wanted, needs_present, taken_a, taken_b)
    &&& forall|j: int|
        0 <= j < i ==> !#[trigger] family_qualifies(
            families,
            j,
            wanted,
            needs_present,
            taken_a,
            taken_b,
        )
}

/// No family qualifies.
pub open spec fn no_family(
    families: Seq<QueueFamilyInfo>,
    wanted: u32,
    needs_present: bool,
    taken_a: int,
    taken_b: int,
) -> bool {
    forall|j: int|
        0 <= j < families.len() ==> !#[trigger] family_qualifies(
            families,
            j,
            wanted,
            needs_present,
            taken_a,
            taken_b,
        )
}

/// `g` is the first family for graphics, `c` the first other one for
/// compute, and `t` the first one left for transfer.
pub open spec fn is_queue_choice(
    families: Seq<QueueFamilyInfo>,
    needs_present: bool,
    g: int,
    c: int,
    t: int,
) -> bool {
    &&& is_first_family(families, g, QUEUE_GRAPHICS, needs_present, -1, -1)
    &&& is_first_family(families, c, QUEUE_COMPUTE, false, g, -1)
    &&& is_first_family(families, t, QUEUE_TRANSFER, false, g, c)
}

/// The families offer no choice of three by taking the first of each kind.
pub open spec fn no_queue_choice(families: Seq<QueueFamilyInfo>, needs_present: bool) -> bool {
    forall|g: int, c: int, t: int| !#[trigger] is_queue_choice(families, needs_present, g, c, t)
}

/// `g`, `c` and `t` are three different families: `g` does graphics and can
/// present where that is asked for, `c` does compute, `t` does transfer.
pub open spec fn is_queue_triple(
    families: Seq<QueueFamilyInfo>,
    needs_present: bool,
    g: int,
    c: int,
    t: int,
) -> bool {
    &&& 0 <= g < families.len()
    &&& 0 <= c < families.len()
    &&& 0 <= t < families.len()
    &&& g != c
    &&& g != t
    &&& c != t
    &&& spec_contains(families[g].flags, QUEUE_GRAPHICS)
    &&& needs_present ==> families[g].supports_present
    &&& spec_contains(families[c].flags, QUEUE_COMPUTE)
    &&& spec_contains(families[t].flags, QUEUE_TRANSFER)
}

/// The three indices `(g, c, t)` do not come after `(g2, c2, t2)`: the
/// graphics index decides, then the compute index, then the transfer index.
pub open spec fn not_after(g: int, c: int, t: int, g2: int, c2: int, t2: int) -> bool {
    g < g2 || (g == g2 && (c < c2 || (c == c2 && t <= t2)))
}

/// `(g, c, t)` is the triple of families that comes before every other one.
pub open spec fn is_first_queue_triple(
    families: Seq<QueueFamilyInfo>,
    needs_present: bool,
    g: int,
    c: int,
    t: int,
) -> bool {
    &&& is_queue_triple(families, needs_present, g, c, t)
    &&& forall|g2: int, c2: int, t2: int| #[trigger]
        is_queue_triple(families, needs_present, g2, c2, t2) ==> not_after(g, c, t, g2, c2, t2)
}

/// The families offer no three different ones for graphics, compute and
/// transfer.
pub open spec fn no_queue_triple(families: Seq<QueueFamilyInfo>, needs_present: bool) -> bool {
    forall|g: int, c: int, t: int| !#[trigger] is_queue_triple(families, needs_present, g, c, t)
}

/// Where taking the first family of each kind gives three families, these
/// are the triple that comes before every other one.
pub proof fn lemma_queue_choice_is_first_triple(
    families: Seq<QueueFamilyInfo>,
    needs_present: bool,
    g: int,
    c: int,
    t: int,
)
    requires
        is_queue_choice(families, needs_present, g, c, t),
    ensures
        is_first_queue_triple(families, needs_present, g, c, t),
{
    assert forall|g2: int, c2: int, t2: int| #[trigger]
        is_queue_triple(families, needs_present, g2, c2, t2) implies not_after(
        g,
        c,
        t,
        g2,
        c2,
        t2,
    ) by {
        if g2 < g {
            assert(family_qualifies(families, g2, QUEUE_GRAPHICS, needs_present, -1, -1));
        } else if g2 == g {
            if c2 < c {
                assert(family_qualifies(families, c2, QUEUE_COMPUTE, false, g, -1));
            } else if c2 == c {
                if t2 < t {
                    assert(family_qualifies(families, t2, QUEUE_TRANSFER, false, g, c));
                }
            }
        }
    }
}

/// At most one triple comes before every other one.
pub proof fn lemma_first_queue_triple_unique(
    families: Seq<QueueFamilyInfo>,
    needs_present: bool,
    g: int,
    c: int,
    t: int,
    g2: int,
    c2: int,
    t2: int,
)
    requires
        is_first_queue_triple(families, needs_present, g, c, t),
        is_first_queue_triple(families, needs_present, g2, c2, t2),
    ensures
        g == g2 && c == c2 && t == t2,
{
    assert(not_after(g, c, t, g2, c2, t2));
    assert(not_after(g2, c2, t2, g, c, t));
}

impl AdapterInfo {
    /// The index of every queue family fits in 32 bits.
    pub open spec fn wf(&self) -> bool {
        self.queue_families@.len() <= u32::MAX
    }

    /// Decides whether the adapter is well formed.
    pub fn check(&self) -> (r: bool)
        ensures
            r == self.wf(),
    {
        self.queue_families.len() <= 0xffff_ffff
    }

    /// The adapter offers the required extensions and three different
    /// queue families for graphics, compute and transfer.
    pub open spec fn suitable(&self, required: Seq<Seq<u8>>, needs_present: bool) -> bool {
        &&& offers_all(names(self.extensions@), required)
        &&& !no_queue_triple(self.queue_families@, needs_present)
    }
}

/// Adapter `k` is suitable, better than every suitable adapter before it and
/// no worse than any after it.
pub open spec fn is_best_adapter(
    adapters: Seq<AdapterInfo>,
    required: Seq<Seq<u8>>,
    needs_present: bool,
    k: int,
) -> bool {
    &&& 0 <= k < adapters.len()
    &&& adapters[k].suitable(required, needs_present)
    &&& forall|j: int|
        0 <= j < k && (#[trigger] adapters[j]).suitable(required, needs_present)
            ==> adapters[j].kind.spec_rank() > adapters[k].kind.spec_rank()
    &&& forall|j: int|
        k < j < adapters.len() && (#[trigger] adapters[j]).suitable(required, needs_present)
            ==> adapters[j].kind.spec_rank() >= adapters[k].kind.spec_rank()
}

/// Whether the two names are the same bytes.
pub fn same_name(a: &Vec<u8>, b: &Vec<u8>) -> (r: bool)
    ensures
        r == (a@ == b@),
{
    if a.len() != b.len() {
        return false;
    }
    let mut i: usize = 0;
    while i < a.len()
        invariant
            a@.len() == b@.len(),
            i <= a@.len(),
            forall|k: int| 0 <= k < i ==> a@[k] == b@[k],
        decreases a.len() - i,
    {
        if a[i] != b[i] {
            return false;
        }
        i = i + 1;
    }
    assert(a@ =~= b@);
    true
}

/// Whether `name` is among `offered`.
pub fn offers(offered: &Vec<Vec<u8>>, name: &Vec<u8>) -> (r: bool)
    ensures
        r == names(offered@).contains(name@),
{
    let mut i: usize = 0;
    while i < offered.len()
        invariant
            i <= offered@.len(),
            forall|k: int| 0 <= k < i ==> names(offered@)[k] != name@,
        decreases offered.len() - i,
    {
        if same_name(&offered[i], name) {
            assert(names(offered@)[i as int] == name@);
            return true;
        }
        i = i + 1;
    }
    false
}

/// Whether every name of `required` is among `offered`.
pub fn offers_all_extensions(offered: &Vec<Vec<u8>>, required: &Vec<Vec<u8>>) -> (r: bool)
    ensures
        r == offers_all(names(offered@), names(required@)),
{
    let mut j: usize = 0;
    while j < required.len()
        invariant
            j <= required@.len(),
            forall|k: int| 0 <= k < j ==> names(offered@).contains(#[trigger] names(required@)[k]),
        decreases required.len() - j,
    {
        if !offers(offered, &required[j]) {
            assert(names(required@)[j as int] == required@[j as int]@);
            return false;
        }
        j = j + 1;
    }
    true
}

/// The first family that has the capability `wanted`, can present where that
/// is asked for, and is neither `taken_a` nor `taken_b`.
pub fn first_family(
    families: &Vec<QueueFamilyInfo>,
    wanted: u32,
    needs_present: bool,
    taken_a: Option<usize>,
    taken_b: Option<usize>,
) -> (r: Option<usize>)
    ensures
        match r {
            Some(i) => is_first_family(
                families@,
                i as int,
                wanted,
                needs_present,
                taken_index(taken_a),
                taken_index(taken_b),
            ),
            None => no_family(
                families@,
                wanted,
                needs_present,
                taken_index(taken_a),
                taken_index(taken_b),
            ),
        },
{
    let mut i: usize = 0;
    while i < families.len()
        invariant
            i <= families@.len(),
            forall|j: int|
                0 <= j < i ==> !#[trigger] family_qualifies(
                    families@,
                    j,
                    wanted,
                    needs_present,
                    taken_index(taken_a),
                    taken_index(taken_b),
                ),
        decreases families.len() - i,
    {
        let family = families[i];
        let free_a = match taken_a {
            Some(a) => a != i,
            None => true,
        };
        let free_b = match taken_b {
            Some(b) => b != i,
            None => true,
        };
        if contains(family.flags, wanted) && (!needs_present || family.supports_present) && free_a
            && free_b {
            return Some(i);
        }
        i = i + 1;
    }
    None
}

/// The index that `taken` stands for; -1 where none is taken.
pub open spec fn taken_index(taken: Option<usize>) -> int {
    match taken {
        Some(i) => i as int,
        None => -1,
    }
}

/// The three queue families that come of taking the first family for
/// graphics, the first other one for compute and the first one left for
/// transfer; none where one of the three is missing.
pub fn first_queue_families(families: &Vec<QueueFamilyInfo>, needs_present: bool) -> (r: Option<
    (usize, usize, usize),
>)
    ensures
        match r {
            Some((g, c, t)) => is_queue_choice(
                families@,
                needs_present,
                g as int,
                c as int,
                t as int,
            ),
            None => no_queue_choice(families@, needs_present),
        },
{
    let g = match first_family(families, QUEUE_GRAPHICS, needs_present, None, None) {
        Some(g) => g,
        None => {
            return None;
        },
    };
    let c = match first_family(families, QUEUE_COMPUTE, false, Some(g), None) {
        Some(c) => c,
        None => {
            return None;
        },
    };
    let t = match first_family(families, QUEUE_TRANSFER, false, Some(g), Some(c)) {
        Some(t) => t,
        None => {
            return None;
        },
    };
    Some((g, c, t))
}

/// The triple of families that comes before every other one, found by
/// trying every graphics family in turn, with it every compute family, and
/// with both every transfer family.
pub fn search_queue_families(families: &Vec<QueueFamilyInfo>, needs_present: bool) -> (r: Option<
    (usize, usize, usize),
>)
    ensures
        match r {
            Some((g, c, t)) => is_first_queue_triple(
                families@,
                needs_present,
                g as int,
                c as int,
                t as int,
            ),
            None => no_queue_triple(families@, needs_present),
        },
{
    let n = families.len();
    let mut g: usize = 0;
    while g < n
        invariant
            n == families@.len(),
            g <= n,
            forall|g2: int, c2: int, t2: int| #[trigger]
                is_queue_triple(families@, needs_present, g2, c2, t2) ==> g2 >= g,
        decreases n - g,
    {
        let first = families[g];
        if contains(first.flags, QUEUE_GRAPHICS) && (!needs_present || first.supports_present) {
            let mut c: usize = 0;
            while c < n
                invariant
                    n == families@.len(),
                    g < n,
                    c <= n,
                    spec_contains(families@[g as int].flags, QUEUE_GRAPHICS),
                    needs_present ==> families@[g as int].supports_present,
                    forall|g2: int, c2: int, t2: int| #[trigger]
                        is_queue_triple(families@, needs_present, g2, c2, t2) ==> g2 >= g,
                    forall|c2: int, t2: int| #[trigger]
                        is_queue_triple(families@, needs_present, g as int, c2, t2) ==> c2 >= c,
                decreases n - c,
            {
                if c != g && contains(families[c].flags, QUEUE_COMPUTE) {
                    let mut t: usize = 0;
                    while t < n
                        invariant
                            n == families@.len(),
                            g < n,
                            c < n,
                            t <= n,
                            c != g,
                            spec_contains(families@[g as int].flags, QUEUE_GRAPHICS),
                            needs_present ==> families@[g as int].supports_present,
                            spec_contains(families@[c as int].flags, QUEUE_COMPUTE),
                            forall|g2: int, c2: int, t2: int| #[trigger]
                                is_queue_triple(families@, needs_present, g2, c2, t2) ==> g2 >= g,
                            forall|c2: int, t2: int| #[trigger]
                                is_queue_triple(families@, needs_present, g as int, c2, t2) ==> c2
                                    >= c,
                            forall|t2: int| #[trigger]
                                is_queue_triple(families@, needs_present, g as int, c as int, t2)
                                    ==> t2 >= t,
                        decreases n - t,
                    {
                        if t != g && t != c && contains(families[t].flags, QUEUE_TRANSFER) {
                            return Some((g, c, t));
                        }
                        t = t + 1;
                    }
                }
                c = c + 1;
            }
        }
        g = g + 1;
    }
    None
}

/// The three queue families of an adapter: three different ones for
/// graphics, compute and transfer, and of all such triples the one that
/// comes first. These are the first family for graphics, the first other
/// one for compute and the first one left for transfer, wherever those
/// exist.
pub fn pick_queue_families(families: &Vec<QueueFamilyInfo>, needs_present: bool) -> (r: Option<
    (usize, usize, usize),
>)
    ensures
        match r {
            Some((g, c, t)) => is_first_queue_triple(
                families@,
                needs_present,
                g as int,
                c as int,
                t as int,
            ),
            None => no_queue_triple(families@, needs_present),
        },
        forall|g: int, c: int, t: int| #[trigger]
            is_queue_choice(families@, needs_present, g, c, t) ==> r == Some(
                (g as usize, c as usize, t as usize),
            ),
{
    match first_queue_families(families, needs_present) {
        Some((g, c, t)) => {
            proof {
                lemma_queue_choice_is_first_triple(
                    families@,
                    needs_present,
                    g as int,
                    c as int,
                    t as int,
                );
                assert forall|g2: int, c2: int, t2: int| #[trigger]
                    is_queue_choice(families@, needs_present, g2, c2, t2) implies g2 == g && c2
                    == c && t2 == t by {
                    lemma_queue_choice_is_first_triple(families@, needs_present, g2, c2, t2);
                    lemma_first_queue_triple_unique(
                        families@,
                        needs_present,
                        g as int,
                        c as int,
                        t as int,
                        g2,
                        c2,
                        t2,
                    );
                }
            }
            Some((g, c, t))
        },
        None => search_queue_families(families, needs_present),
    }
}

/// At most one family is the first that qualifies.
pub proof fn lemma_first_family_unique(
    families: Seq<QueueFamilyInfo>,
    wanted: u32,
    needs_present: bool,
    taken_a: int,
    taken_b: int,
)
    ensures
        forall|i: int, j: int|
            is_first_family(families, i, wanted, needs_present, taken_a, taken_b)
                && is_first_family(families, j, wanted, needs_present, taken_a, taken_b) ==> i
                == j,
{
}

/// `chosen` names the best adapter and, of its triples of queue families,
/// the one that comes first. The graphics family presents, the others do
/// not.
pub open spec fn is_selection(
    adapters: Seq<AdapterInfo>,
    required: Seq<Seq<u8>>,
    needs_present: bool,
    chosen: DeviceSelection,
) -> bool {
    let families = adapters[chosen.adapter as int].queue_families@;
    &&& is_best_adapter(adapters, required, needs_present, chosen.adapter as int)
    &&& is_first_queue_triple(
        families,
        needs_present,
        chosen.graphics.index as int,
        chosen.compute.index as int,
        chosen.transfer.index as int,
    )
    &&& chosen.graphics == (QueueFamily {
        index: chosen.graphics.index,
        flags: families[chosen.graphics.index as int].flags,
        present: true,
    })
    &&& chosen.compute == (QueueFamily {
        index: chosen.compute.index,
        flags: families[chosen.compute.index as int].flags,
        present: false,
    })
    &&& chosen.transfer == (QueueFamily {
        index: chosen.transfer.index,
        flags: families[chosen.transfer.index as int].flags,
        present: false,
    })
}

/// No adapter is suitable.
pub open spec fn none_suitable(
    adapters: Seq<AdapterInfo>,
    required: Seq<Seq<u8>>,
    needs_present: bool,
) -> bool {
    forall|k: int|
        0 <= k < adapters.len() ==> !(#[trigger] adapters[k]).suitable(required, needs_present)
}

/// Chooses the adapter and its queue families. An adapter qualifies when it
/// offers every name of `required` and three different queue families for
/// graphics, compute and transfer; the best kind wins, and among equals the
/// one listed first.
pub fn select_physical_device(
    adapters: &Vec<AdapterInfo>,
    required: &Vec<Vec<u8>>,
    needs_present: bool,
) -> (r: Result<DeviceSelection, DeviceError>)
    requires
        forall|k: int| 0 <= k < adapters@.len() ==> (#[trigger] adapters@[k]).wf(),
    ensures
        match r {
            Ok(chosen) => is_selection(adapters@, names(required@), needs_present, chosen),
            Err(e) => e == DeviceError::NoSuitableDevice && none_suitable(
                adapters@,
                names(required@),
                needs_present,
            ),
        },
{
    let mut best: Option<DeviceSelection> = None;
    let mut best_rank: u8 = 0;
    let mut k: usize = 0;
    while k < adapters.len()
        invariant
            k <= adapters@.len(),
            forall|i: int| 0 <= i < adapters@.len() ==> (#[trigger] adapters@[i]).wf(),
            match best {
                Some(chosen) => {
                    let families = adapters@[chosen.adapter as int].queue_families@;
                    &&& chosen.adapter < k
                    &&& best_rank == adapters@[chosen.adapter as int].kind.spec_rank()
                    &&& adapters@[chosen.adapter as int].suitable(names(required@), needs_present)
                    &&& forall|j: int|
                        0 <= j < chosen.adapter && (#[trigger] adapters@[j]).suitable(
                            names(required@),
                            needs_present,
                        ) ==> adapters@[j].kind.spec_rank() > best_rank
                    &&& forall|j: int|
                        chosen.adapter < j < k && (#[trigger] adapters@[j]).suitable(
                            names(required@),
                            needs_present,
                        ) ==> adapters@[j].kind.spec_rank() >= best_rank
                    &&& is_first_queue_triple(
                        families,
                        needs_present,
                        chosen.graphics.index as int,
                        chosen.compute.index as int,
                        chosen.transfer.index as int,
                    )
                    &&& chosen.graphics == (QueueFamily {
                        index: chosen.graphics.index,
                        flags: families[chosen.graphics.index as int].flags,
                        present: true,
                    })
                    &&& chosen.compute == (QueueFamily {
                        index: chosen.compute.index,
                        flags: families[chosen.compute.index as int].flags,
                        present: false,
                    })
                    &&& chosen.transfer == (QueueFamily {
                        index: chosen.transfer.index,
                        flags: families[chosen.transfer.index as int].flags,
                        present: false,
                    })
                },
                None => forall|j: int|
                    0 <= j < k ==> !(#[trigger] adapters@[j]).suitable(
                        names(required@),
                        needs_present,
                    ),
            },
        decreases adapters.len() - k,
    {
        let adapter = &adapters[k];
        if offers_all_extensions(&adapter.extensions, required) {
            match pick_queue_families(&adapter.queue_families, needs_present) {
                Some((g, c, t)) => {
                    let rank = adapter.kind.rank();
                    let better = match best {
                        Some(_) => rank < best_rank,
                        None => true,
                    };
                    if better {
                        best_rank = rank;
                        best = Some(
                            DeviceSelection {
                                adapter: k,
                                graphics: QueueFamily::new(
                                    g as u32,
                                    adapter.queue_families[g].flags,
                                    true,
                                ),
                                compute: QueueFamily::new(
                                    c as u32,
                                    adapter.queue_families[c].flags,
                                    false,
                                ),
                                transfer: QueueFamily::new(
                                    t as u32,
                                    adapter.queue_families[t].flags,
                                    false,
                                ),
                            },
                        );
                    }
                },
                None => {},
            }
        }
        k = k + 1;
    }
    match best {
        Some(chosen) => Ok(chosen),
        None => Err(DeviceError::NoSuitableDevice),
    }
}

/// The device features, one bit each.
pub const FEATURE_SHADER_DRAW_PARAMETERS: u32 = 0x1;

pub const FEATURE_RUNTIME_DESCRIPTOR_ARRAY: u32 = 0x2;

pub const FEATURE_BUFFER_DEVICE_ADDRESS: u32 = 0x4;

pub const FEATURE_DESCRIPTOR_INDEXING: u32 = 0x8;

pub const FEATURE_DESCRIPTOR_BINDING_PARTIALLY_BOUND: u32 = 0x10;

pub const FEATURE_DESCRIPTOR_BINDING_VARIABLE_DESCRIPTOR_COUNT: u32 = 0x20;

pub const FEATURE_SHADER_INPUT_ATTACHMENT_ARRAY_DYNAMIC_INDEXING: u32 = 0x40;

pub const FEATURE_SHADER_UNIFORM_TEXEL_BUFFER_ARRAY_DYNAMIC_INDEXING: u32 = 0x80;

pub const FEATURE_SHADER_STORAGE_TEXEL_BUFFER_ARRAY_DYNAMIC_INDEXING: u32 = 0x100;

pub const FEATURE_SHADER_UNIFORM_BUFFER_ARRAY_NON_UNIFORM_INDEXING: u32 = 0x200;

pub const FEATURE_SHADER_SAMPLED_IMAGE_ARRAY_NON_UNIFORM_INDEXING: u32 = 0x400;

pub const FEATURE_SHADER_STORAGE_BUFFER_ARRAY_NON_UNIFORM_INDEXING: u32 = 0x800;

pub const FEATURE_SHADER_STORAGE_IMAGE_ARRAY_NON_UNIFORM_INDEXING: u32 = 0x1000;

pub const FEATURE_SHADER_INPUT_ATTACHMENT_ARRAY_NON_UNIFORM_INDEXING: u32 = 0x2000;

pub const FEATURE_SHADER_UNIFORM_TEXEL_BUFFER_ARRAY_NON_UNIFORM_INDEXING: u32 = 0x4000;

pub const FEATURE_SHADER_STORAGE_TEXEL_BUFFER_ARRAY_NON_UNIFORM_INDEXING: u32 = 0x8000;

pub const FEATURE_DESCRIPTOR_BINDING_UNIFORM_BUFFER_UPDATE_AFTER_BIND: u32 = 0x10000;

pub const FEATURE_DESCRIPTOR_BINDING_SAMPLED_IMAGE_UPDATE_AFTER_BIND: u32 = 0x20000;

pub const FEATURE_DESCRIPTOR_BINDING_STORAGE_IMAGE_UPDATE_AFTER_BIND: u32 = 0x40000;

pub const FEATURE_DESCRIPTOR_BINDING_STORAGE_BUFFER_UPDATE_AFTER_BIND: u32 = 0x80000;

pub const FEATURE_DESCRIPTOR_BINDING_UNIFORM_TEXEL_BUFFER_UPDATE_AFTER_BIND: u32 = 0x100000;

pub const FEATURE_DESCRIPTOR_BINDING_STORAGE_TEXEL_BUFFER_UPDATE_AFTER_BIND: u32 = 0x200000;

pub const FEATURE_SYNCHRONIZATION2: u32 = 0x400000;

pub const FEATURE_DYNAMIC_RENDERING: u32 = 0x800000;

pub const FEATURE_SHADER_OBJECT: u32 = 0x1000000;

/// Every feature the renderer turns on. It cannot do without any of them.
pub const REQUIRED_FEATURES: u32 = 0x1ff_ffff;

/// One queue is asked of a queue family.
#[derive(Clone, Copy, Debug, PartialEq, Eq, Structural)]
pub struct QueueRequest {
    pub family_index: u32,
    pub queue_count: u32,
}

/// The features to turn on where the adapter supports all of them.
pub open spec fn spec_check_features(supported: u32) -> Result<u32, DeviceError> {
    if spec_contains(supported, REQUIRED_FEATURES) {
        Ok(REQUIRED_FEATURES)
    } else {
        Err(DeviceError::FeatureUnsupported)
    }
}

/// Decides which features the logical device is created with: all that the
/// renderer needs, or none at all where the adapter lacks one of them.
pub fn check_features(supported: u32) -> (r: Result<u32, DeviceError>)
    ensures
        r == spec_check_features(supported),
{
    if contains(supported, REQUIRED_FEATURES) {
        Ok(REQUIRED_FEATURES)
    } else {
        Err(DeviceError::FeatureUnsupported)
    }
}

/// The queues the logical device is created with: one of each of the three
/// families, all with the same priority.
pub fn logical_device_queues(chosen: &DeviceSelection) -> (r: Vec<QueueRequest>)
    ensures
        r@ == spec_queue_requests(*chosen),
{
    let mut out: Vec<QueueRequest> = Vec::new();
    out.push(QueueRequest { family_index: chosen.graphics.index, queue_count: 1 });
    out.push(QueueRequest { family_index: chosen.compute.index, queue_count: 1 });
    out.push(QueueRequest { family_index: chosen.transfer.index, queue_count: 1 });
    out
}

/// The queues the logical device is created with.
pub open spec fn spec_queue_requests(chosen: DeviceSelection) -> Seq<QueueRequest> {
    seq![
        QueueRequest { family_index: chosen.graphics.index, queue_count: 1 },
        QueueRequest { family_index: chosen.compute.index, queue_count: 1 },
        QueueRequest { family_index: chosen.transfer.index, queue_count: 1 },
    ]
}

/// What the logical device is created with: the adapter and its queue
/// families, the queues to ask for, and the features to turn on.
#[derive(Debug)]
pub struct DevicePlan {
    pub chosen: DeviceSelection,
    pub queues: Vec<QueueRequest>,
    pub features: u32,
}

/// Chooses the adapter and says what the logical device is created with.
/// There is no device where no adapter is suitable, nor where the adapter
/// that was chosen lacks a feature that the renderer needs: no other
/// adapter is tried in its place.
pub fn plan_device(adapters: &Vec<AdapterInfo>, required: &Vec<Vec<u8>>, needs_present: bool) -> (r:
    Result<DevicePlan, DeviceError>)
    requires
        forall|k: int| 0 <= k < adapters@.len() ==> (#[trigger] adapters@[k]).wf(),
    ensures
        match r {
            Ok(plan) => {
                &&& is_selection(adapters@, names(required@), needs_present, plan.chosen)
                &&& spec_contains(adapters@[plan.chosen.adapter as int].features, REQUIRED_FEATURES)
                &&& plan.queues@ == spec_queue_requests(plan.chosen)
                &&& plan.features == REQUIRED_FEATURES
            },
            Err(DeviceError::NoSuitableDevice) => none_suitable(
                adapters@,
                names(required@),
                needs_present,
            ),
            Err(DeviceError::FeatureUnsupported) => exists|chosen: DeviceSelection|
                {
                    &&& #[trigger] is_selection(adapters@, names(required@), needs_present, chosen)
                    &&& !spec_contains(adapters@[chosen.adapter as int].features, REQUIRED_FEATURES)
                },
        },
{
    let chosen = select_physical_device(adapters, required, needs_present)?;
    let features = check_features(adapters[chosen.adapter].features)?;
    Ok(DevicePlan { chosen, queues: logical_device_queues(&chosen), features })
}

/// The logical device: its three queues, the books of its command
/// encoders, its encoder for one-shot transfers, and the source of the
/// identities of its megabuffers.
#[derive(Debug)]
pub struct RenderDevice {
    pub graphics_queue: Queue,
    pub compute_queue: Queue,
    pub transfer_queue: Queue,
    pub command_encoder_allocator: CommandEncoderAllocator,
    pub transfer: TransferCommandEncoder,
    pub megabuffer_ids: MegabufferIds,
}

impl RenderDevice {
    pub open spec fn wf(&self) -> bool {
        self.command_encoder_allocator.wf()
    }

    /// The device with the queues of the chosen families. The handles are
    /// those the driver gave the queues; `transfer_command_buffer` is the
    /// command buffer for one-shot transfers.
    pub fn new(
        chosen: &DeviceSelection,
        graphics_handle: u64,
        compute_handle: u64,
        transfer_handle: u64,
        transfer_command_buffer: u64,
    ) -> (r: RenderDevice)
        ensures
            r.wf(),
            r.graphics_queue == (Queue { family: chosen.graphics, handle: graphics_handle }),
            r.compute_queue == (Queue { family: chosen.compute, handle: compute_handle }),
            r.transfer_queue == (Queue { family: chosen.transfer, handle: transfer_handle }),
            r.command_encoder_allocator@ == Map::<QueueFamily, PoolView>::empty(),
            r.command_encoder_allocator.spec_pool_count() == 0,
            r.transfer.spec_command_buffer() == transfer_command_buffer,
            r.transfer.spec_queue() == r.transfer_queue,
            r.transfer.spec_step() == TransferStep::Idle,
            r.megabuffer_ids.spec_next() == 0,
    {
        let transfer_queue = Queue::new(chosen.transfer, transfer_handle);
        RenderDevice {
            graphics_queue: Queue::new(chosen.graphics, graphics_handle),
            compute_queue: Queue::new(chosen.compute, compute_handle),
            transfer_queue,
            command_encoder_allocator: CommandEncoderAllocator::new(),
            transfer: TransferCommandEncoder::new(transfer_command_buffer, transfer_queue),
            megabuffer_ids: MegabufferIds::new(),
        }
    }

    /// Starts a one-shot submission on the transfer queue.
    pub fn immediate_submit(&mut self) -> (r: Result<TransferStep, CommandError>)
        ensures
            final(self).graphics_queue == old(self).graphics_queue,
            final(self).compute_queue == old(self).compute_queue,
            final(self).transfer_queue == old(self).transfer_queue,
            final(self).command_encoder_allocator == old(self).command_encoder_allocator,
            final(self).megabuffer_ids == old(self).megabuffer_ids,
            final(self).transfer.spec_command_buffer() == old(self).transfer.spec_command_buffer(),
            final(self).transfer.spec_queue() == old(self).transfer.spec_queue(),
            match r {
                Ok(step) => old(self).transfer.spec_step() == TransferStep::Idle && step
                    == TransferStep::Begin && final(self).transfer.spec_step()
                    == TransferStep::Begin,
                Err(e) => e == CommandError::AlreadyRecording && old(self).transfer.spec_step()
                    != TransferStep::Idle && final(self).transfer.spec_step() == old(
                    self,
                ).transfer.spec_step(),
            },
    {
        self.transfer.immediate_submit()
    }

    /// A megabuffer of `size` bytes, all free. The megabuffers of a device
    /// are numbered in the order in which they are created; after the
    /// largest number the count starts again at zero.
    pub fn create_megabuffer(&mut self, size: u64, alignment: u64) -> (r: Megabuffer)
        requires
            is_power_of_two(alignment),
        ensures
            final(self).graphics_queue == old(self).graphics_queue,
            final(self).compute_queue == old(self).compute_queue,
            final(self).transfer_queue == old(self).transfer_queue,
            final(self).command_encoder_allocator == old(self).command_encoder_allocator,
            final(self).transfer == old(self).transfer,
            final(self).megabuffer_ids.spec_next() == following_id(
                old(self).megabuffer_ids.spec_next(),
            ),
            r.wf(),
            r.spec_free_regions() == seq![FreeMegabufferRegion { offset: 0, size }],
            r.spec_pending() == Seq::<BufferCopy>::empty(),
            r.spec_alignment() == alignment,
            r.spec_capacity() == size,
            r.spec_id() == old(self).megabuffer_ids.spec_next(),
    {
        Megabuffer::new(size, alignment, &mut self.megabuffer_ids)
    }

    /// What a colour texture of this size is created with.
    pub fn create_color_texture(
        &self,
        width: u32,
        height: u32,
        has_data: bool,
        use_dedicated_memory: bool,
    ) -> (r: TextureDescriptor)
        ensures
            r == Texture::spec_color_texture(width, height, has_data, use_dedicated_memory),
    {
        Texture::new_color_texture_from_bytes(width, height, has_data, use_dedicated_memory)
    }

    /// What a depth texture of this size is created with.
    pub fn create_depth_texture(&self, width: u32, height: u32) -> (r: TextureDescriptor)
        ensures
            r == Texture::spec_depth_texture(width, height),
    {
        Texture::new_depth_texture(width, height)
    }

    /// What a storage texture of this size is created with.
    pub fn create_storage_texture(&self, width: u32, height: u32, use_dedicated_memory: bool) -> (r:
        TextureDescriptor)
        ensures
            r == Texture::spec_storage_texture(width, height, use_dedicated_memory),
    {
        Texture::new_storage_texture(width, height, use_dedicated_memory)
    }

    /// Takes note of a command buffer that the driver allocated for
    /// `queue` and wraps it in an encoder.
    pub fn allocate_command_encoder(&mut self, queue: Queue, command_buffer: u64) -> (r: Result<
        CommandEncoder,
        CommandError,
    >)
        requires
            old(self).wf(),
        ensures
            final(self).wf(),
            final(self).graphics_queue == old(self).graphics_queue,
            final(self).compute_queue == old(self).compute_queue,
            final(self).transfer_queue == old(self).transfer_queue,
            final(self).transfer == old(self).transfer,
            final(self).megabuffer_ids == old(self).megabuffer_ids,
            final(self).command_encoder_allocator.spec_pool_count() == old(
                self,
            ).command_encoder_allocator.spec_pool_count(),
            match r {
                Ok(encoder) => {
                    let held = old(self).command_encoder_allocator@;
                    &&& held.dom().contains(queue.family)
                    &&& encoder.spec_command_buffer() == command_buffer
                    &&& encoder.spec_queue() == queue
                    &&& !encoder.spec_is_recording()
                    &&& final(self).command_encoder_allocator@ == held.insert(
                        queue.family,
                        PoolView {
                            pool: held[queue.family].pool,
                            outstanding: held[queue.family].outstanding.push(command_buffer),
                        },
                    )
                },
                Err(e) => {
                    &&& e == CommandError::PoolNotFound
                    &&& !old(self).command_encoder_allocator@.dom().contains(queue.family)
                    &&& final(self).command_encoder_allocator@ == old(self).command_encoder_allocator@
                },
            },
    {
        self.command_encoder_allocator.allocate(queue, command_buffer)
    }

    /// The queue that presents: the graphics queue.
    pub fn get_present_queue(&self) -> (r: Queue)
        ensures
            r == self.graphics_queue,
    {
        self.graphics_queue
    }

    pub fn get_graphics_queue(&self) -> (r: Queue)
        ensures
            r == self.graphics_queue,
    {
        self.graphics_queue
    }

    pub fn get_compute_queue(&self) -> (r: Queue)
        ensures
            r == self.compute_queue,
    {
        self.compute_queue
    }

    pub fn get_transfer_queue(&self) -> (r: Queue)
        ensures
            r == self.transfer_queue,
    {
        self.transfer_queue
    }
}

} // verus!
