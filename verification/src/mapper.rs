//! The address-space map: a partial function from 32-bit guest addresses to
//! a device index and a local offset, kept as a sequence of non-overlapping
//! mapping entries.

use vstd::prelude::*;

verus! {

/// One mapping entry: the device `dev` occupies `[base, base + len)`.
#[derive(Copy, Clone, Debug, PartialEq, Eq, Structural)]
pub struct MappingEntry {
    pub base: u32,
    pub len: u32,
    pub dev: u32,
}

/// Why a placement was refused.
#[derive(Copy, Clone, Debug, PartialEq, Eq, Structural)]
pub enum MappingError {
    /// The range would intersect an already mapped range, or the device is
    /// already mapped.
    Overlap,
    /// The base address is not word-aligned.
    BaseMisaligned,
    /// A device index does not name a device.
    DeviceOutOfRange,
    /// The placement would run past the end of the 32-bit address space.
    AddressSpaceOverflow,
}

/// A single entry is well-formed: an aligned, nonzero range of whole words
/// that lies within the 32-bit address space.
pub open spec fn entry_wf(e: MappingEntry) -> bool {
    &&& e.base % 4 == 0
    &&& e.len % 4 == 0
    &&& e.len > 0
    &&& e.base + e.len <= 0x1_0000_0000
}

/// Two entries' ranges are disjoint.
pub open spec fn entries_disjoint(e1: MappingEntry, e2: MappingEntry) -> bool {
    e1.base + e1.len <= e2.base || e2.base + e2.len <= e1.base
}

/// Whether an address falls inside an entry's range.
pub open spec fn entry_contains(e: MappingEntry, addr: u32) -> bool {
    e.base <= addr < e.base + e.len
}

/// The address-space map.
pub struct Mapper {
    pub entries: Vec<MappingEntry>,
}

/// First-match lookup, scanning entries from index `i` on.
pub open spec fn spec_lookup_from(s: Seq<MappingEntry>, addr: u32, i: int) -> Option<(u32, u32)>
    decreases s.len() - i,
{
    if i < 0 || i >= s.len() {
        None
    } else if entry_contains(s[i], addr) {
        Some((s[i].dev, (addr - s[i].base) as u32))
    } else {
        spec_lookup_from(s, addr, i + 1)
    }
}

/// What the mapper reports for an address: the device index and local offset
/// of the entry containing it, or nothing when the address is unmapped.
pub open spec fn spec_lookup(s: Seq<MappingEntry>, addr: u32) -> Option<(u32, u32)> {
    spec_lookup_from(s, addr, 0)
}

impl Mapper {
    /// Well-formed: every entry is, ranges are pairwise disjoint, and every
    /// device is mapped at most once.
    pub open spec fn wf(&self) -> bool {
        &&& forall|i: int| 0 <= i < self.entries@.len() ==> entry_wf(#[trigger] self.entries@[i])
        &&& forall|i: int, j: int| 0 <= i < j < self.entries@.len()
            ==> entries_disjoint(#[trigger] self.entries@[i], #[trigger] self.entries@[j])
        &&& forall|i: int, j: int| 0 <= i < j < self.entries@.len()
            ==> (#[trigger] self.entries@[i]).dev != (#[trigger] self.entries@[j]).dev
    }

    /// An empty map.
    pub fn new() -> (m: Self)
        ensures
            m.entries@ == Seq::<MappingEntry>::empty(),
            m.wf(),
    {
        Mapper { entries: Vec::new() }
    }

    /// The mapping entries, in placement order.
    pub fn entries(&self) -> (e: &Vec<MappingEntry>)
        ensures e@ == self.entries@,
    {
        &self.entries
    }

    /// Translate a guest address to the device index and local offset of the
    /// range containing it.
    pub fn lookup(&self, addr: u32) -> (r: Option<(u32, u32)>)
        ensures r == spec_lookup(self.entries@, addr),
    {
        let n = self.entries.len();
        let mut i: usize = 0;
        while i < n
            invariant
                n == self.entries@.len(),
                i <= n,
                spec_lookup(self.entries@, addr) == spec_lookup_from(self.entries@, addr, i as int),
            decreases n - i,
        {
            let e = self.entries[i];
            if e.base <= addr && addr - e.base < e.len {
                return Some((e.dev, addr - e.base));
            }
            i = i + 1;
        }
        None
    }
}

/// A successful lookup names the entry that contains the address, and hands
/// back the offset of the address inside that entry's range.
pub proof fn lemma_lookup_some(s: Seq<MappingEntry>, addr: u32, i: int)
    requires spec_lookup_from(s, addr, i) is Some,
    ensures ({
        let (d, off) = spec_lookup_from(s, addr, i)->Some_0;
        exists|k: int| i <= k < s.len() && entry_contains(#[trigger] s[k], addr)
            && s[k].dev == d && off == addr - s[k].base
    }),
    decreases s.len() - i,
{
    if 0 <= i < s.len() && !entry_contains(s[i], addr) {
        lemma_lookup_some(s, addr, i + 1);
    }
}

/// A failed lookup means no entry contains the address.
pub proof fn lemma_lookup_none(s: Seq<MappingEntry>, addr: u32, i: int)
    requires
        spec_lookup_from(s, addr, i) is None,
        i >= 0,
    ensures forall|k: int| i <= k < s.len() ==> !entry_contains(#[trigger] s[k], addr),
    decreases s.len() - i,
{
    if i < s.len() {
        lemma_lookup_none(s, addr, i + 1);
    }
}

/// An entry containing the address makes the lookup succeed.
pub proof fn lemma_contains_lookup(s: Seq<MappingEntry>, addr: u32, k: int)
    requires
        0 <= k < s.len(),
        entry_contains(s[k], addr),
    ensures spec_lookup(s, addr) is Some,
{
    if spec_lookup(s, addr) is None {
        lemma_lookup_none(s, addr, 0);
    }
}

/// Boundary alignment law: in a well-formed map, every address at which a
/// mapped range begins or ends is word-aligned, and so is every local offset
/// the mapper reports for a word-aligned address.
pub proof fn lemma_mapped_ranges_aligned(m: Mapper, addr: u32)
    requires m.wf(),
    ensures
        forall|i: int| 0 <= i < m.entries@.len() ==> (#[trigger] m.entries@[i]).base % 4 == 0
            && (m.entries@[i].base + m.entries@[i].len) % 4 == 0,
        addr % 4 == 0 ==> (spec_lookup(m.entries@, addr) matches Some(r) ==> r.1 % 4 == 0),
{
    if spec_lookup(m.entries@, addr) is Some {
        lemma_lookup_some(m.entries@, addr, 0);
    }
}

/// Disjointness law: in a well-formed map, the ranges of any two distinct
/// mapping entries are disjoint.
pub proof fn lemma_mapped_ranges_disjoint(m: Mapper, i: int, j: int)
    requires
        m.wf(),
        0 <= i < m.entries@.len(),
        0 <= j < m.entries@.len(),
        i != j,
    ensures
        entries_disjoint(m.entries@[i], m.entries@[j]),
        forall|a: u32| entry_contains(m.entries@[i], a) ==> !entry_contains(m.entries@[j], a),
{
}

} // verus!
