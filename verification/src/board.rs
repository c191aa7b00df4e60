//! The motherboard: owner of the devices, the address-space map and the CPU.
//!
//! The motherboard mediates every bus transaction: it rejects misaligned
//! addresses, translates mapped addresses to a device and a local offset,
//! and dispatches the word-sized read or write to the device.

use vstd::prelude::*;
use crate::cpu::Cpu;
use crate::device::Device;
use crate::mapper::{
    Mapper, MappingEntry, MappingError, entries_disjoint, entry_wf,
    spec_lookup, lemma_lookup_some,
};

verus! {

/// Why a bus transaction failed.
#[derive(Copy, Clone, Debug, PartialEq, Eq, Structural)]
pub enum BusError {
    /// The guest address is not word-aligned.
    Unaligned,
    /// The guest address is not mapped to any device.
    Unmapped,
    /// The device refused the access: its 16-bit exception code, its category
    /// code, and its type code.
    Device(u16, u32, u32),
}

/// The byte size of the device a list entry names; zero for an index out of
/// range (such an index is itself rejected).
pub open spec fn spec_size_at(devs: Seq<Device>, idxs: Seq<u32>, j: int) -> int {
    if 0 <= j < idxs.len() && idxs[j] < devs.len() {
        devs[idxs[j] as int].spec_size() as int
    } else {
        0
    }
}

/// The total byte size of the first `k` devices of a placement list.
pub open spec fn spec_csum(devs: Seq<Device>, idxs: Seq<u32>, k: int) -> int
    decreases k,
{
    if k <= 0 {
        0
    } else {
        spec_csum(devs, idxs, k - 1) + spec_size_at(devs, idxs, k - 1)
    }
}

/// The mapping entry that back-to-back placement starting at `base` gives the
/// `k`-th listed device.
pub open spec fn spec_centry(devs: Seq<Device>, idxs: Seq<u32>, base: u32, k: int) -> MappingEntry {
    MappingEntry {
        base: (base + spec_csum(devs, idxs, k)) as u32,
        len: spec_size_at(devs, idxs, k) as u32,
        dev: idxs[k],
    }
}

/// When contiguous placement succeeds: the base is word-aligned, every index
/// names a device, the placements stay inside the 32-bit address space, no
/// placement touches an already mapped range or an already mapped device, and
/// no device is listed twice.
pub open spec fn spec_can_map(
    devs: Seq<Device>,
    entries: Seq<MappingEntry>,
    base: u32,
    idxs: Seq<u32>,
) -> bool {
    &&& base % 4 == 0
    &&& forall|k: int| 0 <= k < idxs.len() ==> (#[trigger] idxs[k]) < devs.len()
    &&& base + spec_csum(devs, idxs, idxs.len() as int) <= 0x1_0000_0000
    &&& forall|k: int, j: int| 0 <= k < idxs.len() && 0 <= j < entries.len()
        ==> entries_disjoint(#[trigger] spec_centry(devs, idxs, base, k), #[trigger] entries[j])
            && spec_centry(devs, idxs, base, k).dev != entries[j].dev
    &&& forall|k1: int, k2: int| 0 <= k1 < k2 < idxs.len()
        ==> #[trigger] idxs[k1] != #[trigger] idxs[k2]
}

/// The placement total only grows with the list.
proof fn lemma_csum_mono(devs: Seq<Device>, idxs: Seq<u32>, j: int, k: int)
    requires j <= k,
    ensures spec_csum(devs, idxs, j) <= spec_csum(devs, idxs, k),
    decreases k - j,
{
    if j < k {
        lemma_csum_mono(devs, idxs, j, k - 1);
        assert(spec_size_at(devs, idxs, k - 1) >= 0);
    }
}

/// The motherboard.
pub struct Motherboard {
    pub devices: Vec<Device>,
    pub mapper: Mapper,
    pub cpu: Cpu,
}

impl Motherboard {
    /// Well-formed: the CPU, every device and the map are; every mapping
    /// entry names a device and spans exactly that device's size.
    pub open spec fn wf(&self) -> bool {
        &&& self.cpu.wf()
        &&& self.mapper.wf()
        &&& forall|i: int| 0 <= i < self.devices@.len() ==> (#[trigger] self.devices@[i]).wf()
        &&& forall|i: int| 0 <= i < self.mapper.entries@.len() ==> {
            let e = #[trigger] self.mapper.entries@[i];
            e.dev < self.devices@.len() && e.len == self.devices@[e.dev as int].spec_size()
        }
    }

    /// What the mapper reports for a guest address.
    pub open spec fn spec_lookup_addr(&self, addr: u32) -> Option<(u32, u32)> {
        spec_lookup(self.mapper.entries@, addr)
    }

    /// Whether a word-sized access at this guest address reaches a device.
    pub open spec fn spec_mem_mapped(&self, addr: u32) -> bool {
        addr % 4 == 0 && self.spec_lookup_addr(addr) is Some
    }

    /// The word stored at a mapped guest address.
    pub open spec fn spec_mem_word(&self, addr: u32) -> u32 {
        match self.spec_lookup_addr(addr) {
            Some((d, off)) => self.devices@[d as int].contents()[off as int / 4],
            None => 0,
        }
    }

    /// Build a motherboard from its devices, with an empty address-space map
    /// and a zeroed CPU.
    pub fn new(devices: Vec<Device>) -> (m: Self)
        requires forall|i: int| 0 <= i < devices@.len() ==> (#[trigger] devices@[i]).wf(),
        ensures
            m.wf(),
            m.devices == devices,
            m.mapper.entries@ == Seq::<MappingEntry>::empty(),
            crate::cpu::cpu_zeroed(m.cpu),
    {
        Motherboard { devices, mapper: Mapper::new(), cpu: Cpu::new() }
    }

    /// The embedded CPU.
    pub fn cpu(&self) -> (c: &Cpu)
        ensures c == &self.cpu,
    {
        &self.cpu
    }

    /// Place the listed devices back-to-back starting at `base`. Either every
    /// placement succeeds and all are committed, or none is and the map is
    /// left as it was.
    #[verifier::loop_isolation(false)]
    pub fn map_contiguous(&mut self, base: u32, indexes: &Vec<u32>) -> (r: Result<(), MappingError>)
        requires old(self).wf(),
        ensures
            final(self).wf(),
            final(self).cpu == old(self).cpu,
            final(self).devices == old(self).devices,
            r is Ok <==> spec_can_map(old(self).devices@, old(self).mapper.entries@, base, indexes@),
            r is Ok ==> final(self).mapper.entries@ == old(self).mapper.entries@
                + Seq::new(indexes@.len(), |k: int| spec_centry(old(self).devices@, indexes@, base, k)),
            r is Err ==> final(self).mapper.entries@ == old(self).mapper.entries@,
            r == Err::<(), MappingError>(MappingError::BaseMisaligned) ==> base % 4 != 0,
    {
        let ghost devs = self.devices@;
        let ghost old_entries = self.mapper.entries@;
        let ghost idxs = indexes@;
        if base % 4 != 0 {
            return Err(MappingError::BaseMisaligned);
        }
        let old_len = self.mapper.entries.len();
        let mut cursor: u64 = base as u64;
        let mut k: usize = 0;
        while k < indexes.len()
            invariant
                self.wf(),
                self.devices == old(self).devices,
                self.cpu == old(self).cpu,
                k <= idxs.len(),
                cursor == base + spec_csum(devs, idxs, k as int),
                cursor <= 0x1_0000_0000,
                cursor % 4 == 0,
                self.mapper.entries@.len() == old_len + k,
                forall|j: int| 0 <= j < old_len ==> self.mapper.entries@[j] == old_entries[j],
                forall|j: int| 0 <= j < k ==> self.mapper.entries@[old_len + j]
                    == spec_centry(devs, idxs, base, j),
                forall|j: int| 0 <= j < k ==> (#[trigger] idxs[j]) < devs.len(),
            decreases idxs.len() - k,
        {
            let idx = indexes[k];
            if idx as usize >= self.devices.len() {
                self.mapper.entries.truncate(old_len);
                proof {
                    assert(self.mapper.entries@ =~= old_entries);
                    assert(!(idxs[k as int] < devs.len()));
                }
                return Err(MappingError::DeviceOutOfRange);
            }
            let size = self.devices[idx as usize].size();
            if cursor + size as u64 > 0x1_0000_0000u64 {
                proof {
                    assert(spec_size_at(devs, idxs, k as int) == size);
                    assert(cursor + size == base + spec_csum(devs, idxs, k as int + 1));
                    lemma_csum_mono(devs, idxs, k as int + 1, idxs.len() as int);
                }
                self.mapper.entries.truncate(old_len);
                proof {
                    assert(self.mapper.entries@ =~= old_entries);
                }
                return Err(MappingError::AddressSpaceOverflow);
            }
            let entry = MappingEntry { base: cursor as u32, len: size, dev: idx };
            proof {
                assert(entry == spec_centry(devs, idxs, base, k as int));
                assert(entry_wf(entry));
            }
            // Check the new range against every committed entry, the ones
            // just placed included.
            match find_conflict(&self.mapper.entries, entry) {
                Some(j) => {
                    proof {
                        if j >= old_len {
                            // An overlap with a freshly placed range is
                            // impossible: placements are contiguous. So the
                            // hit is a repeated device index.
                            let t = j - old_len;
                            assert(self.mapper.entries@[j as int] == spec_centry(devs, idxs, base, t as int));
                            assert(spec_size_at(devs, idxs, t as int) == devs[idxs[t as int] as int].spec_size());
                            assert(base + spec_csum(devs, idxs, t as int) + spec_size_at(devs, idxs, t as int)
                                == base + spec_csum(devs, idxs, t as int + 1));
                            lemma_csum_mono(devs, idxs, 0, t as int);
                            lemma_csum_mono(devs, idxs, t as int + 1, k as int);
                            assert((base + spec_csum(devs, idxs, t as int)) as u32
                                == base + spec_csum(devs, idxs, t as int));
                            assert(entries_disjoint(entry, self.mapper.entries@[j as int]));
                            assert(idxs[t as int] == idxs[k as int]);
                            assert(!spec_can_map(devs, old_entries, base, idxs));
                        } else {
                            assert(self.mapper.entries@[j as int] == old_entries[j as int]);
                            assert(!spec_can_map(devs, old_entries, base, idxs));
                        }
                    }
                    self.mapper.entries.truncate(old_len);
                    proof {
                        assert(self.mapper.entries@ =~= old_entries);
                    }
                    return Err(MappingError::Overlap);
                },
                None => {},
            }
            let ghost pre = self.mapper.entries@;
            self.mapper.entries.push(entry);
            proof {
                let es = self.mapper.entries@;
                assert forall|i1: int, i2: int| 0 <= i1 < i2 < es.len()
                    implies entries_disjoint(#[trigger] es[i1], #[trigger] es[i2])
                        && es[i1].dev != es[i2].dev by {
                    if i2 == pre.len() {
                        assert(es[i1] == pre[i1]);
                        assert(es[i2] == entry);
                        assert(entries_disjoint(entry, pre[i1]) && entry.dev != pre[i1].dev);
                    } else {
                        assert(es[i1] == pre[i1] && es[i2] == pre[i2]);
                    }
                }
                assert(spec_size_at(devs, idxs, k as int) == size);
            }
            cursor = cursor + size as u64;
            k = k + 1;
        }
        proof {
            assert(spec_can_map(devs, old_entries, base, idxs)) by {
                assert forall|k1: int, k2: int| 0 <= k1 < k2 < idxs.len()
                    implies #[trigger] idxs[k1] != #[trigger] idxs[k2] by {
                    assert(self.mapper.entries@[old_len + k1] == spec_centry(devs, idxs, base, k1));
                    assert(self.mapper.entries@[old_len + k2] == spec_centry(devs, idxs, base, k2));
                    assert(self.mapper.entries@[old_len + k1].dev != self.mapper.entries@[old_len + k2].dev);
                }
                assert forall|t: int, j: int| 0 <= t < idxs.len() && 0 <= j < old_entries.len()
                    implies entries_disjoint(#[trigger] spec_centry(devs, idxs, base, t), #[trigger] old_entries[j])
                        && spec_centry(devs, idxs, base, t).dev != old_entries[j].dev by {
                    assert(self.mapper.entries@[old_len + t] == spec_centry(devs, idxs, base, t));
                    assert(self.mapper.entries@[j] == old_entries[j]);
                    assert(entries_disjoint(self.mapper.entries@[old_len + t], self.mapper.entries@[j]));
                }
            }
            assert(self.mapper.entries@ =~= old_entries
                + Seq::new(idxs.len(), |k: int| spec_centry(devs, idxs, base, k)));
        }
        Ok(())
    }

    /// Reset every device and zero the CPU: every RAM-type device reads as
    /// zero at every valid offset afterwards, `pc == 0` and `ec == 0`. The
    /// address-space map is kept.
    pub fn reset(&mut self)
        requires old(self).wf(),
        ensures
            final(self).wf(),
            final(self).mapper == old(self).mapper,
            crate::cpu::cpu_zeroed(final(self).cpu),
            final(self).devices@.len() == old(self).devices@.len(),
            forall|i: int| 0 <= i < old(self).devices@.len() ==> {
                &&& (#[trigger] final(self).devices@[i]).contents()
                    == Seq::new(old(self).devices@[i].contents().len(), |j: int| 0u32)
                &&& Device::same_shape(old(self).devices@[i], final(self).devices@[i])
            },
    {
        let n = self.devices.len();
        let mut i: usize = 0;
        while i < n
            invariant
                n == self.devices@.len(),
                n == old(self).devices@.len(),
                i <= n,
                self.mapper == old(self).mapper,
                self.cpu == old(self).cpu,
                old(self).wf(),
                forall|t: int| i <= t < n ==> self.devices@[t] == old(self).devices@[t],
                forall|t: int| 0 <= t < i ==> {
                    &&& (#[trigger] self.devices@[t]).contents()
                        == Seq::new(old(self).devices@[t].contents().len(), |j: int| 0u32)
                    &&& Device::same_shape(old(self).devices@[t], self.devices@[t])
                    &&& self.devices@[t].wf()
                },
            decreases n - i,
        {
            let dev = vec_el_mut(&mut self.devices, i);
            dev.reset();
            i = i + 1;
        }
        self.cpu.reset();
        proof {
            assert forall|t: int| 0 <= t < self.mapper.entries@.len() implies {
                let e = #[trigger] self.mapper.entries@[t];
                e.dev < self.devices@.len() && e.len == self.devices@[e.dev as int].spec_size()
            } by {
                let e = self.mapper.entries@[t];
                assert(Device::same_shape(old(self).devices@[e.dev as int], self.devices@[e.dev as int]));
            }
        }
    }

    /// Bus read of the word at a guest address: misaligned addresses raise
    /// `Unaligned`, unmapped addresses `Unmapped`; otherwise the word the
    /// containing device stores at the translated offset comes back, and
    /// nothing changes.
    pub fn mem_read(&mut self, addr: u32) -> (r: Result<u32, BusError>)
        requires old(self).wf(),
        ensures
            final(self).devices@ == old(self).devices@,
            final(self).mapper == old(self).mapper,
            final(self).cpu == old(self).cpu,
            addr % 4 != 0 ==> r == Err::<u32, BusError>(BusError::Unaligned),
            addr % 4 == 0 && old(self).spec_lookup_addr(addr) is None
                ==> r == Err::<u32, BusError>(BusError::Unmapped),
            old(self).spec_mem_mapped(addr) ==> r == Ok::<u32, BusError>(old(self).spec_mem_word(addr)),
    {
        if addr % 4 != 0 {
            return Err(BusError::Unaligned);
        }
        match self.mapper.lookup(addr) {
            None => Err(BusError::Unmapped),
            Some((d, off)) => {
                proof {
                    lemma_lookup_some(self.mapper.entries@, addr, 0);
                }
                let mut ex: u16 = 0;
                let dev = vec_el_mut(&mut self.devices, d as usize);
                let w = dev.read(off, &mut ex);
                proof {
                    assert(self.devices@ =~= old(self).devices@);
                }
                if ex != 0 {
                    let code = ex;
                    let cat = self.devices[d as usize].category_code();
                    let ty = self.devices[d as usize].type_code();
                    return Err(BusError::Device(code, cat, ty));
                }
                Ok(w)
            },
        }
    }

    /// Bus write of a word at a guest address: misaligned addresses raise
    /// `Unaligned`, unmapped addresses `Unmapped`; otherwise the containing
    /// device's stored word at the translated offset is replaced and nothing
    /// else changes.
    pub fn mem_write(&mut self, addr: u32, word: u32) -> (r: Result<(), BusError>)
        requires old(self).wf(),
        ensures
            final(self).wf(),
            final(self).mapper == old(self).mapper,
            final(self).cpu == old(self).cpu,
            final(self).devices@.len() == old(self).devices@.len(),
            addr % 4 != 0 ==> r == Err::<(), BusError>(BusError::Unaligned),
            addr % 4 == 0 && old(self).spec_lookup_addr(addr) is None
                ==> r == Err::<(), BusError>(BusError::Unmapped),
            r is Err ==> final(self).devices@ == old(self).devices@,
            old(self).spec_mem_mapped(addr) ==> r is Ok,
            r is Ok ==> old(self).spec_mem_mapped(addr) && ({
                let (d, off) = old(self).spec_lookup_addr(addr)->Some_0;
                &&& final(self).devices@ == old(self).devices@.update(
                    d as int,
                    final(self).devices@[d as int],
                )
                &&& final(self).devices@[d as int].contents()
                    == old(self).devices@[d as int].contents().update(off as int / 4, word)
                &&& Device::same_shape(old(self).devices@[d as int], final(self).devices@[d as int])
            }),
    {
        if addr % 4 != 0 {
            return Err(BusError::Unaligned);
        }
        match self.mapper.lookup(addr) {
            None => Err(BusError::Unmapped),
            Some((d, off)) => {
                proof {
                    lemma_lookup_some(self.mapper.entries@, addr, 0);
                }
                let mut ex: u16 = 0;
                let dev = vec_el_mut(&mut self.devices, d as usize);
                dev.write(off, word, &mut ex);
                proof {
                    assert(final(self).devices@ =~= old(self).devices@.update(
                        d as int,
                        final(self).devices@[d as int],
                    ));
                }
                Ok(())
            },
        }
    }
}

/// Find a committed entry whose range intersects the new entry's, or which
/// maps the same device.
fn find_conflict(entries: &Vec<MappingEntry>, entry: MappingEntry) -> (c: Option<usize>)
    ensures
        c matches Some(j) ==> j < entries@.len()
            && (!entries_disjoint(entry, entries@[j as int]) || entry.dev == entries@[j as int].dev),
        c is None ==> forall|t: int| 0 <= t < entries@.len()
            ==> entries_disjoint(entry, #[trigger] entries@[t]) && entry.dev != entries@[t].dev,
{
    let n = entries.len();
    let mut j: usize = 0;
    while j < n
        invariant
            n == entries@.len(),
            j <= n,
            forall|t: int| 0 <= t < j
                ==> entries_disjoint(entry, #[trigger] entries@[t]) && entry.dev != entries@[t].dev,
        decreases n - j,
    {
        let e = entries[j];
        let e_end = e.base as u64 + e.len as u64;
        let new_end = entry.base as u64 + entry.len as u64;
        if !(e_end <= entry.base as u64 || new_end <= e.base as u64) || e.dev == entry.dev {
            return Some(j);
        }
        j = j + 1;
    }
    None
}

/// A mutable borrow of one element of a device list.
fn vec_el_mut(v: &mut Vec<Device>, i: usize) -> (element: &mut Device)
    requires i < old(v)@.len(),
    ensures
        *element == old(v)@[i as int],
        final(v)@ == old(v)@.update(i as int, *final(element)),
{
    &mut v[i]
}

} // verus!
