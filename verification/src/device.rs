//! Devices and the bus contract.
//!
//! Every device occupies a nonzero, 4-byte-multiple number of bytes in the
//! guest address space and answers word-sized bus reads and writes at
//! word-aligned local offsets. A device reports a failure by setting the
//! 16-bit exception out-parameter to a nonzero code; zero means success.
//! Devices are dispatched through the [`Device`] enum, one case per device
//! kind.

use vstd::prelude::*;
use crate::metadata::{DeviceCategory, DeviceMetadata, MemoryType, spec_metadata_words, spec_category_code, spec_type_code};

verus! {

/// Volatile memory: simple non-persistent storage, zeroed on every reset.
pub struct VolatileMem {
    pub storage: Vec<u32>,
    pub hw_id: u64,
}

impl VolatileMem {
    /// Well-formed: nonzero storage whose byte size fits in 32 bits.
    pub open spec fn wf(&self) -> bool {
        1 <= self.storage@.len() <= 0x3FFF_FFFF
    }

    /// The device's size in bytes.
    pub open spec fn spec_size(&self) -> u32
        recommends self.wf(),
    {
        (4 * self.storage@.len()) as u32
    }

    /// Create a zeroed volatile memory of `size` bytes. The size must be a
    /// nonzero multiple of 4 bytes.
    pub fn new(size: u32, hw_id: u64) -> (r: Result<Self, &'static str>)
        ensures
            r is Err <==> (size == 0 || size % 4 != 0),
            r matches Ok(m) ==> {
                &&& m.wf()
                &&& m.hw_id == hw_id
                &&& m.spec_size() == size
                &&& m.storage@ == Seq::new((size / 4) as nat, |i: int| 0u32)
            },
    {
        if size == 0 {
            Err("Volatile memory's size cannot be 0")
        } else if size % 4 != 0 {
            Err("Volatile memory's size must be a multiple of 4 bytes")
        } else {
            let m = VolatileMem { storage: vec![0u32; (size / 4) as usize], hw_id };
            proof {
                assert(m.storage@ =~= Seq::new((size / 4) as nat, |i: int| 0u32));
            }
            Ok(m)
        }
    }

    /// Create a volatile memory from the provided storage, which must be
    /// nonzero and hold at most 2^30 - 1 words.
    pub fn from(storage: Vec<u32>, hw_id: u64) -> (r: Result<Self, &'static str>)
        ensures
            r is Err <==> (storage@.len() == 0 || storage@.len() > 0x3FFF_FFFF),
            r matches Ok(m) ==> m.wf() && m.hw_id == hw_id && m.storage@ == storage@,
    {
        if storage.len() == 0 {
            Err("Volatile memory's size cannot be 0")
        } else if storage.len() > 0x3FFF_FFFF {
            Err("Volatile memory's size cannot exceed the 32-bit address space")
        } else {
            Ok(VolatileMem { storage, hw_id })
        }
    }

    /// Create a volatile memory of `size` bytes whose first words are the
    /// provided storage; the rest is zeroed. The size must be a nonzero
    /// multiple of 4 bytes, at least large enough for the storage.
    pub fn from_with_size(storage: Vec<u32>, size: u32, hw_id: u64) -> (r: Result<Self, &'static str>)
        ensures
            r is Err <==> (size == 0 || size % 4 != 0 || 4 * storage@.len() > size),
            r matches Ok(m) ==> {
                &&& m.wf()
                &&& m.hw_id == hw_id
                &&& m.spec_size() == size
                &&& m.storage@ == storage@ + Seq::new((size / 4 - storage@.len()) as nat, |i: int| 0u32)
            },
    {
        if size == 0 {
            Err("Volatile memory's size cannot be 0")
        } else if size % 4 != 0 {
            Err("Volatile memory's size must be a multiple of 4 bytes")
        } else if storage.len() > (size / 4) as usize {
            Err("Volatile memory's size cannot be lower than its initial storage's size")
        } else {
            let mut storage = storage;
            let ghost given = storage@;
            storage.resize((size / 4) as usize, 0u32);
            proof {
                assert(storage@ =~= given + Seq::new((size / 4 - given.len()) as nat, |i: int| 0u32));
            }
            Ok(VolatileMem { storage, hw_id })
        }
    }

    /// The volatile memory's size in bytes.
    pub fn size(&self) -> (s: u32)
        requires self.wf(),
        ensures s == self.spec_size(),
    {
        4 * self.storage.len() as u32
    }

    /// The device's display name.
    pub fn name(&self) -> (n: &'static str)
        ensures n@ == "Volatile Memory"@,
    {
        "Volatile Memory"
    }

    /// The device's metadata block.
    pub fn metadata(&self) -> (w: [u32; 8])
        requires self.wf(),
        ensures w@ == spec_metadata_words(
            DeviceMetadata {
                hw_id: self.hw_id,
                size: self.spec_size(),
                category: DeviceCategory::Memory(MemoryType::Volatile),
                extra: 0,
            },
        ),
    {
        DeviceMetadata::new(
            self.hw_id,
            self.size(),
            DeviceCategory::Memory(MemoryType::Volatile),
            0,
        ).encode()
    }

    /// Read the word at a local byte offset. Never fails.
    pub fn read(&mut self, addr: u32, ex: &mut u16) -> (w: u32)
        requires
            old(self).wf(),
            addr < old(self).spec_size(),
        ensures
            *final(self) == *old(self),
            *final(ex) == *old(ex),
            w == old(self).storage@[addr as int / 4],
    {
        self.storage[(addr / 4) as usize]
    }

    /// Write a word at a local byte offset. Never fails.
    pub fn write(&mut self, addr: u32, word: u32, ex: &mut u16)
        requires
            old(self).wf(),
            addr < old(self).spec_size(),
        ensures
            final(self).storage@ == old(self).storage@.update(addr as int / 4, word),
            final(self).hw_id == old(self).hw_id,
            *final(ex) == *old(ex),
    {
        self.storage.set((addr / 4) as usize, word);
    }

    /// Zero the whole storage.
    pub fn reset(&mut self)
        requires old(self).wf(),
        ensures
            final(self).storage@ == Seq::new(old(self).storage@.len(), |i: int| 0u32),
            final(self).hw_id == old(self).hw_id,
    {
        let n = self.storage.len();
        let mut i: usize = 0;
        while i < n
            invariant
                n == self.storage@.len(),
                i <= n,
                self.hw_id == old(self).hw_id,
                forall|j: int| 0 <= j < i ==> self.storage@[j] == 0u32,
            decreases n - i,
        {
            self.storage.set(i, 0u32);
            i = i + 1;
        }
        proof {
            assert(self.storage@ =~= Seq::new(old(self).storage@.len(), |j: int| 0u32));
        }
    }
}

/// A device attached to the motherboard, dispatched by kind.
pub enum Device {
    Volatile(VolatileMem),
}

impl Device {
    /// Well-formed: the inner device is.
    pub open spec fn wf(&self) -> bool {
        match self {
            Device::Volatile(m) => m.wf(),
        }
    }

    /// The device's stored words.
    pub open spec fn contents(&self) -> Seq<u32> {
        match self {
            Device::Volatile(m) => m.storage@,
        }
    }

    /// The device's size in bytes.
    pub open spec fn spec_size(&self) -> u32
        recommends self.wf(),
    {
        (4 * self.contents().len()) as u32
    }

    /// The device's category.
    pub open spec fn spec_category(&self) -> DeviceCategory {
        match self {
            Device::Volatile(_) => DeviceCategory::Memory(MemoryType::Volatile),
        }
    }

    /// Whether two devices differ only in their stored words.
    pub open spec fn same_shape(a: Device, b: Device) -> bool {
        &&& b.contents().len() == a.contents().len()
        &&& b.spec_category() == a.spec_category()
        &&& match (a, b) {
            (Device::Volatile(m1), Device::Volatile(m2)) => m1.hw_id == m2.hw_id,
        }
    }

    /// The device's size in bytes: nonzero and a multiple of 4.
    pub fn size(&self) -> (s: u32)
        requires self.wf(),
        ensures
            s == self.spec_size(),
            s > 0,
            s % 4 == 0,
    {
        match self {
            Device::Volatile(m) => m.size(),
        }
    }

    /// The device's display name.
    pub fn name(&self) -> (n: &'static str)
        ensures match self {
            Device::Volatile(_) => n@ == "Volatile Memory"@,
        },
    {
        match self {
            Device::Volatile(m) => m.name(),
        }
    }

    /// The device's metadata block.
    pub fn metadata(&self) -> (w: [u32; 8])
        requires self.wf(),
        ensures match self {
            Device::Volatile(m) => w@ == spec_metadata_words(
                DeviceMetadata {
                    hw_id: m.hw_id,
                    size: self.spec_size(),
                    category: DeviceCategory::Memory(MemoryType::Volatile),
                    extra: 0,
                },
            ),
        },
    {
        match self {
            Device::Volatile(m) => m.metadata(),
        }
    }

    /// The category code of this device's category.
    pub fn category_code(&self) -> (c: u32)
        ensures c == spec_category_code(self.spec_category()),
    {
        match self {
            Device::Volatile(_) => 0x1,
        }
    }

    /// The type code of this device's category.
    pub fn type_code(&self) -> (c: u32)
        ensures c == spec_type_code(self.spec_category()),
    {
        match self {
            Device::Volatile(_) => 0x0000_0100,
        }
    }

    /// Bus read of the word at a word-aligned local offset. The exception
    /// out-parameter is left at zero on success; no device in this set ever
    /// fails a read.
    pub fn read(&mut self, addr: u32, ex: &mut u16) -> (w: u32)
        requires
            old(self).wf(),
            addr < old(self).spec_size(),
        ensures
            *final(self) == *old(self),
            *final(ex) == *old(ex),
            w == old(self).contents()[addr as int / 4],
    {
        match self {
            Device::Volatile(m) => m.read(addr, ex),
        }
    }

    /// Bus write of a word at a word-aligned local offset. No device in this
    /// set ever fails a write.
    pub fn write(&mut self, addr: u32, word: u32, ex: &mut u16)
        requires
            old(self).wf(),
            addr < old(self).spec_size(),
        ensures
            final(self).contents() == old(self).contents().update(addr as int / 4, word),
            Device::same_shape(*old(self), *final(self)),
            final(self).wf(),
            *final(ex) == *old(ex),
    {
        match self {
            Device::Volatile(m) => m.write(addr, word, ex),
        }
    }

    /// Clear the device's volatile state.
    pub fn reset(&mut self)
        requires old(self).wf(),
        ensures
            final(self).contents() == Seq::new(old(self).contents().len(), |i: int| 0u32),
            Device::same_shape(*old(self), *final(self)),
            final(self).wf(),
    {
        match self {
            Device::Volatile(m) => m.reset(),
        }
    }
}

} // verus!
