//! Device metadata: category and type codes, and the 8-word descriptor every
//! device exposes on the bus.
//!
//! A category encodes to a 64-bit value whose high 32 bits are the category
//! code (`Memory = 0x1`, `Storage = 0x2`, `Display = 0x3`, `Keyboard = 0x4`,
//! `Clock = 0x5`) and whose low 32 bits are the category-specific type code.

use vstd::prelude::*;

verus! {

/// Types of clock devices.
#[non_exhaustive]
#[derive(Copy, Clone, Debug, PartialEq, Eq, Structural)]
pub enum ClockType {
    Realtime,
}

/// Types of display devices.
#[non_exhaustive]
#[derive(Copy, Clone, Debug, PartialEq, Eq, Structural)]
pub enum DisplayType {
    Number,
    Buffered,
}

/// Types of keyboard devices.
#[non_exhaustive]
#[derive(Copy, Clone, Debug, PartialEq, Eq, Structural)]
pub enum KeyboardType {
    ReadlineSynchronous,
}

/// Types of memory devices.
#[non_exhaustive]
#[derive(Copy, Clone, Debug, PartialEq, Eq, Structural)]
pub enum MemoryType {
    Volatile,
}

/// Types of storage devices.
#[non_exhaustive]
#[derive(Copy, Clone, Debug, PartialEq, Eq, Structural)]
pub enum StorageType {
    Readonly,
    Flash,
    Persistent,
}

/// A device's category, together with its type inside the category.
#[derive(Copy, Clone, Debug, PartialEq, Eq, Structural)]
pub enum DeviceCategory {
    Memory(MemoryType),
    Storage(StorageType),
    Display(DisplayType),
    Keyboard(KeyboardType),
    Clock(ClockType),
}

pub open spec fn spec_category_code(c: DeviceCategory) -> u32 {
    match c {
        DeviceCategory::Memory(_) => 0x1,
        DeviceCategory::Storage(_) => 0x2,
        DeviceCategory::Display(_) => 0x3,
        DeviceCategory::Keyboard(_) => 0x4,
        DeviceCategory::Clock(_) => 0x5,
    }
}

pub open spec fn spec_type_code(c: DeviceCategory) -> u32 {
    match c {
        DeviceCategory::Memory(MemoryType::Volatile) => 0x0000_0100,
        DeviceCategory::Storage(StorageType::Readonly) => 0x0000_0100,
        DeviceCategory::Storage(StorageType::Flash) => 0x0000_0011,
        DeviceCategory::Storage(StorageType::Persistent) => 0x0000_0021,
        DeviceCategory::Display(DisplayType::Number) => 0x0000_0001,
        DeviceCategory::Display(DisplayType::Buffered) => 0x0000_0100,
        DeviceCategory::Keyboard(KeyboardType::ReadlineSynchronous) => 0x0000_0100,
        DeviceCategory::Clock(ClockType::Realtime) => 0x0000_0001,
    }
}

/// The 64-bit encoding of a category: category code above type code.
pub open spec fn spec_category_encode(c: DeviceCategory) -> u64 {
    (spec_category_code(c) * 0x1_0000_0000 + spec_type_code(c)) as u64
}

impl DeviceCategory {
    /// The category's code: the high 32 bits of its 64-bit encoding.
    pub fn category_code(&self) -> (c: u32)
        ensures c == spec_category_code(*self),
    {
        match self {
            DeviceCategory::Memory(_) => 0x1,
            DeviceCategory::Storage(_) => 0x2,
            DeviceCategory::Display(_) => 0x3,
            DeviceCategory::Keyboard(_) => 0x4,
            DeviceCategory::Clock(_) => 0x5,
        }
    }

    /// The type code inside the category: the low 32 bits of the encoding.
    pub fn type_code(&self) -> (c: u32)
        ensures c == spec_type_code(*self),
    {
        match self {
            DeviceCategory::Memory(t) => t.code(),
            DeviceCategory::Storage(t) => t.code(),
            DeviceCategory::Display(t) => t.code(),
            DeviceCategory::Keyboard(t) => t.code(),
            DeviceCategory::Clock(t) => t.code(),
        }
    }

    /// Encode the category to its 64-bit value.
    pub fn encode(&self) -> (e: u64)
        ensures e == spec_category_encode(*self),
    {
        self.category_code() as u64 * 0x1_0000_0000 + self.type_code() as u64
    }
}

impl ClockType {
    /// The clock type a type code names; an unknown code is rejected.
    pub fn decode(code: u32) -> (r: Result<Self, ()>)
        ensures
            r matches Ok(t) ==> spec_type_code(DeviceCategory::Clock(t)) == code,
            r is Err <==> code != 0x0000_0001,
    {
        match code {
            0x0000_0001 => Ok(Self::Realtime),
            _ => Err(()),
        }
    }

    /// The type code of this clock type.
    pub fn code(&self) -> (c: u32)
        ensures c == spec_type_code(DeviceCategory::Clock(*self)),
    {
        match self {
            Self::Realtime => 0x0000_0001,
        }
    }

    /// Wrap the type into its device category.
    pub fn wrap(&self) -> (c: DeviceCategory)
        ensures c == DeviceCategory::Clock(*self),
    {
        DeviceCategory::Clock(*self)
    }

    /// The 64-bit category encoding of this type.
    pub fn encode(&self) -> (e: u64)
        ensures e == spec_category_encode(DeviceCategory::Clock(*self)),
    {
        self.wrap().encode()
    }
}

impl DisplayType {
    /// The display type a type code names; an unknown code is rejected.
    pub fn decode(code: u32) -> (r: Result<Self, ()>)
        ensures
            r matches Ok(t) ==> spec_type_code(DeviceCategory::Display(t)) == code,
            r is Err <==> (code != 0x0000_0001 && code != 0x0000_0100),
    {
        match code {
            0x0000_0001 => Ok(Self::Number),
            0x0000_0100 => Ok(Self::Buffered),
            _ => Err(()),
        }
    }

    /// The type code of this display type.
    pub fn code(&self) -> (c: u32)
        ensures c == spec_type_code(DeviceCategory::Display(*self)),
    {
        match self {
            Self::Number => 0x0000_0001,
            Self::Buffered => 0x0000_0100,
        }
    }

    /// Wrap the type into its device category.
    pub fn wrap(&self) -> (c: DeviceCategory)
        ensures c == DeviceCategory::Display(*self),
    {
        DeviceCategory::Display(*self)
    }

    /// The 64-bit category encoding of this type.
    pub fn encode(&self) -> (e: u64)
        ensures e == spec_category_encode(DeviceCategory::Display(*self)),
    {
        self.wrap().encode()
    }
}

impl KeyboardType {
    /// The keyboard type a type code names; an unknown code is rejected.
    pub fn decode(code: u32) -> (r: Result<Self, ()>)
        ensures
            r matches Ok(t) ==> spec_type_code(DeviceCategory::Keyboard(t)) == code,
            r is Err <==> code != 0x0000_0100,
    {
        match code {
            0x0000_0100 => Ok(Self::ReadlineSynchronous),
            _ => Err(()),
        }
    }

    /// The type code of this keyboard type.
    pub fn code(&self) -> (c: u32)
        ensures c == spec_type_code(DeviceCategory::Keyboard(*self)),
    {
        match self {
            Self::ReadlineSynchronous => 0x0000_0100,
        }
    }

    /// Wrap the type into its device category.
    pub fn wrap(&self) -> (c: DeviceCategory)
        ensures c == DeviceCategory::Keyboard(*self),
    {
        DeviceCategory::Keyboard(*self)
    }

    /// The 64-bit category encoding of this type.
    pub fn encode(&self) -> (e: u64)
        ensures e == spec_category_encode(DeviceCategory::Keyboard(*self)),
    {
        self.wrap().encode()
    }
}

impl MemoryType {
    /// The memory type a type code names; an unknown code is rejected.
    pub fn decode(code: u32) -> (r: Result<Self, ()>)
        ensures
            r matches Ok(t) ==> spec_type_code(DeviceCategory::Memory(t)) == code,
            r is Err <==> code != 0x0000_0100,
    {
        match code {
            0x0000_0100 => Ok(Self::Volatile),
            _ => Err(()),
        }
    }

    /// The type code of this memory type.
    pub fn code(&self) -> (c: u32)
        ensures c == spec_type_code(DeviceCategory::Memory(*self)),
    {
        match self {
            Self::Volatile => 0x0000_0100,
        }
    }

    /// Wrap the type into its device category.
    pub fn wrap(&self) -> (c: DeviceCategory)
        ensures c == DeviceCategory::Memory(*self),
    {
        DeviceCategory::Memory(*self)
    }

    /// The 64-bit category encoding of this type.
    pub fn encode(&self) -> (e: u64)
        ensures e == spec_category_encode(DeviceCategory::Memory(*self)),
    {
        self.wrap().encode()
    }
}

impl StorageType {
    /// The storage type a type code names; an unknown code is rejected.
    pub fn decode(code: u32) -> (r: Result<Self, ()>)
        ensures
            r matches Ok(t) ==> spec_type_code(DeviceCategory::Storage(t)) == code,
            r is Err <==> (code != 0x0000_0100 && code != 0x0000_0011 && code != 0x0000_0021),
    {
        match code {
            0x0000_0100 => Ok(Self::Readonly),
            0x0000_0011 => Ok(Self::Flash),
            0x0000_0021 => Ok(Self::Persistent),
            _ => Err(()),
        }
    }

    /// The type code of this storage type.
    pub fn code(&self) -> (c: u32)
        ensures c == spec_type_code(DeviceCategory::Storage(*self)),
    {
        match self {
            Self::Readonly => 0x0000_0100,
            Self::Flash => 0x0000_0011,
            Self::Persistent => 0x0000_0021,
        }
    }

    /// Wrap the type into its device category.
    pub fn wrap(&self) -> (c: DeviceCategory)
        ensures c == DeviceCategory::Storage(*self),
    {
        DeviceCategory::Storage(*self)
    }

    /// The 64-bit category encoding of this type.
    pub fn encode(&self) -> (e: u64)
        ensures e == spec_category_encode(DeviceCategory::Storage(*self)),
    {
        self.wrap().encode()
    }
}

/// The fixed descriptor a device exposes: hardware ID, byte size, category,
/// and a category-specific word (for memory devices, the initial-fill byte
/// replicated).
#[derive(Copy, Clone, Debug, PartialEq, Eq, Structural)]
pub struct DeviceMetadata {
    pub hw_id: u64,
    pub size: u32,
    pub category: DeviceCategory,
    pub extra: u32,
}

/// The 8-word descriptor block: words 0..1 are the 64-bit hardware ID
/// big-endian, word 2 the byte size, word 3 the category code above the low
/// 16 bits of the type code, word 4 the category-specific word, words 5..7
/// reserved zero.
pub open spec fn spec_metadata_words(m: DeviceMetadata) -> Seq<u32> {
    seq![
        (m.hw_id / 0x1_0000_0000) as u32,
        (m.hw_id % 0x1_0000_0000) as u32,
        m.size,
        (spec_category_code(m.category) * 0x1_0000 + spec_type_code(m.category) % 0x1_0000) as u32,
        m.extra,
        0,
        0,
        0,
    ]
}

impl DeviceMetadata {
    /// Build a descriptor.
    pub fn new(hw_id: u64, size: u32, category: DeviceCategory, extra: u32) -> (m: Self)
        ensures m == (DeviceMetadata { hw_id, size, category, extra }),
    {
        DeviceMetadata { hw_id, size, category, extra }
    }

    /// Encode the descriptor to its 8-word block.
    pub fn encode(&self) -> (w: [u32; 8])
        ensures w@ == spec_metadata_words(*self),
    {
        let cat = self.category.category_code();
        let ty = self.category.type_code();
        let w: [u32; 8] = [
            (self.hw_id / 0x1_0000_0000) as u32,
            (self.hw_id % 0x1_0000_0000) as u32,
            self.size,
            cat * 0x1_0000 + ty % 0x1_0000,
            self.extra,
            0,
            0,
            0,
        ];
        proof {
            assert(w@ =~= spec_metadata_words(*self));
        }
        w
    }
}

} // verus!
