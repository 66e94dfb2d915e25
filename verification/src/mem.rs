//! The byte-addressable address space: a 64 KiB backing store spanning the
//! full 16-bit address range, partitioned into exhaustive, non-overlapping
//! named regions. Reads always succeed; writes succeed for every in-range
//! address and report the region written, so that callers can trace
//! memory-mapped I/O.

use vstd::prelude::*;
use crate::error::EmuError;

verus! {

/// Number of addressable bytes: the full 16-bit address range.
pub const MEM_SIZE: usize = 65536;

/// The named regions of the address map, in address order.
#[derive(Clone, Copy, Debug, PartialEq, Eq, Structural)]
pub enum Region {
    /// 0x0000-0x00FF: restart and interrupt vectors / boot image start.
    RestartAndInterruptVectors,
    /// 0x0100-0x014F: cartridge header area.
    CartridgeHeader,
    /// 0x0150-0x3FFF: cartridge ROM, fixed bank 0.
    CartridgeRomBank0,
    /// 0x4000-0x7FFF: cartridge ROM, switchable banks.
    CartridgeRomSwitchable,
    /// 0x8000-0x97FF: character (tile) RAM.
    CharacterRam,
    /// 0x9800-0x9BFF: background map data 1.
    BgMapData1,
    /// 0x9C00-0x9FFF: background map data 2.
    BgMapData2,
    /// 0xA000-0xBFFF: external cartridge RAM.
    CartridgeRam,
    /// 0xC000-0xCFFF: internal working RAM, fixed bank 0.
    InternalRamBank0,
    /// 0xD000-0xDFFF: internal working RAM, switchable banks.
    InternalRamSwitchable,
    /// 0xE000-0xFDFF: echo of working RAM.
    EchoRam,
    /// 0xFE00-0xFE9F: object attribute memory.
    ObjectAttributeMemory,
    /// 0xFEA0-0xFEFF: unusable range.
    Unusable,
    /// 0xFF00-0xFF7F: memory-mapped hardware I/O registers.
    HardwareIo,
    /// 0xFF80-0xFFFE: zero-page high RAM.
    ZeroPage,
    /// 0xFFFF: the interrupt-enable register.
    InterruptEnable,
}

/// The region that an address belongs to.
pub open spec fn region_of(address: u16) -> Region {
    if address <= 0x00FF {
        Region::RestartAndInterruptVectors
    } else if address <= 0x014F {
        Region::CartridgeHeader
    } else if address <= 0x3FFF {
        Region::CartridgeRomBank0
    } else if address <= 0x7FFF {
        Region::CartridgeRomSwitchable
    } else if address <= 0x97FF {
        Region::CharacterRam
    } else if address <= 0x9BFF {
        Region::BgMapData1
    } else if address <= 0x9FFF {
        Region::BgMapData2
    } else if address <= 0xBFFF {
        Region::CartridgeRam
    } else if address <= 0xCFFF {
        Region::InternalRamBank0
    } else if address <= 0xDFFF {
        Region::InternalRamSwitchable
    } else if address <= 0xFDFF {
        Region::EchoRam
    } else if address <= 0xFE9F {
        Region::ObjectAttributeMemory
    } else if address <= 0xFEFF {
        Region::Unusable
    } else if address <= 0xFF7F {
        Region::HardwareIo
    } else if address <= 0xFFFE {
        Region::ZeroPage
    } else {
        Region::InterruptEnable
    }
}

/// The address range that a region covers, as a predicate on addresses.
pub open spec fn region_contains(region: Region, address: u16) -> bool {
    match region {
        Region::RestartAndInterruptVectors => address <= 0x00FF,
        Region::CartridgeHeader => 0x0100 <= address <= 0x014F,
        Region::CartridgeRomBank0 => 0x0150 <= address <= 0x3FFF,
        Region::CartridgeRomSwitchable => 0x4000 <= address <= 0x7FFF,
        Region::CharacterRam => 0x8000 <= address <= 0x97FF,
        Region::BgMapData1 => 0x9800 <= address <= 0x9BFF,
        Region::BgMapData2 => 0x9C00 <= address <= 0x9FFF,
        Region::CartridgeRam => 0xA000 <= address <= 0xBFFF,
        Region::InternalRamBank0 => 0xC000 <= address <= 0xCFFF,
        Region::InternalRamSwitchable => 0xD000 <= address <= 0xDFFF,
        Region::EchoRam => 0xE000 <= address <= 0xFDFF,
        Region::ObjectAttributeMemory => 0xFE00 <= address <= 0xFE9F,
        Region::Unusable => 0xFEA0 <= address <= 0xFEFF,
        Region::HardwareIo => 0xFF00 <= address <= 0xFF7F,
        Region::ZeroPage => 0xFF80 <= address <= 0xFFFE,
        Region::InterruptEnable => address == 0xFFFF,
    }
}

/// The region map is total: every address lies in the region the
/// classifier assigns to it, so there are no gaps.
pub proof fn lemma_region_total(address: u16)
    ensures
        region_contains(region_of(address), address),
{
}

/// The region map has no overlaps: an address lies in at most one region.
pub proof fn lemma_region_unique(address: u16, r1: Region, r2: Region)
    requires
        region_contains(r1, address),
        region_contains(r2, address),
    ensures
        r1 == r2,
{
}

/// The executable region classifier.
pub fn classify(address: u16) -> (r: Region)
    ensures
        r == region_of(address),
{
    if address <= 0x00FF {
        Region::RestartAndInterruptVectors
    } else if address <= 0x014F {
        Region::CartridgeHeader
    } else if address <= 0x3FFF {
        Region::CartridgeRomBank0
    } else if address <= 0x7FFF {
        Region::CartridgeRomSwitchable
    } else if address <= 0x97FF {
        Region::CharacterRam
    } else if address <= 0x9BFF {
        Region::BgMapData1
    } else if address <= 0x9FFF {
        Region::BgMapData2
    } else if address <= 0xBFFF {
        Region::CartridgeRam
    } else if address <= 0xCFFF {
        Region::InternalRamBank0
    } else if address <= 0xDFFF {
        Region::InternalRamSwitchable
    } else if address <= 0xFDFF {
        Region::EchoRam
    } else if address <= 0xFE9F {
        Region::ObjectAttributeMemory
    } else if address <= 0xFEFF {
        Region::Unusable
    } else if address <= 0xFF7F {
        Region::HardwareIo
    } else if address <= 0xFFFE {
        Region::ZeroPage
    } else {
        Region::InterruptEnable
    }
}

impl Region {
    /// A short printable name for the region.
    pub fn name(&self) -> &'static str {
        match self {
            Region::RestartAndInterruptVectors => "Restart and Interrupt Vectors",
            Region::CartridgeHeader => "Cartridge Header Area",
            Region::CartridgeRomBank0 => "Cartridge ROM - Bank 0 (fixed)",
            Region::CartridgeRomSwitchable => "Cartridge ROM - Switchable Banks",
            Region::CharacterRam => "Character RAM",
            Region::BgMapData1 => "BG Map Data 1",
            Region::BgMapData2 => "BG Map Data 2",
            Region::CartridgeRam => "Cartridge RAM (If Available)",
            Region::InternalRamBank0 => "Internal RAM - Bank 0 (fixed)",
            Region::InternalRamSwitchable => "Internal RAM - Banks 1-7 (switchable)",
            Region::EchoRam => "Echo RAM - Reserved, Do Not Use",
            Region::ObjectAttributeMemory => "OAM - Object Attribute Memory",
            Region::Unusable => "Unusable Memory",
            Region::HardwareIo => "Hardware I/O Registers",
            Region::ZeroPage => "Zero Page - 127 bytes",
            Region::InterruptEnable => "Interrupt Enable Register",
        }
    }
}

/// The memory unit. It owns the single backing byte store of the machine;
/// the store is zero-initialized at power-on and always spans the whole
/// address range.
pub struct MMU {
    bytes: Vec<u8>,
}

impl View for MMU {
    type V = Seq<u8>;

    closed spec fn view(&self) -> Seq<u8> {
        self.bytes@
    }
}

impl MMU {
    /// The backing store covers exactly the 16-bit address range.
    pub open spec fn wf(&self) -> bool {
        self@.len() == MEM_SIZE
    }

    /// A zero-initialized address space.
    pub fn new() -> (m: MMU)
        ensures
            m.wf(),
            forall|i: int| 0 <= i < MEM_SIZE ==> m@[i] == 0u8,
    {
        let mut bytes: Vec<u8> = Vec::new();
        let mut i: usize = 0;
        while i < MEM_SIZE
            invariant
                i == bytes@.len(),
                i <= MEM_SIZE,
                forall|j: int| 0 <= j < i ==> bytes@[j] == 0u8,
            decreases MEM_SIZE - i,
        {
            bytes.push(0u8);
            i = i + 1;
        }
        MMU { bytes }
    }

    /// Read the byte stored at `location`. Reads always succeed within the
    /// address range and have no side effect.
    pub fn read_value_u8(&self, location: usize) -> (r: u8)
        requires
            self.wf(),
            location < MEM_SIZE,
        ensures
            r == self@[location as int],
    {
        self.bytes[location]
    }

    /// Store `value` at `location` and report the region written. Fails
    /// with `InvalidAddress` exactly when `location` lies outside the
    /// 16-bit address width, in which case nothing is stored.
    pub fn load_value_u8(&mut self, location: usize, value: u8) -> (r: Result<Region, EmuError>)
        requires
            old(self).wf(),
        ensures
            final(self).wf(),
            location < MEM_SIZE ==> final(self)@ == old(self)@.update(location as int, value) && r
                == Ok::<Region, EmuError>(region_of(location as u16)),
            location >= MEM_SIZE ==> final(self)@ == old(self)@ && r == Err::<Region, EmuError>(
                EmuError::InvalidAddress { address: location },
            ),
    {
        if location < MEM_SIZE {
            self.bytes.set(location, value);
            Ok(classify(location as u16))
        } else {
            Err(EmuError::InvalidAddress { address: location })
        }
    }
}

} // verus!
