use vstd::prelude::*;

use crate::gb::error::ErrorKind;
use crate::gb::mmu::Mmu;

verus! {

pub const BANK00_OFFSET: usize = 0x0000;
pub const BANKNN_OFFSET: usize = 0x4000;
pub const VRAM_OFFSET: usize = 0x8000;
pub const EXRAM_OFFSET: usize = 0xA000;
pub const WRAM1_OFFSET: usize = 0xC000;
pub const WRAM2_OFFSET: usize = 0xD000;
pub const ECHORAM_OFFSET: usize = 0xE000;
pub const OAM_OFFSET: usize = 0xFE00;
pub const NOUSE_OFFSET: usize = 0xFEA0;
pub const IOREG_OFFSET: usize = 0xFF00;
pub const HRAM_OFFSET: usize = 0xFF80;
pub const INTRRPT_OFFSET: usize = 0xFFFF;

pub const BANKSIZE: usize = 0x4000;
pub const VRAMSIZE: usize = 0x2000;
pub const EXRAMSIZE: usize = 0x2000;
pub const WRAMSIZE: usize = 0x1000;
pub const ECHORAMSIZE: usize = 0x1E00;
pub const OAMSIZE: usize = 0x00A0;
pub const NOUSESIZE: usize = 0x0060;
pub const IOREGSIZE: usize = 0x0080;
pub const HRAMSIZE: usize = 0x007F;

/// The twelve regions that partition the 64 KiB address space.
#[derive(Debug, Clone, Copy, PartialEq, Eq, Structural)]
pub enum Region {
    FixedRom,
    SwitchRom,
    VideoRam,
    ExternalRam,
    WorkRam1,
    WorkRam2,
    EchoRam,
    Oam,
    Unusable,
    IoRegisters,
    HighRam,
    InterruptEnable,
}

impl Region {
    /// First logical address of the region.
    pub open spec fn base(self) -> int {
        match self {
            Region::FixedRom => 0x0000,
            Region::SwitchRom => 0x4000,
            Region::VideoRam => 0x8000,
            Region::ExternalRam => 0xA000,
            Region::WorkRam1 => 0xC000,
            Region::WorkRam2 => 0xD000,
            Region::EchoRam => 0xE000,
            Region::Oam => 0xFE00,
            Region::Unusable => 0xFEA0,
            Region::IoRegisters => 0xFF00,
            Region::HighRam => 0xFF80,
            Region::InterruptEnable => 0xFFFF,
        }
    }

    /// Number of bytes the region holds.
    pub open spec fn size(self) -> int {
        match self {
            Region::FixedRom => 0x4000,
            Region::SwitchRom => 0x4000,
            Region::VideoRam => 0x2000,
            Region::ExternalRam => 0x2000,
            Region::WorkRam1 => 0x1000,
            Region::WorkRam2 => 0x1000,
            Region::EchoRam => 0x1E00,
            Region::Oam => 0x00A0,
            Region::Unusable => 0x0060,
            Region::IoRegisters => 0x0080,
            Region::HighRam => 0x007F,
            Region::InterruptEnable => 1,
        }
    }

    /// Whether `addr` lies in the region's logical range.
    pub open spec fn claims(self, addr: u16) -> bool {
        self.base() <= addr < self.base() + self.size()
    }

    /// The region an address decodes to.
    pub open spec fn of(addr: u16) -> Region {
        if addr < 0x4000 {
            Region::FixedRom
        } else if addr < 0x8000 {
            Region::SwitchRom
        } else if addr < 0xA000 {
            Region::VideoRam
        } else if addr < 0xC000 {
            Region::ExternalRam
        } else if addr < 0xD000 {
            Region::WorkRam1
        } else if addr < 0xE000 {
            Region::WorkRam2
        } else if addr < 0xFE00 {
            Region::EchoRam
        } else if addr < 0xFEA0 {
            Region::Oam
        } else if addr < 0xFF00 {
            Region::Unusable
        } else if addr < 0xFF80 {
            Region::IoRegisters
        } else if addr < 0xFFFF {
            Region::HighRam
        } else {
            Region::InterruptEnable
        }
    }

    /// Decodes an address into its region and the offset inside that region.
    pub fn decode(addr: u16) -> (hit: (Region, usize))
        ensures
            hit.0 == Region::of(addr),
            hit.0.claims(addr),
            hit.1 == addr - hit.0.base(),
            hit.1 < hit.0.size(),
    {
        let at: usize = addr as usize;
        if at < BANKNN_OFFSET {
            (Region::FixedRom, at - BANK00_OFFSET)
        } else if at < VRAM_OFFSET {
            (Region::SwitchRom, at - BANKNN_OFFSET)
        } else if at < EXRAM_OFFSET {
            (Region::VideoRam, at - VRAM_OFFSET)
        } else if at < WRAM1_OFFSET {
            (Region::ExternalRam, at - EXRAM_OFFSET)
        } else if at < WRAM2_OFFSET {
            (Region::WorkRam1, at - WRAM1_OFFSET)
        } else if at < ECHORAM_OFFSET {
            (Region::WorkRam2, at - WRAM2_OFFSET)
        } else if at < OAM_OFFSET {
            (Region::EchoRam, at - ECHORAM_OFFSET)
        } else if at < NOUSE_OFFSET {
            (Region::Oam, at - OAM_OFFSET)
        } else if at < IOREG_OFFSET {
            (Region::Unusable, at - NOUSE_OFFSET)
        } else if at < HRAM_OFFSET {
            (Region::IoRegisters, at - IOREG_OFFSET)
        } else if at < INTRRPT_OFFSET {
            (Region::HighRam, at - HRAM_OFFSET)
        } else {
            (Region::InterruptEnable, at - INTRRPT_OFFSET)
        }
    }
}

/// Every address is claimed by the region it decodes to, and by no other.
pub proof fn lemma_decode_total(addr: u16)
    ensures
        Region::of(addr).claims(addr),
        forall|r: Region| r.claims(addr) ==> r == Region::of(addr),
{
}

/// Backing storage of the whole address space, one array per region.
pub struct Memory {
    pub fixbank: [u8; BANKSIZE],
    pub switchbank: [u8; BANKSIZE],
    pub vram: [u8; VRAMSIZE],
    pub exram: [u8; EXRAMSIZE],
    pub wram1: [u8; WRAMSIZE],
    pub wram2: [u8; WRAMSIZE],
    pub echoram: [u8; ECHORAMSIZE],
    pub oam: [u8; OAMSIZE],
    pub nouse: [u8; NOUSESIZE],
    pub ioreg: [u8; IOREGSIZE],
    pub hram: [u8; HRAMSIZE],
    pub interrupt_enable: u8,
}

impl Memory {
    /// The byte that region `r` stores at offset `at`.
    pub open spec fn stored(self, r: Region, at: int) -> u8 {
        match r {
            Region::FixedRom => self.fixbank@[at],
            Region::SwitchRom => self.switchbank@[at],
            Region::VideoRam => self.vram@[at],
            Region::ExternalRam => self.exram@[at],
            Region::WorkRam1 => self.wram1@[at],
            Region::WorkRam2 => self.wram2@[at],
            Region::EchoRam => self.echoram@[at],
            Region::Oam => self.oam@[at],
            Region::Unusable => self.nouse@[at],
            Region::IoRegisters => self.ioreg@[at],
            Region::HighRam => self.hram@[at],
            Region::InterruptEnable => self.interrupt_enable,
        }
    }

    /// The byte visible at logical address `addr`.
    pub open spec fn byte_at(self, addr: u16) -> u8 {
        self.stored(Region::of(addr), addr - Region::of(addr).base())
    }

    /// A zero-filled address space.
    pub fn new() -> (memory: Self)
        ensures
            forall|addr: u16| memory@[addr] == 0,
    {
        Self {
            fixbank: [0; BANKSIZE],
            switchbank: [0; BANKSIZE],
            vram: [0; VRAMSIZE],
            exram: [0; EXRAMSIZE],
            wram1: [0; WRAMSIZE],
            wram2: [0; WRAMSIZE],
            echoram: [0; ECHORAMSIZE],
            oam: [0; OAMSIZE],
            nouse: [0; NOUSESIZE],
            ioreg: [0; IOREGSIZE],
            hram: [0; HRAMSIZE],
            interrupt_enable: 0,
        }
    }
}

impl Memory {
    /// Copies a boot image into the fixed ROM bank, first byte at address 0.
    /// An image larger than the bank is refused and nothing is written.
    pub fn bulk_load(&mut self, image: &[u8]) -> (r: Result<(), ErrorKind>)
        ensures
            image@.len() > BANKSIZE ==> r == Err::<(), ErrorKind>(ErrorKind::BulkLoadOverflow)
                && *final(self) == *old(self),
            image@.len() <= BANKSIZE ==> r is Ok && forall|addr: u16|
                final(self)@[addr] == if addr < image@.len() {
                    image@[addr as int]
                } else {
                    old(self)@[addr]
                },
    {
        if image.len() > BANKSIZE {
            return Err(ErrorKind::BulkLoadOverflow);
        }
        let mut at: usize = 0;
        while at < image.len()
            invariant
                at <= image@.len() <= BANKSIZE,
                *self == (Memory { fixbank: self.fixbank, ..*old(self) }),
                forall|k: int| 0 <= k < at ==> self.fixbank@[k] == image@[k],
                forall|k: int| at <= k < BANKSIZE ==> self.fixbank@[k] == old(self).fixbank@[k],
            decreases image@.len() - at,
        {
            self.fixbank[at] = image[at];
            at += 1;
        }
        Ok(())
    }
}

impl View for Memory {
    type V = Map<u16, u8>;

    open spec fn view(&self) -> Map<u16, u8> {
        Map::total(|addr: u16| self.byte_at(addr))
    }
}

impl Mmu for Memory {
    fn read_byte(&mut self, addr: u16) -> (value: u8) {
        let (region, at) = Region::decode(addr);
        match region {
            Region::FixedRom => self.fixbank[at],
            Region::SwitchRom => self.switchbank[at],
            Region::VideoRam => self.vram[at],
            Region::ExternalRam => self.exram[at],
            Region::WorkRam1 => self.wram1[at],
            Region::WorkRam2 => self.wram2[at],
            Region::EchoRam => self.echoram[at],
            Region::Oam => self.oam[at],
            Region::Unusable => self.nouse[at],
            Region::IoRegisters => self.ioreg[at],
            Region::HighRam => self.hram[at],
            Region::InterruptEnable => self.interrupt_enable,
        }
    }

    fn write_byte(&mut self, addr: u16, value: u8) {
        let (region, at) = Region::decode(addr);
        match region {
            Region::FixedRom => self.fixbank[at] = value,
            Region::SwitchRom => self.switchbank[at] = value,
            Region::VideoRam => self.vram[at] = value,
            Region::ExternalRam => self.exram[at] = value,
            Region::WorkRam1 => self.wram1[at] = value,
            Region::WorkRam2 => self.wram2[at] = value,
            Region::EchoRam => self.echoram[at] = value,
            Region::Oam => self.oam[at] = value,
            Region::Unusable => self.nouse[at] = value,
            Region::IoRegisters => self.ioreg[at] = value,
            Region::HighRam => self.hram[at] = value,
            Region::InterruptEnable => self.interrupt_enable = value,
        }
    }
}

} // verus!
