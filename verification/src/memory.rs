//! The memory management unit: a flat 16-bit address space decoded onto
//! the cartridge and the machine's RAM regions.
//!
//! | range             | backing store                                  |
//! |-------------------|------------------------------------------------|
//! | `0x0000..=0x7FFF` | cartridge                                      |
//! | `0x8000..=0x9FFF` | video RAM                                      |
//! | `0xA000..=0xBFFF` | switchable RAM                                 |
//! | `0xC000..=0xDFFF` | work RAM                                       |
//! | `0xE000..=0xFDFF` | echo: the cells of work RAM, `0x2000` higher   |
//! | `0xFE00..=0xFEFF` | nothing                                        |
//! | `0xFF00..=0xFF4B` | I/O ports                                      |
//! | `0xFF4C..=0xFF7F` | nothing                                        |
//! | `0xFF80..=0xFFFF` | high RAM                                       |
//!
//! The model of a memory is a map from canonical addresses to bytes. The
//! canonical address of an echo address is the work RAM address it aliases,
//! so that the two ranges share their cells by construction.

use vstd::prelude::*;
use crate::cartridge::Cartridge;
use crate::fault::Fault;

verus! {

pub const VIDEO_RAM_START: u16 = 0x8000;

pub const SWITCHABLE_RAM_START: u16 = 0xA000;

pub const WORK_RAM_START: u16 = 0xC000;

pub const ECHO_START: u16 = 0xE000;

pub const ECHO_END: u16 = 0xFE00;

pub const IO_PORTS_START: u16 = 0xFF00;

pub const IO_PORTS_END: u16 = 0xFF4C;

pub const HIGH_RAM_START: u16 = 0xFF80;

/// The model of a memory: the byte of each cell, by canonical address.
pub type Memory = Map<u16, u8>;

/// The address of the cell that `addr` denotes: an echo address denotes the
/// work RAM cell `0x2000` below it, every other address its own cell.
pub open spec fn canonical(addr: u16) -> u16 {
    if ECHO_START <= addr < ECHO_END {
        (addr - 0x2000) as u16
    } else {
        addr
    }
}

/// Whether `addr` is the canonical address of a cell of a machine whose
/// cartridge holds `rom_len` bytes.
pub open spec fn is_cell(addr: u16, rom_len: nat) -> bool {
    ||| addr < VIDEO_RAM_START && addr < rom_len
    ||| VIDEO_RAM_START <= addr < ECHO_START
    ||| IO_PORTS_START <= addr < IO_PORTS_END
    ||| HIGH_RAM_START <= addr
}

/// Whether an access to `addr` reaches a cell of `mem`.
pub open spec fn is_mapped(mem: Memory, addr: u16) -> bool {
    mem.dom().contains(canonical(addr))
}

/// The result of reading the byte at `addr`.
pub open spec fn load(mem: Memory, addr: u16) -> Result<u8, Fault> {
    if is_mapped(mem, addr) {
        Ok(mem[canonical(addr)])
    } else {
        Err(Fault::Address(addr))
    }
}

/// The result of writing `value` at `addr`: the memory with that one cell
/// replaced.
pub open spec fn store(mem: Memory, addr: u16, value: u8) -> Result<Memory, Fault> {
    if is_mapped(mem, addr) {
        Ok(mem.insert(canonical(addr), value))
    } else {
        Err(Fault::Address(addr))
    }
}

/// The value that an I/O port holds at power-on, for the ports that are
/// written at power-on.
pub open spec fn io_power_on(addr: u16) -> Option<u8> {
    if addr == 0xFF00 {
        Some(0xCF)
    } else if addr == 0xFF01 {
        Some(0x00)
    } else if addr == 0xFF02 {
        Some(0x7E)
    } else if addr == 0xFF04 {
        Some(0x18)
    } else if addr == 0xFF05 {
        Some(0x00)
    } else if addr == 0xFF06 {
        Some(0x00)
    } else if addr == 0xFF07 {
        Some(0xF8)
    } else if addr == 0xFF10 {
        Some(0x80)
    } else if addr == 0xFF11 {
        Some(0xBF)
    } else if addr == 0xFF12 {
        Some(0xF3)
    } else if addr == 0xFF14 {
        Some(0xBF)
    } else if addr == 0xFF16 {
        Some(0x3F)
    } else if addr == 0xFF17 {
        Some(0x00)
    } else if addr == 0xFF19 {
        Some(0xBF)
    } else if addr == 0xFF1A {
        Some(0x7F)
    } else if addr == 0xFF1B {
        Some(0xFF)
    } else if addr == 0xFF1C {
        Some(0x9F)
    } else if addr == 0xFF1E {
        Some(0xBF)
    } else if addr == 0xFF20 {
        Some(0xFF)
    } else if addr == 0xFF21 {
        Some(0x00)
    } else if addr == 0xFF22 {
        Some(0x00)
    } else if addr == 0xFF23 {
        Some(0xBF)
    } else if addr == 0xFF24 {
        Some(0x77)
    } else if addr == 0xFF25 {
        Some(0xF3)
    } else if addr == 0xFF26 {
        Some(0xF1)
    } else if addr == 0xFF40 {
        Some(0x91)
    } else if addr == 0xFF42 {
        Some(0x00)
    } else if addr == 0xFF43 {
        Some(0x00)
    } else if addr == 0xFF45 {
        Some(0x00)
    } else if addr == 0xFF47 {
        Some(0xFC)
    } else if addr == 0xFF48 {
        Some(0xFF)
    } else if addr == 0xFF49 {
        Some(0xFF)
    } else if addr == 0xFF4A {
        Some(0x00)
    } else if addr == 0xFF4B {
        Some(0x00)
    } else {
        None
    }
}

/// `mem` with every I/O port that is written at power-on holding its
/// power-on value, and every other cell as it was.
pub open spec fn with_io_power_on(mem: Memory) -> Memory {
    Map::new(
        |a: u16| mem.dom().contains(a),
        |a: u16|
            match io_power_on(a) {
                Some(v) => v,
                None => mem[a],
            },
    )
}

/// The memory of a machine at power-on with the image `rom` in its
/// cartridge slot: the first 32 KiB of the image, the I/O ports at their
/// power-on values, and zero everywhere else.
pub open spec fn power_on(rom: Seq<u8>) -> Memory {
    Map::new(
        |a: u16| is_cell(a, rom.len()),
        |a: u16|
            if a < VIDEO_RAM_START {
                rom[a as int]
            } else {
                match io_power_on(a) {
                    Some(v) => v,
                    None => 0u8,
                }
            },
    )
}

/// The memory management unit. It owns the cartridge and every RAM region.
pub struct Mmu {
    internal_ram: Vec<u8>,
    io_ports: Vec<u8>,
    internal_8kb_ram: Vec<u8>,
    switchable_ram: Vec<u8>,
    video_ram: Vec<u8>,
    cartridge: Cartridge,
}

impl View for Mmu {
    type V = Memory;

    closed spec fn view(&self) -> Memory {
        Map::new(|a: u16| is_cell(a, self.cartridge@.len()), |a: u16| self.cell(a))
    }
}

impl Mmu {
    #[verifier::type_invariant]
    spec fn well_formed(self) -> bool {
        &&& self.internal_ram@.len() == 0x10000 - HIGH_RAM_START
        &&& self.io_ports@.len() == IO_PORTS_END - IO_PORTS_START
        &&& self.internal_8kb_ram@.len() == ECHO_START - WORK_RAM_START
        &&& self.switchable_ram@.len() == WORK_RAM_START - SWITCHABLE_RAM_START
        &&& self.video_ram@.len() == SWITCHABLE_RAM_START - VIDEO_RAM_START
    }

    /// The byte stored for the canonical address `a`.
    spec fn cell(&self, a: u16) -> u8 {
        if a < VIDEO_RAM_START {
            self.cartridge@[a as int]
        } else if a < SWITCHABLE_RAM_START {
            self.video_ram@[a - VIDEO_RAM_START]
        } else if a < WORK_RAM_START {
            self.switchable_ram@[a - SWITCHABLE_RAM_START]
        } else if a < ECHO_START {
            self.internal_8kb_ram@[a - WORK_RAM_START]
        } else if a < IO_PORTS_END {
            self.io_ports@[a - IO_PORTS_START]
        } else {
            self.internal_ram@[a - HIGH_RAM_START]
        }
    }

    /// The number of bytes of the cartridge.
    pub closed spec fn rom_len(&self) -> nat {
        self.cartridge@.len()
    }

    /// The cells of a memory management unit are those of its address
    /// space, whatever has been written to it.
    pub proof fn lemma_address_space(&self)
        ensures
            forall|a: u16| self@.dom().contains(a) <==> is_cell(a, self.rom_len()),
    {
    }

    /// An access reaches a cell exactly where the canonical address is
    /// that of a cell: the echo range is mapped as work RAM is.
    pub proof fn lemma_mapped(&self, addr: u16)
        ensures
            is_mapped(self@, addr) == is_cell(canonical(addr), self.rom_len()),
    {
    }

    /// A memory management unit at power-on, with `cart` in the cartridge
    /// slot.
    pub fn new(cart: Cartridge) -> (mmu: Mmu)
        ensures
            mmu@ == power_on(cart@),
            mmu.rom_len() == cart@.len(),
    {
        let mut mmu = Mmu {
            internal_ram: vec![0u8; 0x80],
            io_ports: vec![0u8; 0x4C],
            internal_8kb_ram: vec![0u8; 0x2000],
            switchable_ram: vec![0u8; 0x2000],
            video_ram: vec![0u8; 0x2000],
            cartridge: cart,
        };
        Self::init_io_ports(&mut mmu);
        assert(mmu@ =~= power_on(cart@));
        mmu
    }

    /// Writes the power-on values of the I/O ports.
    pub fn init_io_ports(mmu: &mut Mmu)
        ensures
            final(mmu)@ == with_io_power_on(old(mmu)@),
            final(mmu).rom_len() == old(mmu).rom_len(),
    {
        proof {
            use_type_invariant(&*mmu);
        }
        mmu.io_ports[0x00] = 0xCF;
        mmu.io_ports[0x01] = 0x00;
        mmu.io_ports[0x02] = 0x7E;
        mmu.io_ports[0x04] = 0x18;
        mmu.io_ports[0x05] = 0x00;
        mmu.io_ports[0x06] = 0x00;
        mmu.io_ports[0x07] = 0xF8;
        mmu.io_ports[0x10] = 0x80;
        mmu.io_ports[0x11] = 0xBF;
        mmu.io_ports[0x12] = 0xF3;
        mmu.io_ports[0x14] = 0xBF;
        mmu.io_ports[0x16] = 0x3F;
        mmu.io_ports[0x17] = 0x00;
        mmu.io_ports[0x19] = 0xBF;
        mmu.io_ports[0x1A] = 0x7F;
        mmu.io_ports[0x1B] = 0xFF;
        mmu.io_ports[0x1C] = 0x9F;
        mmu.io_ports[0x1E] = 0xBF;
        mmu.io_ports[0x20] = 0xFF;
        mmu.io_ports[0x21] = 0x00;
        mmu.io_ports[0x22] = 0x00;
        mmu.io_ports[0x23] = 0xBF;
        mmu.io_ports[0x24] = 0x77;
        mmu.io_ports[0x25] = 0xF3;
        mmu.io_ports[0x26] = 0xF1;
        mmu.io_ports[0x40] = 0x91;
        mmu.io_ports[0x42] = 0x00;
        mmu.io_ports[0x43] = 0x00;
        mmu.io_ports[0x45] = 0x00;
        mmu.io_ports[0x47] = 0xFC;
        mmu.io_ports[0x48] = 0xFF;
        mmu.io_ports[0x49] = 0xFF;
        mmu.io_ports[0x4A] = 0x00;
        mmu.io_ports[0x4B] = 0x00;
        assert(mmu@ =~= with_io_power_on(old(mmu)@));
    }

    /// Whether an access to `addr` reaches a cell.
    pub fn is_mapped(&self, addr: u16) -> (r: bool)
        ensures
            r == is_mapped(self@, addr),
    {
        if addr < VIDEO_RAM_START {
            (addr as usize) < self.cartridge.content.len()
        } else {
            addr < ECHO_END || (IO_PORTS_START <= addr && addr < IO_PORTS_END) || HIGH_RAM_START
                <= addr
        }
    }

    /// Reads the byte at `addr`.
    pub fn get(&self, addr: u16) -> (r: Result<u8, Fault>)
        ensures
            r == load(self@, addr),
    {
        proof {
            use_type_invariant(self);
        }
        if addr < VIDEO_RAM_START {
            if (addr as usize) < self.cartridge.content.len() {
                Ok(self.cartridge.content[addr as usize])
            } else {
                Err(Fault::Address(addr))
            }
        } else if addr < SWITCHABLE_RAM_START {
            Ok(self.video_ram[(addr - VIDEO_RAM_START) as usize])
        } else if addr < WORK_RAM_START {
            Ok(self.switchable_ram[(addr - SWITCHABLE_RAM_START) as usize])
        } else if addr < ECHO_START {
            Ok(self.internal_8kb_ram[(addr - WORK_RAM_START) as usize])
        } else if addr < ECHO_END {
            Ok(self.internal_8kb_ram[(addr - ECHO_START) as usize])
        } else if IO_PORTS_START <= addr && addr < IO_PORTS_END {
            Ok(self.io_ports[(addr - IO_PORTS_START) as usize])
        } else if HIGH_RAM_START <= addr {
            Ok(self.internal_ram[(addr - HIGH_RAM_START) as usize])
        } else {
            Err(Fault::Address(addr))
        }
    }

    /// Writes `value` at `addr`. Where the address reaches no cell, nothing
    /// is written.
    pub fn set(&mut self, addr: u16, value: u8) -> (r: Result<(), Fault>)
        ensures
            match store(old(self)@, addr, value) {
                Ok(mem) => r is Ok && final(self)@ == mem,
                Err(fault) => r == Err::<(), Fault>(fault) && final(self)@ == old(self)@,
            },
            final(self).rom_len() == old(self).rom_len(),
    {
        proof {
            use_type_invariant(&*self);
        }
        if addr < VIDEO_RAM_START {
            if (addr as usize) < self.cartridge.content.len() {
                self.cartridge.content[addr as usize] = value;
            } else {
                return Err(Fault::Address(addr));
            }
        } else if addr < SWITCHABLE_RAM_START {
            self.video_ram[(addr - VIDEO_RAM_START) as usize] = value;
        } else if addr < WORK_RAM_START {
            self.switchable_ram[(addr - SWITCHABLE_RAM_START) as usize] = value;
        } else if addr < ECHO_START {
            self.internal_8kb_ram[(addr - WORK_RAM_START) as usize] = value;
        } else if addr < ECHO_END {
            self.internal_8kb_ram[(addr - ECHO_START) as usize] = value;
        } else if IO_PORTS_START <= addr && addr < IO_PORTS_END {
            self.io_ports[(addr - IO_PORTS_START) as usize] = value;
        } else if HIGH_RAM_START <= addr {
            self.internal_ram[(addr - HIGH_RAM_START) as usize] = value;
        } else {
            return Err(Fault::Address(addr));
        }
        assert(self@ =~= old(self)@.insert(canonical(addr), value));
        Ok(())
    }
}

} // verus!
