//! The bus shared by the CPU and the PPU.
//!
//! `Memory` models the CPU-visible address space together with the PPU's
//! pattern/nametable space and the latch protocol: a CPU write into the
//! PPU-mapped window (0x2000..0x4000) is recorded as the most recent byte and
//! the register it targeted, and a mapped read is recorded likewise, so the
//! PPU can service both on its next step. A recorded event is consumed by the
//! step that services it.
//!
//! The CPU core's own instruction and stack traffic goes through `load` and
//! `write`; reads that the emulated program makes of PPU-mapped registers go
//! through `load_mapped`, which is what records the read and hands back the
//! byte the PPU staged with `set_latch`.

use vstd::prelude::*;

verus! {

/// Which memory-mapped PPU register a bus access targeted, if any.
#[derive(Clone, Copy, PartialEq, Eq, Structural, Debug)]
pub enum MemState {
    NoState,
    PpuCtrl,
    PpuMask,
    PpuStatus,
    OamAddr,
    OamData,
    PpuScroll,
    PpuAddr,
    PpuData,
}

/// Size of the CPU-visible address space.
pub const RAM_SIZE: usize = 0x10000;
/// Size of the PPU's pattern/nametable space (everything below the palette).
pub const CHR_SIZE: usize = 0x3F00;
/// First address of the PPU register window in CPU space.
pub const PPU_REGISTER_BASE: u16 = 0x2000;
/// First address past the PPU register window in CPU space.
pub const PPU_REGISTER_END: u16 = 0x4000;

/// Mathematical state of the bus.
pub ghost struct MemView {
    pub ram: Seq<u8>,
    pub chr: Seq<u8>,
    pub latch_value: u8,
    pub latch_target: MemState,
    pub load_status: MemState,
    pub read_buffer: u8,
}

/// The register a CPU access at `address` inside the PPU window targets;
/// the window repeats every eight bytes.
pub open spec fn ppu_register_spec(address: u16) -> MemState {
    let low = address % 8;
    if low == 0 {
        MemState::PpuCtrl
    } else if low == 1 {
        MemState::PpuMask
    } else if low == 2 {
        MemState::PpuStatus
    } else if low == 3 {
        MemState::OamAddr
    } else if low == 4 {
        MemState::OamData
    } else if low == 5 {
        MemState::PpuScroll
    } else if low == 6 {
        MemState::PpuAddr
    } else {
        MemState::PpuData
    }
}

/// Whether a CPU-space address lands in the PPU register window.
pub open spec fn in_ppu_window(address: u16) -> bool {
    PPU_REGISTER_BASE <= address < PPU_REGISTER_END
}

pub struct Memory {
    pub ram: Vec<u8>,
    pub chr: Vec<u8>,
    pub latch_value: u8,
    pub latch_target: MemState,
    pub load_status: MemState,
    pub read_buffer: u8,
}

impl View for Memory {
    type V = MemView;

    open spec fn view(&self) -> MemView {
        MemView {
            ram: self.ram@,
            chr: self.chr@,
            latch_value: self.latch_value,
            latch_target: self.latch_target,
            load_status: self.load_status,
            read_buffer: self.read_buffer,
        }
    }
}

impl Memory {
    /// Both address spaces have their full size.
    pub open spec fn wf(&self) -> bool {
        &&& self@.ram.len() == RAM_SIZE
        &&& self@.chr.len() == CHR_SIZE
    }

    /// A fresh bus: both spaces zeroed, no recorded register traffic.
    pub fn new() -> (r: Memory)
        ensures
            r.wf(),
            r@.ram == Seq::new(RAM_SIZE as nat, |i: int| 0u8),
            r@.chr == Seq::new(CHR_SIZE as nat, |i: int| 0u8),
            r@.latch_value == 0u8,
            r@.latch_target == MemState::NoState,
            r@.load_status == MemState::NoState,
            r@.read_buffer == 0u8,
    {
        let mut ram: Vec<u8> = Vec::new();
        let mut i: usize = 0;
        while i < RAM_SIZE
            invariant
                i <= RAM_SIZE,
                ram@ =~= Seq::new(i as nat, |j: int| 0u8),
            decreases RAM_SIZE - i,
        {
            ram.push(0);
            i = i + 1;
        }
        let mut chr: Vec<u8> = Vec::new();
        let mut j: usize = 0;
        while j < CHR_SIZE
            invariant
                j <= CHR_SIZE,
                chr@ =~= Seq::new(j as nat, |k: int| 0u8),
            decreases CHR_SIZE - j,
        {
            chr.push(0);
            j = j + 1;
        }
        Memory {
            ram,
            chr,
            latch_value: 0,
            latch_target: MemState::NoState,
            load_status: MemState::NoState,
            read_buffer: 0,
        }
    }

    /// Plain read of the CPU address space; records nothing.
    pub fn load(&self, address: u16) -> (r: u8)
        requires
            self.wf(),
        ensures
            r == self@.ram[address as int],
    {
        self.ram[address as usize]
    }

    /// Write to the CPU address space. A write into the PPU register window is
    /// also recorded as the most recent latch byte and its target register.
    pub fn write(&mut self, address: u16, value: u8)
        requires
            old(self).wf(),
        ensures
            final(self).wf(),
            final(self)@.ram == old(self)@.ram.update(address as int, value),
            final(self)@.chr == old(self)@.chr,
            final(self)@.load_status == old(self)@.load_status,
            final(self)@.read_buffer == old(self)@.read_buffer,
            in_ppu_window(address) ==> {
                &&& final(self)@.latch_value == value
                &&& final(self)@.latch_target == ppu_register_spec(address)
            },
            !in_ppu_window(address) ==> {
                &&& final(self)@.latch_value == old(self)@.latch_value
                &&& final(self)@.latch_target == old(self)@.latch_target
            },
    {
        self.ram.set(address as usize, value);
        if PPU_REGISTER_BASE <= address && address < PPU_REGISTER_END {
            self.latch_value = value;
            self.latch_target = self.ppu_register(address);
        }
    }

    /// Read that the emulated program makes of the CPU address space: a read
    /// inside the PPU register window is recorded, and a read of the data
    /// register hands back the byte the PPU staged with `set_latch`.
    pub fn load_mapped(&mut self, address: u16) -> (r: u8)
        requires
            old(self).wf(),
        ensures
            final(self).wf(),
            final(self)@.ram == old(self)@.ram,
            final(self)@.chr == old(self)@.chr,
            final(self)@.latch_value == old(self)@.latch_value,
            final(self)@.latch_target == old(self)@.latch_target,
            final(self)@.read_buffer == old(self)@.read_buffer,
            in_ppu_window(address) ==> {
                &&& final(self)@.load_status == ppu_register_spec(address)
                &&& (if ppu_register_spec(address) == MemState::PpuData {
                    r == old(self)@.read_buffer
                } else {
                    r == old(self)@.ram[address as int]
                })
            },
            !in_ppu_window(address) ==> {
                &&& final(self)@.load_status == old(self)@.load_status
                &&& r == old(self)@.ram[address as int]
            },
    {
        if PPU_REGISTER_BASE <= address && address < PPU_REGISTER_END {
            let target = self.ppu_register(address);
            self.load_status = target;
            if target == MemState::PpuData {
                return self.read_buffer;
            }
        }
        self.ram[address as usize]
    }

    /// Read of the PPU's pattern/nametable space.
    pub fn chr_load(&self, address: u16) -> (r: u8)
        requires
            self.wf(),
            address < CHR_SIZE,
        ensures
            r == self@.chr[address as int],
    {
        self.chr[address as usize]
    }

    /// Write to the PPU's pattern/nametable space.
    pub fn chr_store(&mut self, address: u16, value: u8)
        requires
            old(self).wf(),
            address < CHR_SIZE,
        ensures
            final(self).wf(),
            final(self)@ == (MemView { chr: old(self)@.chr.update(address as int, value), ..old(self)@ }),
    {
        self.chr.set(address as usize, value);
    }

    /// Most recent byte the CPU wrote into the PPU window, with the register
    /// it targeted; consuming it so the event is serviced once.
    pub fn get_latch(&mut self) -> (r: (u8, MemState))
        requires
            old(self).wf(),
        ensures
            final(self).wf(),
            r.0 == old(self)@.latch_value,
            r.1 == old(self)@.latch_target,
            final(self)@ == (MemView { latch_target: MemState::NoState, ..old(self)@ }),
    {
        let target = self.latch_target;
        self.latch_target = MemState::NoState;
        (self.latch_value, target)
    }

    /// Stage a byte for the CPU to read back from the data register.
    pub fn set_latch(&mut self, value: u8)
        requires
            old(self).wf(),
        ensures
            final(self).wf(),
            final(self)@ == (MemView { read_buffer: value, ..old(self)@ }),
    {
        self.read_buffer = value;
    }

    /// Which PPU register the CPU most recently read; consuming it so the
    /// event is serviced once.
    pub fn get_mem_load_status(&mut self) -> (r: MemState)
        requires
            old(self).wf(),
        ensures
            final(self).wf(),
            r == old(self)@.load_status,
            final(self)@ == (MemView { load_status: MemState::NoState, ..old(self)@ }),
    {
        let status = self.load_status;
        self.load_status = MemState::NoState;
        status
    }

    /// The register an address inside the PPU window targets.
    fn ppu_register(&self, address: u16) -> (r: MemState)
        ensures
            r == ppu_register_spec(address),
    {
        let low = address % 8;
        if low == 0 {
            MemState::PpuCtrl
        } else if low == 1 {
            MemState::PpuMask
        } else if low == 2 {
            MemState::PpuStatus
        } else if low == 3 {
            MemState::OamAddr
        } else if low == 4 {
            MemState::OamData
        } else if low == 5 {
            MemState::PpuScroll
        } else if low == 6 {
            MemState::PpuAddr
        } else {
            MemState::PpuData
        }
    }
}

} // verus!
