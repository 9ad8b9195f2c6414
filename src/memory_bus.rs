use vstd::prelude::*;

verus! {

pub const BOOT_ROM_SIZE: usize = 0x100;

pub const ROM_BANK_0_START: u16 = 0x0000;
pub const ROM_BANK_0_END: u16 = 0x3FFF;
pub const ROM_BANK_0_SIZE: usize = 0x4000;

pub const V_RAM_START: u16 = 0x8000;
pub const V_RAM_END: u16 = 0x9FFF;
pub const V_RAM_SIZE: usize = 0x2000;

pub const E_RAM_START: u16 = 0xA000;
pub const E_RAM_END: u16 = 0xBFFF;
pub const E_RAM_SIZE: usize = 0x2000;

pub const W_RAM_START: u16 = 0xC000;
pub const W_RAM_END: u16 = 0xDFFF;
pub const W_RAM_SIZE: usize = 0x2000;

pub const IO_REGS_START: u16 = 0xFF00;
pub const IO_REGS_END: u16 = 0xFF7F;

pub const Z_RAM_START: u16 = 0xFF80;
pub const Z_RAM_END: u16 = 0xFFFE;
pub const Z_RAM_SIZE: usize = 0x7F;

/// Whether an address falls in one of the regions of the bus. The rest of the
/// address space (switchable ROM banks, echo RAM, object memory, the interrupt
/// enable byte) has no region here, and touching it is a fatal error.
pub open spec fn mapped(addr: u16) -> bool {
    addr <= ROM_BANK_0_END || (V_RAM_START <= addr && addr <= W_RAM_END) || IO_REGS_START <= addr
        && addr <= Z_RAM_END
}

/// Whether a write to the address reaches memory: ROM is read-only and the
/// I/O window ignores writes.
pub open spec fn writable(addr: u16) -> bool {
    (V_RAM_START <= addr && addr <= W_RAM_END) || (Z_RAM_START <= addr && addr <= Z_RAM_END)
}

/// The memory after a write of `val` at `addr`.
pub open spec fn stored(mem: Seq<u8>, addr: u16, val: u8) -> Seq<u8> {
    if writable(addr) {
        mem.update(addr as int, val)
    } else {
        mem
    }
}

/// The address space of the console, routed to fixed-size regions. The first
/// 256 bytes read from the boot overlay, which lies over the cartridge ROM.
pub struct MemoryBus {
    boot_rom: Vec<u8>,
    rom_bank_0: Vec<u8>,
    v_ram: Vec<u8>,
    e_ram: Vec<u8>,
    w_ram: Vec<u8>,
    z_ram: Vec<u8>,
}

impl MemoryBus {
    pub closed spec fn wf(&self) -> bool {
        &&& self.boot_rom.len() == BOOT_ROM_SIZE
        &&& self.rom_bank_0.len() == ROM_BANK_0_SIZE
        &&& self.v_ram.len() == V_RAM_SIZE
        &&& self.e_ram.len() == E_RAM_SIZE
        &&& self.w_ram.len() == W_RAM_SIZE
        &&& self.z_ram.len() == Z_RAM_SIZE
    }

    /// The byte that a read of `addr` returns; 0 where no memory answers.
    pub closed spec fn byte(&self, addr: int) -> u8 {
        if 0 <= addr < BOOT_ROM_SIZE {
            self.boot_rom@[addr]
        } else if BOOT_ROM_SIZE <= addr <= ROM_BANK_0_END {
            self.rom_bank_0@[addr]
        } else if V_RAM_START <= addr <= V_RAM_END {
            self.v_ram@[addr - V_RAM_START]
        } else if E_RAM_START <= addr <= E_RAM_END {
            self.e_ram@[addr - E_RAM_START]
        } else if W_RAM_START <= addr <= W_RAM_END {
            self.w_ram@[addr - W_RAM_START]
        } else if Z_RAM_START <= addr <= Z_RAM_END {
            self.z_ram@[addr - Z_RAM_START]
        } else {
            0
        }
    }

    /// The whole address space as it reads.
    pub open spec fn view(&self) -> Seq<u8> {
        Seq::new(0x10000, |addr: int| self.byte(addr))
    }

    /// Builds the bus from a boot image of exactly 256 bytes and a cartridge
    /// image of which the first 16 KiB become ROM bank 0. RAM starts zeroed.
    pub fn new(boot_rom_buffer: Vec<u8>, game_rom_buffer: Vec<u8>) -> (r: Self)
        requires
            boot_rom_buffer.len() == BOOT_ROM_SIZE,
            game_rom_buffer.len() >= ROM_BANK_0_SIZE,
        ensures
            r.wf(),
            forall|i: int| 0 <= i < BOOT_ROM_SIZE ==> #[trigger] r@[i] == boot_rom_buffer@[i],
            forall|i: int| BOOT_ROM_SIZE <= i < ROM_BANK_0_SIZE ==> #[trigger] r@[i] == game_rom_buffer@[i],
            forall|i: int| V_RAM_START <= i <= Z_RAM_END && !(IO_REGS_START <= i <= IO_REGS_END) ==> #[trigger] r@[i] == 0,
    {
        let mut rom_bank_0: Vec<u8> = Vec::new();
        let mut i: usize = 0;
        while i < ROM_BANK_0_SIZE
            invariant
                i <= ROM_BANK_0_SIZE,
                game_rom_buffer.len() >= ROM_BANK_0_SIZE,
                rom_bank_0.len() == i,
                forall|j: int| 0 <= j < i ==> rom_bank_0@[j] == game_rom_buffer@[j],
            decreases ROM_BANK_0_SIZE - i,
        {
            rom_bank_0.push(game_rom_buffer[i]);
            i = i + 1;
        }
        let bus = Self {
            boot_rom: boot_rom_buffer,
            rom_bank_0,
            v_ram: vec![0; V_RAM_SIZE],
            e_ram: vec![0; E_RAM_SIZE],
            w_ram: vec![0; W_RAM_SIZE],
            z_ram: vec![0; Z_RAM_SIZE],
        };
        bus
    }

    pub fn read_byte(&self, address: u16) -> (r: u8)
        requires
            self.wf(),
            mapped(address),
        ensures
            r == self@[address as int],
    {
        if (address as usize) < BOOT_ROM_SIZE {
            self.boot_rom[address as usize]
        } else if address <= ROM_BANK_0_END {
            self.rom_bank_0[address as usize]
        } else if address <= V_RAM_END {
            self.v_ram[(address - V_RAM_START) as usize]
        } else if address <= E_RAM_END {
            self.e_ram[(address - E_RAM_START) as usize]
        } else if address <= W_RAM_END {
            self.w_ram[(address - W_RAM_START) as usize]
        } else if address <= IO_REGS_END {
            0
        } else {
            self.z_ram[(address - Z_RAM_START) as usize]
        }
    }

    pub fn write_byte(&mut self, address: u16, byte: u8)
        requires
            old(self).wf(),
            mapped(address),
        ensures
            final(self).wf(),
            final(self)@ == stored(old(self)@, address, byte),
    {
        if address <= ROM_BANK_0_END {
        } else if address <= V_RAM_END {
            self.v_ram.set((address - V_RAM_START) as usize, byte);
        } else if address <= E_RAM_END {
            self.e_ram.set((address - E_RAM_START) as usize, byte);
        } else if address <= W_RAM_END {
            self.w_ram.set((address - W_RAM_START) as usize, byte);
        } else if address <= IO_REGS_END {
        } else {
            self.z_ram.set((address - Z_RAM_START) as usize, byte);
        }
        assert(self@ =~= stored(old(self)@, address, byte));
    }
}

} // verus!
