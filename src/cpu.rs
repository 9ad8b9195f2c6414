use vstd::prelude::*;
use crate::gpu::Gpu;
use crate::instruction::{decode, decode_extended, decoded_of, base_shape, extended_shape, Decoded, Instr};
use crate::memory_bus::{mapped, MemoryBus, BOOT_ROM_SIZE, ROM_BANK_0_SIZE};
use crate::microcode::{effect, is_mapped, read_res, run, ExecError, ExecRes};
use crate::registers::{word, Reg16Kind, Registers};

verus! {

/// `x` reduced to a 16-bit address, wrapping in both directions.
pub open spec fn wrap16(x: int) -> u16 {
    (x % 0x10000) as u16
}

/// The program counter.
#[derive(Debug, Clone, Copy, PartialEq, Eq, Structural)]
pub struct Pc(pub u16);

impl Pc {
    pub fn new() -> (r: Self)
        ensures
            r.0 == 0,
    {
        Self(0)
    }

    pub fn get(&self) -> (r: u16)
        ensures
            r == self.0,
    {
        self.0
    }

    /// The address of the byte after the opcode.
    pub fn peek(&self) -> (r: u16)
        ensures
            r == wrap16(self.0 + 1),
    {
        ((self.0 as u32 + 1) % 0x10000) as u16
    }

    pub fn add(&mut self, val: u16)
        ensures
            final(self).0 == wrap16(old(self).0 + val),
    {
        self.0 = ((self.0 as u32 + val as u32) % 0x10000) as u16;
    }

    pub fn set(&mut self, val: u16)
        ensures
            final(self).0 == val,
    {
        self.0 = val;
    }
}

#[derive(Debug, Clone, Copy, PartialEq, Eq, Structural)]
pub enum State {
    Running,
    Halted,
}

/// The running count of cycles, a fixed-width counter that wraps.
#[derive(Debug, Clone, Copy, PartialEq, Eq, Structural)]
pub struct Clock(pub u64);

impl Clock {
    pub fn add(&mut self, val: u8)
        ensures
            final(self).0 == (old(self).0 + val) % 0x1_0000_0000_0000_0000,
    {
        if self.0 > u64::MAX - val as u64 {
            self.0 = self.0 - (u64::MAX - val as u64) - 1;
        } else {
            self.0 = self.0 + val as u64;
        }
    }
}

/// What an instruction can see and change: registers, program counter,
/// stack pointer, the address space as it reads, and the run state.
pub struct CpuModel {
    pub registers: Registers,
    pub pc: u16,
    pub sp: u16,
    pub mem: Seq<u8>,
    pub halted: bool,
}

/// The instruction at the program counter: one opcode byte, or the 0xCB
/// prefix and the byte after it.
pub open spec fn fetch(m: CpuModel) -> Result<Decoded, ExecError> {
    match read_res(m, m.pc) {
        Err(e) => Err(e),
        Ok(op) => if op == 0xCB {
            match read_res(m, wrap16(m.pc + 1)) {
                Err(e) => Err(e),
                Ok(b) => Ok(decoded_of((0xCB00 + b) as u16, extended_shape(b))),
            }
        } else {
            Ok(decoded_of(op as u16, base_shape(op)))
        },
    }
}

/// `post` and `r` are what executing `d` on `pre` gives: nothing at all on a
/// halted CPU; else the instruction's outcome, its cycles added to the
/// counter and handed to the graphics timing; on an error nothing changes.
pub open spec fn executed(pre: Cpu, post: Cpu, d: Decoded, r: Result<Option<ExecRes>, ExecError>) -> bool {
    if pre.state == State::Halted {
        r == Ok::<Option<ExecRes>, ExecError>(None) && post == pre
    } else {
        match effect(pre.model(), d) {
            Err(e) => r == Err::<Option<ExecRes>, ExecError>(e) && post == pre,
            Ok(o) => match r {
                Ok(Some(res)) => {
                    &&& res.ticks == o.ticks
                    &&& res.length == o.length
                    &&& res.trace == o.trace
                    &&& res.instr.decoded() == d
                    &&& post.model() == o.next
                    &&& post.clock.0 == (pre.clock.0 + o.ticks) % 0x1_0000_0000_0000_0000
                    &&& post.gpu == pre.gpu.advanced(o.ticks)
                    &&& post.wf()
                },
                _ => false,
            },
        }
    }
}

/// `post` and `r` are what one step gives on `pre`: on a running CPU, the
/// fetched instruction executed; a fetch from unmapped memory is an error
/// that changes nothing.
pub open spec fn stepped(pre: Cpu, post: Cpu, r: Result<Option<ExecRes>, ExecError>) -> bool {
    if pre.state == State::Halted {
        r == Ok::<Option<ExecRes>, ExecError>(None) && post == pre
    } else {
        match fetch(pre.model()) {
            Err(e) => r == Err::<Option<ExecRes>, ExecError>(e) && post == pre,
            Ok(d) => executed(pre, post, d, r),
        }
    }
}

/// The CPU with everything it owns: registers, program counter, stack
/// pointer, memory bus, cycle counter, graphics timing and run state.
pub struct Cpu {
    pub registers: Registers,
    pub pc: Pc,
    pub sp: u16,
    pub bus: MemoryBus,
    pub clock: Clock,
    pub gpu: Gpu,
    pub state: State,
}

impl Cpu {
    pub open spec fn wf(&self) -> bool {
        self.bus.wf() && self.gpu.wf()
    }

    pub open spec fn model(&self) -> CpuModel {
        CpuModel {
            registers: self.registers,
            pc: self.pc.0,
            sp: self.sp,
            mem: self.bus@,
            halted: self.state == State::Halted,
        }
    }

    /// Builds a running CPU at address 0 from a 256-byte boot image and a
    /// cartridge image of at least 16 KiB, with the given registers or with
    /// all of them zero.
    pub fn new(
        boot_rom_buffer: Vec<u8>,
        game_rom_buffer: Vec<u8>,
        registers: Option<Registers>,
    ) -> (r: Self)
        requires
            boot_rom_buffer.len() == BOOT_ROM_SIZE,
            game_rom_buffer.len() >= ROM_BANK_0_SIZE,
        ensures
            r.wf(),
            r.registers == (match registers {
                Some(regs) => regs,
                None => Registers::spec_zeroed(),
            }),
            r.pc.0 == 0,
            r.sp == 0,
            r.clock.0 == 0,
            r.gpu == Gpu::spec_power_on(),
            r.state == State::Running,
            forall|i: int| 0 <= i < BOOT_ROM_SIZE ==> #[trigger] r.bus@[i] == boot_rom_buffer@[i],
            forall|i: int| BOOT_ROM_SIZE <= i < ROM_BANK_0_SIZE ==> #[trigger] r.bus@[i] == game_rom_buffer@[i],
    {
        let registers = match registers {
            Some(regs) => regs,
            None => Registers::new(),
        };
        Self {
            registers,
            pc: Pc::new(),
            sp: 0,
            bus: MemoryBus::new(boot_rom_buffer, game_rom_buffer),
            state: State::Running,
            clock: Clock(0),
            gpu: Gpu::new(),
        }
    }

    pub fn is_halted(&self) -> (r: bool)
        ensures
            r == (self.state == State::Halted),
    {
        match self.state {
            State::Halted => true,
            State::Running => false,
        }
    }

    /// Executes one decoded instruction. A halted CPU does nothing and reports
    /// no instruction (zero cycles).
    pub fn execute(&mut self, instr: Instr) -> (r: Result<Option<ExecRes>, ExecError>)
        requires
            old(self).wf(),
        ensures
            executed(*old(self), *final(self), instr.decoded(), r),
    {
        if self.is_halted() {
            return Ok(None);
        }
        match run(self, &instr) {
            Ok(res) => {
                self.clock.add(res.ticks);
                self.gpu.step(res.ticks);
                Ok(Some(res))
            },
            Err(e) => Err(e),
        }
    }

    /// Fetches, decodes and executes the instruction at the program counter.
    pub fn step(&mut self) -> (r: Result<Option<ExecRes>, ExecError>)
        requires
            old(self).wf(),
        ensures
            stepped(*old(self), *final(self), r),
    {
        if self.is_halted() {
            return Ok(None);
        }
        let pc = self.pc.get();
        if !is_mapped(pc) {
            return Err(ExecError::UnmappedAddress(pc));
        }
        let opcode = self.bus.read_byte(pc);
        let instr = if opcode == 0xCB {
            let next = self.pc.peek();
            if !is_mapped(next) {
                return Err(ExecError::UnmappedAddress(next));
            }
            decode_extended(self.bus.read_byte(next))
        } else {
            decode(opcode)
        };
        self.execute(instr)
    }

    /// The byte at the address held in a register pair.
    pub fn read_at_reg_16(&self, reg: Reg16Kind) -> (r: u8)
        requires
            self.wf(),
            reg != Reg16Kind::SP,
            mapped(self.registers.pair(reg)),
        ensures
            r == self.bus@[self.registers.pair(reg) as int],
    {
        let addr = self.registers.get_word(reg);
        self.bus.read_byte(addr)
    }

    /// The byte after the opcode.
    pub fn read_next_byte(&self) -> (r: u8)
        requires
            self.wf(),
            mapped(wrap16(self.pc.0 + 1)),
        ensures
            r == self.bus@[wrap16(self.pc.0 + 1) as int],
    {
        self.bus.read_byte(self.pc.peek())
    }

    /// The little-endian word after the opcode.
    pub fn read_next_word(&self) -> (r: u16)
        requires
            self.wf(),
            mapped(wrap16(self.pc.0 + 1)),
            mapped(wrap16(self.pc.0 + 2)),
        ensures
            r == word(self.bus@[wrap16(self.pc.0 + 2) as int], self.bus@[wrap16(self.pc.0 + 1) as int]),
    {
        let lo = self.bus.read_byte(self.pc.peek());
        let hi = self.bus.read_byte(((self.pc.0 as u32 + 2) % 0x10000) as u16);
        Registers::merge(hi, lo)
    }
}

} // verus!
