//! The execution engine: registers, the single-step cycle and its
//! repetition.
use vstd::prelude::*;
use crate::isa::{
    add16, alu, alu_spec, comp_code, comp_field, dest_code, dest_field, dest_spec, destinations,
    is_compute, is_compute_instruction, jump_code, jump_field, jump_spec, jump_taken, literal,
    literal_field,
};
use crate::loader::{parse_program, parse_spec, LoadError};
use crate::memory::{loaded_rom, store_spec, zeroed_mem, MemState, Memory, PixelEvent, MEM_WORDS};
use vstd::string::StringSliceAdditionalSpecFns;

verus! {

/// Registers and memories of an `Emu`.
pub struct EmuState {
    pub pc: u16,
    pub ra: u16,
    pub rd: u16,
    pub rm: u16,
    pub mem: MemState,
}

/// The fifteen-bit memory address that a sixteen-bit register selects.
pub open spec fn address_of(w: u16) -> u16 {
    w & 0x7fff
}

/// One cycle. `rm` is refreshed from data memory at `ra`, and the word at
/// `pc` is fetched; both addresses are the registers' low fifteen bits.
/// An address instruction loads its literal into `ra`. A compute
/// instruction evaluates the ALU, writes `ra`, then `rd`, then memory at the
/// new `ra`, as its destination code asks, and jumps to the new `ra` when
/// its jump condition holds. Otherwise `pc` advances by one, wrapping at
/// 0x10000.
pub open spec fn step_spec(s: EmuState) -> EmuState {
    let rm = s.mem.ram[address_of(s.ra) as int];
    let inst = s.mem.rom[address_of(s.pc) as int];
    if !is_compute(inst) {
        EmuState { pc: add16(s.pc, 1), ra: literal_field(inst), rd: s.rd, rm, mem: s.mem }
    } else {
        let r = alu_spec(comp_field(inst), s.rd, s.ra, rm);
        let d = dest_spec(dest_field(inst));
        let ra = if d.ra { r } else { s.ra };
        let rd = if d.rd { r } else { s.rd };
        let mem = if d.mem { store_spec(s.mem, address_of(ra), r) } else { s.mem };
        let pc = if jump_spec(jump_field(inst), r) { ra } else { add16(s.pc, 1) };
        EmuState { pc, ra, rd, rm, mem }
    }
}

/// `n` cycles in a row.
pub open spec fn run_spec(s: EmuState, n: nat) -> EmuState
    decreases n,
{
    if n == 0 {
        s
    } else {
        step_spec(run_spec(s, (n - 1) as nat))
    }
}

/// Cycles that `continue_execution` runs.
pub const BATCH_STEPS: u32 = 9999;

/// A fresh machine: registers and memories zero.
pub open spec fn zeroed_state() -> EmuState {
    EmuState { pc: 0, ra: 0, rd: 0, rm: 0, mem: zeroed_mem() }
}

/// The machine after `reset`: registers and data memory zero, no pending
/// events, instruction memory as before.
pub open spec fn reset_spec(s: EmuState) -> EmuState {
    EmuState {
        pc: 0,
        ra: 0,
        rd: 0,
        rm: 0,
        mem: MemState { rom: s.mem.rom, ram: zeroed_mem().ram, events: Seq::empty() },
    }
}

/// The machine with `words` loaded into instruction memory from address 0.
pub open spec fn load_spec(s: EmuState, words: Seq<u16>) -> EmuState {
    EmuState { mem: MemState { rom: loaded_rom(s.mem.rom, words), ..s.mem }, ..s }
}

fn address(w: u16) -> (r: u16)
    ensures
        r == address_of(w),
        r < MEM_WORDS,
{
    let r = w & 0x7fff;
    assert(r < 0x8000) by (bit_vector)
        requires
            r == w & 0x7fff,
    ;
    r
}

/// The Hack machine: four registers and its memories.
pub struct Emu {
    pc: u16,
    ra: u16,
    rd: u16,
    rm: u16,
    mem: Memory,
}

impl View for Emu {
    type V = EmuState;

    closed spec fn view(&self) -> EmuState {
        EmuState { pc: self.pc, ra: self.ra, rd: self.rd, rm: self.rm, mem: self.mem@ }
    }
}

impl Emu {
    /// Both memories hold `MEM_WORDS` words.
    pub closed spec fn wf(&self) -> bool {
        self.mem.wf()
    }

    pub fn new() -> (r: Emu)
        ensures
            r.wf(),
            r@ == zeroed_state(),
    {
        Emu { pc: 0, ra: 0, rd: 0, rm: 0, mem: Memory::new() }
    }

    /// Runs one cycle.
    pub fn tick(&mut self)
        requires
            old(self).wf(),
        ensures
            final(self).wf(),
            final(self)@ == step_spec(old(self)@),
    {
        self.rm = self.mem.read_data(address(self.ra));
        let inst = self.mem.read_instruction(address(self.pc));
        if is_compute_instruction(inst) {
            let r = alu(comp_code(inst), self.rd, self.ra, self.rm);
            let d = destinations(dest_code(inst));
            if d.ra {
                self.ra = r;
            }
            if d.rd {
                self.rd = r;
            }
            if d.mem {
                self.mem.write_data(address(self.ra), r);
            }
            if jump_taken(jump_code(inst), r) {
                self.pc = self.ra;
            } else {
                self.pc = self.pc.wrapping_add(1);
            }
        } else {
            self.ra = literal(inst);
            self.pc = self.pc.wrapping_add(1);
        }
    }

    /// Runs one cycle.
    pub fn step_forward(&mut self)
        requires
            old(self).wf(),
        ensures
            final(self).wf(),
            final(self)@ == step_spec(old(self)@),
    {
        self.tick();
    }

    /// Runs exactly `n` cycles; nothing stops it early.
    pub fn run(&mut self, n: u32)
        requires
            old(self).wf(),
        ensures
            final(self).wf(),
            final(self)@ == run_spec(old(self)@, n as nat),
    {
        let mut i: u32 = 0;
        while i < n
            invariant
                i <= n,
                self.wf(),
                self@ == run_spec(old(self)@, i as nat),
            decreases n - i,
        {
            self.tick();
            i = i + 1;
        }
    }

    /// Runs a batch of `BATCH_STEPS` cycles.
    pub fn continue_execution(&mut self)
        requires
            old(self).wf(),
        ensures
            final(self).wf(),
            final(self)@ == run_spec(old(self)@, BATCH_STEPS as nat),
    {
        self.run(BATCH_STEPS);
    }

    /// The instruction word that the next cycle executes.
    pub fn get_opcode(&self) -> (r: u16)
        requires
            self.wf(),
        ensures
            r == self@.mem.rom[address_of(self@.pc) as int],
    {
        self.mem.read_instruction(address(self.pc))
    }

    /// Moves `pc` to `x`, outside the jump logic.
    pub fn set_pc(&mut self, x: u16)
        requires
            old(self).wf(),
        ensures
            final(self).wf(),
            final(self)@ == (EmuState { pc: x, ..old(self)@ }),
    {
        self.pc = x;
    }

    /// Zeroes the registers and data memory and drops pending pixel events;
    /// the loaded program stays.
    pub fn reset(&mut self)
        requires
            old(self).wf(),
        ensures
            final(self).wf(),
            final(self)@ == reset_spec(old(self)@),
    {
        self.mem.reset();
        self.pc = 0;
        self.ra = 0;
        self.rd = 0;
        self.rm = 0;
    }

    /// Overwrites instruction memory from address 0 with `words`; a program
    /// longer than instruction memory is refused and nothing changes.
    pub fn load_program(&mut self, words: &[u16]) -> (r: Result<(), LoadError>)
        requires
            old(self).wf(),
        ensures
            final(self).wf(),
            words@.len() <= MEM_WORDS ==> r == Ok::<(), LoadError>(()) && final(self)@ == load_spec(
                old(self)@,
                words@,
            ),
            words@.len() > MEM_WORDS ==> r == Err::<(), LoadError>(LoadError::TooLong)
                && final(self)@ == old(self)@,
    {
        if words.len() > MEM_WORDS {
            return Err(LoadError::TooLong);
        }
        self.mem.load_program(words);
        Ok(())
    }

    /// Loads a program written as text, one sixteen-digit binary line per
    /// word; on any error nothing changes.
    pub fn load_rom(&mut self, code: &str) -> (r: Result<(), LoadError>)
        requires
            old(self).wf(),
        ensures
            final(self).wf(),
            match parse_spec(code.spec_bytes()) {
                None => r == Err::<(), LoadError>(LoadError::Malformed) && final(self)@ == old(self)@,
                Some(ws) => if ws.len() <= MEM_WORDS {
                    r == Ok::<(), LoadError>(()) && final(self)@ == load_spec(old(self)@, ws)
                } else {
                    r == Err::<(), LoadError>(LoadError::TooLong) && final(self)@ == old(self)@
                },
            },
    {
        match parse_program(code) {
            Ok(words) => self.load_program(words.as_slice()),
            Err(e) => Err(e),
        }
    }

    /// Stores `val` at data address `addr`, emitting pixel events inside the
    /// screen range; an address past data memory is ignored.
    pub fn store_ram(&mut self, addr: u16, val: u16)
        requires
            old(self).wf(),
        ensures
            final(self).wf(),
            final(self)@ == (EmuState { mem: store_spec(old(self)@.mem, addr, val), ..old(self)@ }),
    {
        self.mem.write_data(addr, val);
    }

    pub fn read_data(&self, addr: u16) -> (r: u16)
        requires
            self.wf(),
            addr < MEM_WORDS,
        ensures
            r == self@.mem.ram[addr as int],
    {
        self.mem.read_data(addr)
    }

    pub fn read_instruction(&self, addr: u16) -> (r: u16)
        requires
            self.wf(),
            addr < MEM_WORDS,
        ensures
            r == self@.mem.rom[addr as int],
    {
        self.mem.read_instruction(addr)
    }

    /// Hands out the pixel events emitted since the last call, oldest first.
    pub fn take_pixel_events(&mut self) -> (r: Vec<PixelEvent>)
        requires
            old(self).wf(),
        ensures
            final(self).wf(),
            r@ == old(self)@.mem.events,
            final(self)@ == (EmuState {
                mem: MemState { events: Seq::empty(), ..old(self)@.mem },
                ..old(self)@
            }),
    {
        self.mem.take_events()
    }

    pub fn pc(&self) -> (r: u16)
        ensures
            r == self@.pc,
    {
        self.pc
    }

    pub fn ra(&self) -> (r: u16)
        ensures
            r == self@.ra,
    {
        self.ra
    }

    pub fn rd(&self) -> (r: u16)
        ensures
            r == self@.rd,
    {
        self.rd
    }

    pub fn rm(&self) -> (r: u16)
        ensures
            r == self@.rm,
    {
        self.rm
    }
}

} // verus!
