//! Properties of the cycle, proved over `step_spec` and the ISA tables.
use vstd::prelude::*;
use crate::emu::{address_of, reset_spec, step_spec, EmuState};
use crate::isa::{
    add16, alu_spec, comp_field, comp_in_table, dest_field, is_compute, jump_field, literal_field,
    signed, ILLEGAL_RESULT,
};
use crate::memory::{in_screen, store_spec, write_events, MemState, PixelEvent, MEM_WORDS};

verus! {

/// The instruction that the next cycle of `s` executes.
pub open spec fn current_inst(s: EmuState) -> u16 {
    s.mem.rom[address_of(s.pc) as int]
}

/// The ALU result of the next cycle of `s`, when it is a compute cycle.
pub open spec fn current_result(s: EmuState) -> u16 {
    alu_spec(comp_field(current_inst(s)), s.rd, s.ra, s.mem.ram[address_of(s.ra) as int])
}

/// An address instruction loads its low fifteen bits into `ra`, keeps `rd`
/// and both memories, and advances `pc` by one.
pub proof fn lemma_address_instruction(s: EmuState)
    requires
        !is_compute(current_inst(s)),
    ensures
        step_spec(s).ra == current_inst(s) & 0x7fff,
        step_spec(s).rd == s.rd,
        step_spec(s).pc == add16(s.pc, 1),
        s.pc < 0xffff ==> step_spec(s).pc == s.pc + 1,
        step_spec(s).mem == s.mem,
{
}

/// A compute instruction whose destination includes `rd` leaves there the
/// ALU table's entry for its code on `rd`, `ra` and the refreshed `rm`.
pub proof fn lemma_compute_result(s: EmuState)
    requires
        is_compute(current_inst(s)),
        dest_field(current_inst(s)) == 2,
    ensures
        step_spec(s).rd == current_result(s),
        step_spec(s).rm == s.mem.ram[address_of(s.ra) as int],
        step_spec(s).ra == s.ra,
        step_spec(s).mem == s.mem,
{
}

/// Jump code 7 always jumps, to the address in `ra` after the cycle.
pub proof fn lemma_unconditional_jump(s: EmuState)
    requires
        is_compute(current_inst(s)),
        jump_field(current_inst(s)) == 7,
    ensures
        step_spec(s).pc == step_spec(s).ra,
{
}

/// Jump code 2 jumps exactly when the result is zero, code 4 exactly when it
/// is negative; otherwise `pc` advances by one.
pub proof fn lemma_conditional_jump(s: EmuState)
    requires
        is_compute(current_inst(s)),
    ensures
        jump_field(current_inst(s)) == 2 ==> step_spec(s).pc == (if current_result(s) == 0 {
            step_spec(s).ra
        } else {
            add16(s.pc, 1)
        }),
        jump_field(current_inst(s)) == 4 ==> step_spec(s).pc == (if signed(current_result(s)) < 0 {
            step_spec(s).ra
        } else {
            add16(s.pc, 1)
        }),
{
}

/// Destination code 7 writes the result `r` to `ra`, to `rd`, and to memory
/// at the new `ra`, not at the old one.
pub proof fn lemma_destination_order(s: EmuState)
    requires
        is_compute(current_inst(s)),
        dest_field(current_inst(s)) == 7,
        s.mem.ram.len() == MEM_WORDS,
    ensures
        step_spec(s).ra == current_result(s),
        step_spec(s).rd == current_result(s),
        step_spec(s).mem.ram == s.mem.ram.update(
            address_of(current_result(s)) as int,
            current_result(s),
        ),
        current_result(s) < MEM_WORDS ==> step_spec(s).mem.ram[current_result(s) as int]
            == current_result(s),
        step_spec(s).mem.events == s.mem.events + write_events(
            address_of(current_result(s)),
            current_result(s),
        ),
{
    let r = current_result(s);
    assert(address_of(r) < 0x8000) by (bit_vector);
    assert(r < 0x8000 ==> address_of(r) == r) by (bit_vector);
}

/// A data write outside the screen range emits no pixel event; one inside
/// emits sixteen, on the word's row, left to right from bit 15.
pub proof fn lemma_screen_fan_out(m: MemState, addr: u16, value: u16)
    requires
        addr < MEM_WORDS,
    ensures
        !in_screen(addr) ==> store_spec(m, addr, value).events == m.events,
        in_screen(addr) ==> store_spec(m, addr, value).events.len() == m.events.len() + 16,
        in_screen(addr) ==> forall|i: int|
            0 <= i < 16 ==> {
                let e = #[trigger] store_spec(m, addr, value).events[m.events.len() + i];
                &&& e.y == (addr - 0x4000) / 32
                &&& e.x == (addr - 0x4000) % 32 * 16 + i
                &&& e.on == ((value >> (15 - i) as u16) & 1 == 1)
            },
{
    if !in_screen(addr) {
        assert(m.events + Seq::<PixelEvent>::empty() =~= m.events);
    }
}

/// Resetting twice is resetting once, and a reset keeps the program.
pub proof fn lemma_reset_idempotent(s: EmuState)
    ensures
        reset_spec(reset_spec(s)) == reset_spec(s),
        reset_spec(s).mem.rom == s.mem.rom,
        reset_spec(s).pc == 0 && reset_spec(s).ra == 0 && reset_spec(s).rd == 0
            && reset_spec(s).rm == 0,
        forall|i: int| 0 <= i < MEM_WORDS ==> #[trigger] reset_spec(s).mem.ram[i] == 0,
{
}

/// A code outside the ALU table yields `ILLEGAL_RESULT`, and the cycle goes
/// on as for any other result.
pub proof fn lemma_illegal_opcode(s: EmuState)
    requires
        is_compute(current_inst(s)),
        !comp_in_table(comp_field(current_inst(s))),
    ensures
        current_result(s) == ILLEGAL_RESULT,
        jump_field(current_inst(s)) == 0 ==> step_spec(s).pc == add16(s.pc, 1),
        dest_field(current_inst(s)) == 2 ==> step_spec(s).rd == ILLEGAL_RESULT,
{
}

} // verus!
