//! Instruction decoding and the fixed ISA tables: ALU operations,
//! destination sets and jump conditions.
use vstd::prelude::*;

verus! {

/// Result of a compute instruction whose ALU code is not in the table.
pub const ILLEGAL_RESULT: u16 = 1337;

/// Sixteen-bit wrapping addition.
pub open spec fn add16(a: u16, b: u16) -> u16 {
    ((a as int + b as int) % 0x10000) as u16
}

/// Sixteen-bit wrapping subtraction.
pub open spec fn sub16(a: u16, b: u16) -> u16 {
    ((a as int - b as int + 0x10000) % 0x10000) as u16
}

/// A word read as a two's-complement signed integer.
pub open spec fn signed(w: u16) -> int {
    if w < 0x8000 {
        w as int
    } else {
        w as int - 0x10000
    }
}

/// Bit 15 set: a compute instruction; clear: an address instruction.
pub open spec fn is_compute(inst: u16) -> bool {
    inst & 0x8000 != 0
}

/// The literal that an address instruction loads into `ra`.
pub open spec fn literal_field(inst: u16) -> u16 {
    inst & 0x7fff
}

/// The seven-bit ALU code of a compute instruction.
pub open spec fn comp_field(inst: u16) -> u16 {
    (inst >> 6u16) & 0x7f
}

/// The three-bit destination code of a compute instruction.
pub open spec fn dest_field(inst: u16) -> u16 {
    (inst >> 3u16) & 0x7
}

/// The three-bit jump code of a compute instruction.
pub open spec fn jump_field(inst: u16) -> u16 {
    inst & 0x7
}

/// The ALU codes that the table defines.
pub open spec fn comp_in_table(comp: u16) -> bool {
    comp == 0x2a || comp == 0x3f || comp == 0x3a || comp == 0x0c || comp == 0x30
        || comp == 0x0d || comp == 0x31 || comp == 0x0f || comp == 0x33 || comp == 0x1f
        || comp == 0x37 || comp == 0x0e || comp == 0x32 || comp == 0x02 || comp == 0x23
        || comp == 0x07 || comp == 0x00 || comp == 0x15 || comp == 0x70 || comp == 0x71
        || comp == 0x73 || comp == 0x77 || comp == 0x72 || comp == 0x42 || comp == 0x53
        || comp == 0x47 || comp == 0x40 || comp == 0x55
}

/// The ALU table: the result of code `comp` on the data register `rd`, the
/// address register `ra` and the memory register `rm`.
pub open spec fn alu_spec(comp: u16, rd: u16, ra: u16, rm: u16) -> u16 {
    if comp == 0x2a { 0 }
    else if comp == 0x3f { 1 }
    else if comp == 0x3a { 0xffff }
    else if comp == 0x0c { rd }
    else if comp == 0x30 { ra }
    else if comp == 0x0d { !rd }
    else if comp == 0x31 { !ra }
    else if comp == 0x0f { sub16(0, rd) }
    else if comp == 0x33 { ra }
    else if comp == 0x1f { add16(rd, 1) }
    else if comp == 0x37 { add16(ra, 1) }
    else if comp == 0x0e { sub16(rd, 1) }
    else if comp == 0x32 { sub16(ra, 1) }
    else if comp == 0x02 { add16(rd, ra) }
    else if comp == 0x23 { sub16(rd, ra) }
    else if comp == 0x07 { sub16(ra, rd) }
    else if comp == 0x00 { rd & ra }
    else if comp == 0x15 { rd | ra }
    else if comp == 0x70 { rm }
    else if comp == 0x71 { !rm }
    else if comp == 0x73 { sub16(0, rm) }
    else if comp == 0x77 { add16(rm, 1) }
    else if comp == 0x72 { sub16(rm, 1) }
    else if comp == 0x42 { add16(rd, rm) }
    else if comp == 0x53 { sub16(rd, rm) }
    else if comp == 0x47 { sub16(rm, rd) }
    else if comp == 0x40 { rd & rm }
    else if comp == 0x55 { rd | rm }
    else { ILLEGAL_RESULT }
}

/// Which registers and memory a destination code writes.
#[derive(Clone, Copy, Debug, PartialEq, Eq, Structural)]
pub struct Destinations {
    pub ra: bool,
    pub rd: bool,
    pub mem: bool,
}

/// The destination table.
pub open spec fn dest_spec(dest: u16) -> Destinations {
    if dest == 0 { Destinations { ra: false, rd: false, mem: false } }
    else if dest == 1 { Destinations { ra: false, rd: false, mem: true } }
    else if dest == 2 { Destinations { ra: false, rd: true, mem: false } }
    else if dest == 3 { Destinations { ra: false, rd: true, mem: true } }
    else if dest == 4 { Destinations { ra: true, rd: false, mem: false } }
    else if dest == 5 { Destinations { ra: true, rd: false, mem: true } }
    else if dest == 6 { Destinations { ra: true, rd: true, mem: false } }
    else if dest == 7 { Destinations { ra: true, rd: true, mem: true } }
    else { Destinations { ra: false, rd: false, mem: false } }
}

/// The jump table: whether code `jump` jumps on the ALU result `r`, read as
/// a signed word.
pub open spec fn jump_spec(jump: u16, r: u16) -> bool {
    if jump == 0 { false }
    else if jump == 1 { signed(r) > 0 }
    else if jump == 2 { signed(r) == 0 }
    else if jump == 3 { signed(r) >= 0 }
    else if jump == 4 { signed(r) < 0 }
    else if jump == 5 { signed(r) != 0 }
    else if jump == 6 { signed(r) <= 0 }
    else if jump == 7 { true }
    else { false }
}

pub fn is_compute_instruction(inst: u16) -> (r: bool)
    ensures
        r == is_compute(inst),
{
    inst & 0x8000 != 0
}

pub fn literal(inst: u16) -> (r: u16)
    ensures
        r == literal_field(inst),
{
    inst & 0x7fff
}

pub fn comp_code(inst: u16) -> (r: u16)
    ensures
        r == comp_field(inst),
        r < 0x80,
{
    let r = (inst >> 6u16) & 0x7f;
    assert(r < 0x80) by (bit_vector)
        requires
            r == (inst >> 6u16) & 0x7f,
    ;
    r
}

pub fn dest_code(inst: u16) -> (r: u16)
    ensures
        r == dest_field(inst),
        r < 8,
{
    let r = (inst >> 3u16) & 0x7;
    assert(r < 8) by (bit_vector)
        requires
            r == (inst >> 3u16) & 0x7,
    ;
    r
}

pub fn jump_code(inst: u16) -> (r: u16)
    ensures
        r == jump_field(inst),
        r < 8,
{
    let r = inst & 0x7;
    assert(r < 8) by (bit_vector)
        requires
            r == inst & 0x7,
    ;
    r
}

fn wrap_add(a: u16, b: u16) -> (r: u16)
    ensures
        r == add16(a, b),
{
    a.wrapping_add(b)
}

fn wrap_sub(a: u16, b: u16) -> (r: u16)
    ensures
        r == sub16(a, b),
{
    a.wrapping_sub(b)
}

/// Evaluates ALU code `comp`; a code outside the table gives `ILLEGAL_RESULT`.
pub fn alu(comp: u16, rd: u16, ra: u16, rm: u16) -> (r: u16)
    ensures
        r == alu_spec(comp, rd, ra, rm),
{
    match comp {
        0x2a => 0,
        0x3f => 1,
        0x3a => 0xffff,
        0x0c => rd,
        0x30 => ra,
        0x0d => !rd,
        0x31 => !ra,
        0x0f => wrap_sub(0u16, rd),
        0x33 => ra,
        0x1f => wrap_add(rd, 1),
        0x37 => wrap_add(ra, 1),
        0x0e => wrap_sub(rd, 1),
        0x32 => wrap_sub(ra, 1),
        0x02 => wrap_add(rd, ra),
        0x23 => wrap_sub(rd, ra),
        0x07 => wrap_sub(ra, rd),
        0x00 => rd & ra,
        0x15 => rd | ra,
        0x70 => rm,
        0x71 => !rm,
        0x73 => wrap_sub(0u16, rm),
        0x77 => wrap_add(rm, 1),
        0x72 => wrap_sub(rm, 1),
        0x42 => wrap_add(rd, rm),
        0x53 => wrap_sub(rd, rm),
        0x47 => wrap_sub(rm, rd),
        0x40 => rd & rm,
        0x55 => rd | rm,
        _ => ILLEGAL_RESULT,
    }
}

/// Looks up a destination code in the destination table.
pub fn destinations(dest: u16) -> (r: Destinations)
    ensures
        r == dest_spec(dest),
{
    match dest {
        0 => Destinations { ra: false, rd: false, mem: false },
        1 => Destinations { ra: false, rd: false, mem: true },
        2 => Destinations { ra: false, rd: true, mem: false },
        3 => Destinations { ra: false, rd: true, mem: true },
        4 => Destinations { ra: true, rd: false, mem: false },
        5 => Destinations { ra: true, rd: false, mem: true },
        6 => Destinations { ra: true, rd: true, mem: false },
        7 => Destinations { ra: true, rd: true, mem: true },
        _ => Destinations { ra: false, rd: false, mem: false },
    }
}

/// Looks up a jump code in the jump table against the ALU result `r`.
pub fn jump_taken(jump: u16, r: u16) -> (b: bool)
    ensures
        b == jump_spec(jump, r),
{
    let negative = r >= 0x8000;
    match jump {
        0 => false,
        1 => !negative && r != 0,
        2 => r == 0,
        3 => !negative,
        4 => negative,
        5 => r != 0,
        6 => negative || r == 0,
        7 => true,
        _ => false,
    }
}

} // verus!
