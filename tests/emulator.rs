use n2t_emu::emu::BATCH_STEPS;
use n2t_emu::isa::{alu, destinations, jump_taken, Destinations, ILLEGAL_RESULT};
use n2t_emu::loader::parse_program;
use n2t_emu::memory::KEYBOARD;
use n2t_emu::{Emu, LoadError, PixelEvent};

fn compute(comp: u16, dest: u16, jump: u16) -> u16 {
    0xe000 | (comp << 6) | (dest << 3) | jump
}

fn emu_with(program: &[u16]) -> Emu {
    let mut emu = Emu::new();
    assert_eq!(emu.load_program(program), Ok(()));
    emu
}

/// Runs `@ra`, then a compute of `comp` into `rd`, with `rd` and the memory
/// word at `ra` set beforehand; returns the value left in `rd`.
fn alu_through_step(comp: u16, rd: u16, ra: u16, rm: u16) -> u16 {
    assert!(ra < 0x4000 && rd < 0x8000);
    // @rd; D=A; @ra; D=comp
    let mut emu = emu_with(&[rd, compute(0x30, 2, 0), ra, compute(comp, 2, 0)]);
    emu.store_ram(ra, rm);
    emu.run(4);
    assert_eq!(emu.ra(), ra);
    assert_eq!(emu.rm(), rm);
    emu.rd()
}

#[test]
fn new_machine_is_zeroed() {
    let emu = Emu::new();
    assert_eq!((emu.pc(), emu.ra(), emu.rd(), emu.rm()), (0, 0, 0, 0));
    assert_eq!(emu.read_data(0x7fff), 0);
    assert_eq!(emu.read_instruction(0x7fff), 0);
}

#[test]
fn address_instruction_loads_literal() {
    let mut emu = emu_with(&[0x1234, 0x7fff]);
    emu.store_ram(5, 77);
    let rd_before = emu.rd();
    emu.tick();
    assert_eq!(emu.ra(), 0x1234);
    assert_eq!(emu.rd(), rd_before);
    assert_eq!(emu.pc(), 1);
    emu.step_forward();
    assert_eq!(emu.ra(), 0x7fff);
    assert_eq!(emu.pc(), 2);
    assert_eq!(emu.read_data(5), 77);
    assert!(emu.take_pixel_events().is_empty());
}

#[test]
fn rm_is_refreshed_before_every_instruction() {
    let mut emu = emu_with(&[9, 10]);
    emu.store_ram(9, 41);
    emu.store_ram(10, 42);
    emu.tick();
    assert_eq!(emu.rm(), 0);
    emu.tick();
    assert_eq!(emu.rm(), 41);
}

#[test]
fn alu_constants() {
    assert_eq!(alu_through_step(0x2a, 5, 3, 9), 0);
    assert_eq!(alu_through_step(0x3f, 5, 3, 9), 1);
    assert_eq!(alu_through_step(0x3a, 5, 3, 9), 0xffff);
}

#[test]
fn alu_data_and_address_register() {
    assert_eq!(alu_through_step(0x0c, 5, 3, 9), 5);
    assert_eq!(alu_through_step(0x30, 5, 3, 9), 3);
    assert_eq!(alu_through_step(0x0d, 5, 3, 9), !5u16);
    assert_eq!(alu_through_step(0x31, 5, 3, 9), !3u16);
    assert_eq!(alu_through_step(0x0f, 5, 3, 9), 0xfffb);
    assert_eq!(alu_through_step(0x33, 5, 3, 9), 3);
    assert_eq!(alu_through_step(0x1f, 5, 3, 9), 6);
    assert_eq!(alu_through_step(0x37, 5, 3, 9), 4);
    assert_eq!(alu_through_step(0x0e, 5, 3, 9), 4);
    assert_eq!(alu_through_step(0x32, 5, 3, 9), 2);
    assert_eq!(alu_through_step(0x02, 5, 3, 9), 8);
    assert_eq!(alu_through_step(0x23, 5, 3, 9), 2);
    assert_eq!(alu_through_step(0x07, 5, 3, 9), 0xfffe);
    assert_eq!(alu_through_step(0x00, 6, 3, 9), 2);
    assert_eq!(alu_through_step(0x15, 5, 3, 9), 7);
}

#[test]
fn alu_memory_register() {
    assert_eq!(alu_through_step(0x70, 5, 3, 9), 9);
    assert_eq!(alu_through_step(0x71, 5, 3, 9), !9u16);
    assert_eq!(alu_through_step(0x73, 5, 3, 9), 0xfff7);
    assert_eq!(alu_through_step(0x77, 5, 3, 9), 10);
    assert_eq!(alu_through_step(0x72, 5, 3, 9), 8);
    assert_eq!(alu_through_step(0x42, 5, 3, 9), 14);
    assert_eq!(alu_through_step(0x53, 5, 3, 9), 0xfffc);
    assert_eq!(alu_through_step(0x47, 5, 3, 9), 4);
    assert_eq!(alu_through_step(0x40, 5, 3, 12), 4);
    assert_eq!(alu_through_step(0x55, 5, 3, 9), 13);
}

#[test]
fn alu_wraps_at_sixteen_bits() {
    assert_eq!(alu(0x1f, 0xffff, 0, 0), 0);
    assert_eq!(alu(0x1f, 0x7fff, 0, 0), 0x8000);
    assert_eq!(alu(0x32, 0, 0, 0), 0xffff);
    assert_eq!(alu(0x02, 0x8000, 0x8000, 0), 0);
    assert_eq!(alu(0x23, 0x8000, 1, 0), 0x7fff);
    assert_eq!(alu(0x73, 0, 0, 0), 0);
    assert_eq!(alu(0x0f, 0x8000, 0, 0), 0x8000);
}

#[test]
fn illegal_opcode_gives_sentinel_and_advances() {
    assert_eq!(alu(0x01, 5, 3, 9), ILLEGAL_RESULT);
    assert_eq!(alu(0x7f, 5, 3, 9), 1337);
    let mut emu = emu_with(&[compute(0x01, 2, 0), compute(0x7f, 2, 0)]);
    emu.tick();
    assert_eq!(emu.rd(), 1337);
    assert_eq!(emu.pc(), 1);
    emu.tick();
    assert_eq!(emu.rd(), 1337);
    assert_eq!(emu.pc(), 2);
}

#[test]
fn destination_table() {
    assert_eq!(destinations(0), Destinations { ra: false, rd: false, mem: false });
    assert_eq!(destinations(1), Destinations { ra: false, rd: false, mem: true });
    assert_eq!(destinations(3), Destinations { ra: false, rd: true, mem: true });
    assert_eq!(destinations(5), Destinations { ra: true, rd: false, mem: true });
    assert_eq!(destinations(6), Destinations { ra: true, rd: true, mem: false });
    assert_eq!(destinations(7), Destinations { ra: true, rd: true, mem: true });
}

#[test]
fn jump_table() {
    for r in [0u16, 1, 0x7fff, 0x8000, 0xffff] {
        let neg = r >= 0x8000;
        assert!(!jump_taken(0, r));
        assert_eq!(jump_taken(1, r), !neg && r != 0);
        assert_eq!(jump_taken(2, r), r == 0);
        assert_eq!(jump_taken(3, r), !neg);
        assert_eq!(jump_taken(4, r), neg);
        assert_eq!(jump_taken(5, r), r != 0);
        assert_eq!(jump_taken(6, r), neg || r == 0);
        assert!(jump_taken(7, r));
    }
}

#[test]
fn unconditional_jump_goes_to_ra() {
    for comp in [0x2a, 0x3f, 0x3a] {
        // @100; comp;JMP
        let mut emu = emu_with(&[100, compute(comp, 0, 7)]);
        emu.run(2);
        assert_eq!(emu.pc(), 100);
    }
}

#[test]
fn conditional_jump_taken_and_not_taken() {
    // @50; 0;JEQ
    let mut emu = emu_with(&[50, compute(0x2a, 0, 2)]);
    emu.run(2);
    assert_eq!(emu.pc(), 50);
    // @50; 1;JEQ
    let mut emu = emu_with(&[50, compute(0x3f, 0, 2)]);
    emu.run(2);
    assert_eq!(emu.pc(), 2);
    // @50; -1;JLT
    let mut emu = emu_with(&[50, compute(0x3a, 0, 4)]);
    emu.run(2);
    assert_eq!(emu.pc(), 50);
    // @50; 0;JLT
    let mut emu = emu_with(&[50, compute(0x2a, 0, 4)]);
    emu.run(2);
    assert_eq!(emu.pc(), 2);
}

#[test]
fn jump_uses_the_new_ra() {
    // @7; A=A+1;JMP
    let mut emu = emu_with(&[7, compute(0x37, 4, 7)]);
    emu.run(2);
    assert_eq!(emu.ra(), 8);
    assert_eq!(emu.pc(), 8);
}

#[test]
fn destination_seven_writes_at_new_address() {
    // @20; D=A; @3; AMD=D+1
    let mut emu = emu_with(&[20, compute(0x30, 2, 0), 3, compute(0x1f, 7, 0)]);
    emu.run(4);
    assert_eq!(emu.ra(), 21);
    assert_eq!(emu.rd(), 21);
    assert_eq!(emu.read_data(21), 21);
    assert_eq!(emu.read_data(3), 0);
}

#[test]
fn destination_five_writes_at_new_address() {
    // @3; AM=1
    let mut emu = emu_with(&[3, compute(0x3f, 5, 0)]);
    emu.run(2);
    assert_eq!(emu.ra(), 1);
    assert_eq!(emu.read_data(1), 1);
    assert_eq!(emu.read_data(3), 0);
}

#[test]
fn screen_write_fans_out_to_sixteen_pixels() {
    let mut emu = Emu::new();
    emu.store_ram(0x4000, 0xffff);
    let on: Vec<PixelEvent> = (0..16).map(|x| PixelEvent { x, y: 0, on: true }).collect();
    assert_eq!(emu.take_pixel_events(), on);
    assert_eq!(emu.read_data(0x4000), 0xffff);
    emu.store_ram(0x4000, 0x0000);
    let off: Vec<PixelEvent> = (0..16).map(|x| PixelEvent { x, y: 0, on: false }).collect();
    assert_eq!(emu.take_pixel_events(), off);
    emu.store_ram(0x3fff, 0xffff);
    assert!(emu.take_pixel_events().is_empty());
}

#[test]
fn screen_pixel_positions_and_bit_order() {
    let mut emu = Emu::new();
    // row 1, word 1 of the row
    emu.store_ram(0x4021, 0x8001);
    let events = emu.take_pixel_events();
    assert_eq!(events.len(), 16);
    assert_eq!(events[0], PixelEvent { x: 16, y: 1, on: true });
    assert_eq!(events[1], PixelEvent { x: 17, y: 1, on: false });
    assert_eq!(events[15], PixelEvent { x: 31, y: 1, on: true });
    emu.store_ram(0x5fff, 1);
    let events = emu.take_pixel_events();
    assert_eq!(events[0], PixelEvent { x: 496, y: 255, on: false });
    assert_eq!(events[15], PixelEvent { x: 511, y: 255, on: true });
}

#[test]
fn keyboard_and_high_addresses() {
    let mut emu = Emu::new();
    assert_eq!(KEYBOARD, 24576);
    emu.store_ram(KEYBOARD, 130);
    assert_eq!(emu.read_data(0x6000), 130);
    assert!(emu.take_pixel_events().is_empty());
    emu.store_ram(0x8000, 5);
    emu.store_ram(0xffff, 5);
    assert_eq!(emu.read_data(0), 0);
    assert_eq!(emu.read_data(0x7fff), 0);
}

#[test]
fn compute_write_into_screen_emits_events() {
    // @0x4000; M=-1
    let mut emu = emu_with(&[0x4000, compute(0x3a, 1, 0)]);
    emu.run(2);
    assert_eq!(emu.read_data(0x4000), 0xffff);
    assert_eq!(emu.take_pixel_events().len(), 16);
    assert!(emu.take_pixel_events().is_empty());
}

#[test]
fn reset_twice_equals_reset_once_and_keeps_program() {
    let program = [3u16, compute(0x3f, 7, 0), 0x4000, compute(0x3a, 1, 0)];
    let mut emu = emu_with(&program);
    emu.run(4);
    assert_ne!(emu.pc(), 0);
    emu.reset();
    let once = (emu.pc(), emu.ra(), emu.rd(), emu.rm(), emu.read_data(1), emu.read_data(0x4000));
    emu.reset();
    let twice = (emu.pc(), emu.ra(), emu.rd(), emu.rm(), emu.read_data(1), emu.read_data(0x4000));
    assert_eq!(once, (0, 0, 0, 0, 0, 0));
    assert_eq!(once, twice);
    assert!(emu.take_pixel_events().is_empty());
    for (i, w) in program.iter().enumerate() {
        assert_eq!(emu.read_instruction(i as u16), *w);
    }
}

#[test]
fn run_counts_steps_exactly() {
    // @0; M=M+1; @0; 0;JMP
    let program = [0u16, 0xfdc8, 0, 0xea87];
    let mut emu = emu_with(&program);
    emu.run(8);
    assert_eq!(emu.read_data(0), 2);
    assert_eq!(emu.pc(), 0);
    emu.run(0);
    assert_eq!(emu.pc(), 0);
    let mut emu = emu_with(&program);
    emu.continue_execution();
    assert_eq!(BATCH_STEPS, 9999);
    assert_eq!(emu.read_data(0), 2500);
    assert_eq!(emu.pc(), 3);
}

#[test]
fn set_pc_and_get_opcode() {
    let mut emu = emu_with(&[1, 2, 0xea87]);
    assert_eq!(emu.get_opcode(), 1);
    emu.set_pc(2);
    assert_eq!(emu.pc(), 2);
    assert_eq!(emu.get_opcode(), 0xea87);
    emu.set_pc(0x8001);
    assert_eq!(emu.get_opcode(), 2);
}

#[test]
fn pc_wraps_past_the_top() {
    let mut emu = Emu::new();
    emu.set_pc(0xffff);
    emu.tick();
    assert_eq!(emu.pc(), 0);
    emu.set_pc(0x7fff);
    emu.tick();
    assert_eq!(emu.pc(), 0x8000);
    assert_eq!(emu.get_opcode(), 0);
}

#[test]
fn parse_program_text() {
    let text = "0000000000000101\n1110110000010000\r\n1111111111111111";
    assert_eq!(parse_program(text), Ok(vec![5, 0xec10, 0xffff]));
    assert_eq!(parse_program("0000000000000001\n"), Ok(vec![1]));
    assert_eq!(parse_program(""), Ok(vec![]));
}

#[test]
fn parse_program_rejects_malformed_lines() {
    assert_eq!(parse_program("000000000000001\n"), Err(LoadError::Malformed));
    assert_eq!(parse_program("00000000000000012\n"), Err(LoadError::Malformed));
    assert_eq!(parse_program("000000000000000x\n"), Err(LoadError::Malformed));
    assert_eq!(parse_program("0000000000000001\n\n"), Err(LoadError::Malformed));
    assert_eq!(parse_program("0000000000000001\r"), Err(LoadError::Malformed));
}

#[test]
fn load_rom_writes_from_zero_and_keeps_state_on_error() {
    let mut emu = Emu::new();
    assert_eq!(emu.load_rom("0000000000000111\n0000000000001000\n"), Ok(()));
    assert_eq!(emu.read_instruction(0), 7);
    assert_eq!(emu.read_instruction(1), 8);
    assert_eq!(emu.load_rom("0000000000000011\nbad\n"), Err(LoadError::Malformed));
    assert_eq!(emu.read_instruction(0), 7);
    assert_eq!(emu.load_rom("0000000000000010\n"), Ok(()));
    assert_eq!(emu.read_instruction(0), 2);
    assert_eq!(emu.read_instruction(1), 8);
}

#[test]
fn load_rejects_programs_longer_than_memory() {
    let mut emu = Emu::new();
    let words = vec![1u16; 0x8001];
    assert_eq!(emu.load_program(&words), Err(LoadError::TooLong));
    assert_eq!(emu.read_instruction(0), 0);
    let text = "0000000000000001\n".repeat(0x8001);
    assert_eq!(emu.load_rom(&text), Err(LoadError::TooLong));
    assert_eq!(emu.read_instruction(0), 0);
    let full = vec![1u16; 0x8000];
    assert_eq!(emu.load_program(&full), Ok(()));
    assert_eq!(emu.read_instruction(0x7fff), 1);
}
