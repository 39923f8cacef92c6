use chip8::alu::alu;
use chip8::{
    AluOp, BuzzerAction, Chip8, Fault, Instruction, Keypad, Mode, Outcome, ScreenAction,
};

fn machine_with(program: &[u8]) -> Chip8 {
    let mut machine = Chip8::new();
    machine.load_program(program);
    machine
}

fn step(machine: &mut Chip8) -> Result<ScreenAction, Fault> {
    machine.step(&Keypad::new(), 0)
}

#[test]
fn power_on_state() {
    let machine = Chip8::new();
    assert_eq!(machine.reg.pc, 0x200);
    assert_eq!(machine.reg.i, 0);
    assert_eq!(machine.reg.v, [0u8; 16]);
    assert!(machine.stack.is_empty());
    assert_eq!(machine.timers.delay, 0);
    assert_eq!(machine.timers.sound, 0);
    assert_eq!(machine.mode, Mode::Running);
    assert!(machine.display.pixels.iter().all(|lit| !*lit));
    assert_eq!(&machine.memory.bytes[0..5], &[0xF0, 0x90, 0x90, 0x90, 0xF0]);
    assert_eq!(&machine.memory.bytes[75..80], &[0xF0, 0x80, 0xF0, 0x80, 0x80]);
    assert!(machine.memory.bytes[80..].iter().all(|byte| *byte == 0));
}

#[test]
fn add_sets_carry_for_every_operand_pair() {
    for a in 0..=255u8 {
        for b in 0..=255u8 {
            let out = alu(AluOp::Add, a, b);
            let sum: u16 = a as u16 + b as u16;
            assert_eq!(out.value as u16, sum % 256);
            assert_eq!(out.flag, Some(if sum >= 256 { 1 } else { 0 }));
        }
    }
}

#[test]
fn add_instruction_writes_sum_and_carry() {
    let mut machine = machine_with(&[0x80, 0x14, 0x82, 0x34]);
    machine.reg.v[0] = 200;
    machine.reg.v[1] = 100;
    machine.reg.v[2] = 7;
    machine.reg.v[3] = 8;
    assert_eq!(step(&mut machine), Ok(ScreenAction::Nothing));
    assert_eq!(machine.reg.v[0], 44);
    assert_eq!(machine.reg.v[0xF], 1);
    assert_eq!(step(&mut machine), Ok(ScreenAction::Nothing));
    assert_eq!(machine.reg.v[2], 15);
    assert_eq!(machine.reg.v[0xF], 0);
    assert_eq!(machine.reg.pc, 0x204);
}

#[test]
fn add_into_flag_register_keeps_the_flag() {
    let mut machine = machine_with(&[0x8F, 0x14]);
    machine.reg.v[0xF] = 200;
    machine.reg.v[1] = 100;
    assert_eq!(step(&mut machine), Ok(ScreenAction::Nothing));
    assert_eq!(machine.reg.v[0xF], 1);
}

#[test]
fn sub_sets_flag_when_nothing_is_borrowed() {
    for a in 0..=255u8 {
        for b in 0..=255u8 {
            let out = alu(AluOp::Sub, a, b);
            assert_eq!(out.value, a.wrapping_sub(b));
            assert_eq!(out.flag, Some(if a >= b { 1 } else { 0 }));
            let reversed = alu(AluOp::SubFrom, a, b);
            assert_eq!(reversed.value, b.wrapping_sub(a));
            assert_eq!(reversed.flag, Some(if b >= a { 1 } else { 0 }));
        }
    }
}

#[test]
fn sub_instruction_writes_difference_and_borrow() {
    let mut machine = machine_with(&[0x80, 0x15, 0x82, 0x35, 0x84, 0x57]);
    machine.reg.v[0] = 5;
    machine.reg.v[1] = 7;
    machine.reg.v[2] = 9;
    machine.reg.v[3] = 9;
    machine.reg.v[4] = 3;
    machine.reg.v[5] = 10;
    assert_eq!(step(&mut machine), Ok(ScreenAction::Nothing));
    assert_eq!(machine.reg.v[0], 254);
    assert_eq!(machine.reg.v[0xF], 0);
    assert_eq!(step(&mut machine), Ok(ScreenAction::Nothing));
    assert_eq!(machine.reg.v[2], 0);
    assert_eq!(machine.reg.v[0xF], 1);
    assert_eq!(step(&mut machine), Ok(ScreenAction::Nothing));
    assert_eq!(machine.reg.v[4], 7);
    assert_eq!(machine.reg.v[0xF], 1);
}

#[test]
fn shift_right_reads_vy() {
    for vx in [0u8, 1, 0x55, 0xFF] {
        let mut machine = machine_with(&[0x83, 0x46]);
        machine.reg.v[3] = vx;
        machine.reg.v[4] = 0b1011_0011;
        assert_eq!(step(&mut machine), Ok(ScreenAction::Nothing));
        assert_eq!(machine.reg.v[3], 0b0101_1001);
        assert_eq!(machine.reg.v[4], 0b1011_0011);
        assert_eq!(machine.reg.v[0xF], 1);
    }
}

#[test]
fn shift_right_on_one_register_takes_the_flag_from_the_old_value() {
    let mut machine = machine_with(&[0x83, 0x36]);
    machine.reg.v[3] = 0b0000_0101;
    assert_eq!(step(&mut machine), Ok(ScreenAction::Nothing));
    assert_eq!(machine.reg.v[3], 0b0000_0010);
    assert_eq!(machine.reg.v[0xF], 1);
}

#[test]
fn shift_left_reads_vy() {
    let mut machine = machine_with(&[0x83, 0x4E, 0x85, 0x6E]);
    machine.reg.v[3] = 0x11;
    machine.reg.v[4] = 0b1100_0001;
    machine.reg.v[6] = 0b0100_0001;
    assert_eq!(step(&mut machine), Ok(ScreenAction::Nothing));
    assert_eq!(machine.reg.v[3], 0b1000_0010);
    assert_eq!(machine.reg.v[0xF], 1);
    assert_eq!(step(&mut machine), Ok(ScreenAction::Nothing));
    assert_eq!(machine.reg.v[5], 0b1000_0010);
    assert_eq!(machine.reg.v[0xF], 0);
}

#[test]
fn logic_operations_leave_the_flag_alone() {
    let mut machine = machine_with(&[0x80, 0x11, 0x82, 0x12, 0x83, 0x13, 0x84, 0x10]);
    machine.reg.v[0] = 0b1100;
    machine.reg.v[1] = 0b1010;
    machine.reg.v[2] = 0b1100;
    machine.reg.v[3] = 0b1100;
    machine.reg.v[0xF] = 9;
    for _ in 0..4 {
        assert_eq!(step(&mut machine), Ok(ScreenAction::Nothing));
    }
    assert_eq!(machine.reg.v[0], 0b1110);
    assert_eq!(machine.reg.v[2], 0b1000);
    assert_eq!(machine.reg.v[3], 0b0110);
    assert_eq!(machine.reg.v[4], 0b1010);
    assert_eq!(machine.reg.v[0xF], 9);
}

#[test]
fn load_and_add_immediate() {
    let mut machine = machine_with(&[0x6A, 0xF0, 0x7A, 0x20]);
    machine.reg.v[0xF] = 3;
    assert_eq!(step(&mut machine), Ok(ScreenAction::Nothing));
    assert_eq!(machine.reg.v[0xA], 0xF0);
    assert_eq!(step(&mut machine), Ok(ScreenAction::Nothing));
    assert_eq!(machine.reg.v[0xA], 0x10);
    assert_eq!(machine.reg.v[0xF], 3);
}

#[test]
fn bcd_of_157() {
    let mut machine = machine_with(&[0xF2, 0x33]);
    machine.reg.v[2] = 157;
    machine.reg.i = 0x300;
    assert_eq!(step(&mut machine), Ok(ScreenAction::Nothing));
    assert_eq!(&machine.memory.bytes[0x300..0x303], &[1, 5, 7]);
    assert_eq!(machine.reg.i, 0x300);
}

#[test]
fn bcd_of_small_and_large_values() {
    assert_eq!(chip8::alu::bcd(0), (0, 0, 0));
    assert_eq!(chip8::alu::bcd(9), (0, 0, 9));
    assert_eq!(chip8::alu::bcd(40), (0, 4, 0));
    assert_eq!(chip8::alu::bcd(255), (2, 5, 5));
}

#[test]
fn bcd_at_the_end_of_memory() {
    let mut machine = machine_with(&[0xF2, 0x33]);
    machine.reg.v[2] = 123;
    machine.reg.i = 4093;
    assert_eq!(step(&mut machine), Ok(ScreenAction::Nothing));
    assert_eq!(&machine.memory.bytes[4093..4096], &[1, 2, 3]);

    let mut machine = machine_with(&[0xF2, 0x33]);
    machine.reg.i = 4094;
    let before = machine.clone();
    assert_eq!(step(&mut machine), Err(Fault::AddressOutOfBounds));
    assert_eq!(machine, before);
}

#[test]
fn store_then_load_round_trip() {
    let mut machine = machine_with(&[0xF3, 0x55, 0xA3, 0x00, 0xF3, 0x65]);
    machine.reg.v[0] = 1;
    machine.reg.v[1] = 2;
    machine.reg.v[2] = 3;
    machine.reg.v[3] = 4;
    machine.reg.v[4] = 99;
    machine.reg.i = 0x300;
    assert_eq!(step(&mut machine), Ok(ScreenAction::Nothing));
    assert_eq!(&machine.memory.bytes[0x300..0x305], &[1, 2, 3, 4, 0]);
    assert_eq!(machine.reg.i, 0x304);
    machine.reg.v = [0; 16];
    assert_eq!(step(&mut machine), Ok(ScreenAction::Nothing));
    assert_eq!(machine.reg.i, 0x300);
    assert_eq!(step(&mut machine), Ok(ScreenAction::Nothing));
    assert_eq!(&machine.reg.v[0..5], &[1, 2, 3, 4, 0]);
    assert_eq!(machine.reg.i, 0x304);
}

#[test]
fn store_and_load_fault_past_the_end_of_memory() {
    let mut machine = machine_with(&[0xF1, 0x55]);
    machine.reg.i = 4095;
    let before = machine.clone();
    assert_eq!(step(&mut machine), Err(Fault::AddressOutOfBounds));
    assert_eq!(machine, before);

    let mut machine = machine_with(&[0xF1, 0x65]);
    machine.reg.i = 4095;
    assert_eq!(step(&mut machine), Err(Fault::AddressOutOfBounds));

    let mut machine = machine_with(&[0xF1, 0x55]);
    machine.reg.v[0] = 0xAA;
    machine.reg.v[1] = 0xBB;
    machine.reg.i = 4094;
    assert_eq!(step(&mut machine), Ok(ScreenAction::Nothing));
    assert_eq!(&machine.memory.bytes[4094..4096], &[0xAA, 0xBB]);
    assert_eq!(machine.reg.i, 4096);
}

#[test]
fn jump_with_offset() {
    let mut machine = machine_with(&[0xB3, 0x00]);
    machine.reg.v[0] = 0x10;
    assert_eq!(step(&mut machine), Ok(ScreenAction::Nothing));
    assert_eq!(machine.reg.pc, 0x310);
}

#[test]
fn jump_sets_the_program_counter() {
    let mut machine = machine_with(&[0x1A, 0xBC]);
    assert_eq!(step(&mut machine), Ok(ScreenAction::Nothing));
    assert_eq!(machine.reg.pc, 0xABC);
}

#[test]
fn return_with_empty_stack_is_a_fault() {
    let mut machine = machine_with(&[0x00, 0xEE]);
    let before = machine.clone();
    assert_eq!(step(&mut machine), Err(Fault::EmptyStack));
    assert_eq!(machine, before);
    assert_eq!(machine.cycle(&Keypad::new(), true), Err(Fault::EmptyStack));
    assert_eq!(machine, before);
}

#[test]
fn call_then_return_restores_the_program_counter() {
    let mut machine = machine_with(&[0x23, 0x00]);
    machine.memory.bytes[0x300] = 0x00;
    machine.memory.bytes[0x301] = 0xEE;
    assert_eq!(step(&mut machine), Ok(ScreenAction::Nothing));
    assert_eq!(machine.reg.pc, 0x300);
    assert_eq!(machine.stack, vec![0x202]);
    assert_eq!(step(&mut machine), Ok(ScreenAction::Nothing));
    assert_eq!(machine.reg.pc, 0x202);
    assert!(machine.stack.is_empty());
}

#[test]
fn nested_calls_return_in_reverse_order() {
    let mut machine = machine_with(&[0x23, 0x00]);
    machine.memory.bytes[0x300] = 0x24;
    machine.memory.bytes[0x301] = 0x00;
    machine.memory.bytes[0x302] = 0x00;
    machine.memory.bytes[0x303] = 0xEE;
    machine.memory.bytes[0x400] = 0x00;
    machine.memory.bytes[0x401] = 0xEE;
    assert_eq!(step(&mut machine), Ok(ScreenAction::Nothing));
    assert_eq!(step(&mut machine), Ok(ScreenAction::Nothing));
    assert_eq!(machine.stack, vec![0x202, 0x302]);
    assert_eq!(step(&mut machine), Ok(ScreenAction::Nothing));
    assert_eq!(machine.reg.pc, 0x302);
    assert_eq!(step(&mut machine), Ok(ScreenAction::Nothing));
    assert_eq!(machine.reg.pc, 0x202);
}

#[test]
fn skips_compare_register_and_byte() {
    let mut machine = machine_with(&[0x31, 0x42, 0x00, 0x00, 0x31, 0x43, 0x41, 0x42, 0x41, 0x43]);
    machine.reg.v[1] = 0x42;
    assert_eq!(step(&mut machine), Ok(ScreenAction::Nothing));
    assert_eq!(machine.reg.pc, 0x204);
    assert_eq!(step(&mut machine), Ok(ScreenAction::Nothing));
    assert_eq!(machine.reg.pc, 0x206);
    assert_eq!(step(&mut machine), Ok(ScreenAction::Nothing));
    assert_eq!(machine.reg.pc, 0x208);
    assert_eq!(step(&mut machine), Ok(ScreenAction::Nothing));
    assert_eq!(machine.reg.pc, 0x20C);
}

#[test]
fn skips_compare_two_registers() {
    let mut machine = machine_with(&[
        0x51, 0x20, 0x00, 0x00, 0x91, 0x20, 0x91, 0x30, 0x00, 0x00, 0x51, 0x30,
    ]);
    machine.reg.v[1] = 7;
    machine.reg.v[2] = 7;
    machine.reg.v[3] = 8;
    assert_eq!(step(&mut machine), Ok(ScreenAction::Nothing));
    assert_eq!(machine.reg.pc, 0x204);
    assert_eq!(step(&mut machine), Ok(ScreenAction::Nothing));
    assert_eq!(machine.reg.pc, 0x206);
    assert_eq!(step(&mut machine), Ok(ScreenAction::Nothing));
    assert_eq!(machine.reg.pc, 0x20A);
    assert_eq!(step(&mut machine), Ok(ScreenAction::Nothing));
    assert_eq!(machine.reg.pc, 0x20C);
}

#[test]
fn index_register_instructions() {
    let mut machine = machine_with(&[0xA1, 0x23, 0xF0, 0x1E, 0xF1, 0x1E, 0xF2, 0x29]);
    machine.reg.v[0] = 0x10;
    machine.reg.v[1] = 1;
    machine.reg.v[2] = 0xB;
    assert_eq!(step(&mut machine), Ok(ScreenAction::Nothing));
    assert_eq!(machine.reg.i, 0x123);
    assert_eq!(step(&mut machine), Ok(ScreenAction::Nothing));
    assert_eq!(machine.reg.i, 0x133);
    machine.reg.i = 0xFFFF;
    assert_eq!(step(&mut machine), Ok(ScreenAction::Nothing));
    assert_eq!(machine.reg.i, 0);
    assert_eq!(step(&mut machine), Ok(ScreenAction::Nothing));
    assert_eq!(machine.reg.i, 55);
    assert_eq!(&machine.memory.bytes[55..60], &[0xE0, 0x90, 0xE0, 0x90, 0xE0]);
}

#[test]
fn font_address_of_any_byte() {
    let mut machine = machine_with(&[0xF2, 0x29]);
    machine.reg.v[2] = 255;
    assert_eq!(step(&mut machine), Ok(ScreenAction::Nothing));
    assert_eq!(machine.reg.i, 1275);
}

#[test]
fn timer_instructions() {
    let mut machine = machine_with(&[0xF1, 0x15, 0xF1, 0x18, 0xF2, 0x07]);
    machine.reg.v[1] = 30;
    assert_eq!(step(&mut machine), Ok(ScreenAction::Nothing));
    assert_eq!(machine.timers.delay, 30);
    assert_eq!(machine.timers.sound, 0);
    assert_eq!(step(&mut machine), Ok(ScreenAction::Nothing));
    assert_eq!(machine.timers.sound, 30);
    assert_eq!(step(&mut machine), Ok(ScreenAction::Nothing));
    assert_eq!(machine.reg.v[2], 30);
}

#[test]
fn random_instruction_masks_the_given_byte() {
    let mut machine = machine_with(&[0xC4, 0x0F, 0xC5, 0xF0]);
    assert_eq!(machine.step(&Keypad::new(), 0xAB), Ok(ScreenAction::Nothing));
    assert_eq!(machine.reg.v[4], 0x0B);
    assert_eq!(machine.step(&Keypad::new(), 0xAB), Ok(ScreenAction::Nothing));
    assert_eq!(machine.reg.v[5], 0xA0);
}

#[test]
fn random_instruction_in_a_cycle_stays_under_the_mask() {
    for _ in 0..200 {
        let mut machine = machine_with(&[0xC4, 0x0F, 0xC5, 0x00]);
        machine.reg.v[5] = 0x77;
        assert!(machine.cycle(&Keypad::new(), false).is_ok());
        assert!(machine.reg.v[4] <= 0x0F);
        assert!(machine.cycle(&Keypad::new(), false).is_ok());
        assert_eq!(machine.reg.v[5], 0);
        assert_eq!(machine.reg.pc, 0x204);
    }
}

#[test]
fn random_instruction_in_a_cycle_varies() {
    let mut seen = [false; 256];
    for _ in 0..4000 {
        let mut machine = machine_with(&[0xC4, 0xFF]);
        assert!(machine.cycle(&Keypad::new(), false).is_ok());
        seen[machine.reg.v[4] as usize] = true;
    }
    let distinct: usize = seen.iter().filter(|hit| **hit).count();
    assert!(distinct > 64);
}

#[test]
fn key_skips_follow_the_keypad() {
    let mut keys = Keypad::new();
    keys.set_key(0xA, true);
    let mut machine = machine_with(&[
        0xE1, 0x9E, 0x00, 0x00, 0xE2, 0x9E, 0xE2, 0xA1, 0x00, 0x00, 0xE1, 0xA1,
    ]);
    machine.reg.v[1] = 0xA;
    machine.reg.v[2] = 0x3;
    assert_eq!(machine.step(&keys, 0), Ok(ScreenAction::Nothing));
    assert_eq!(machine.reg.pc, 0x204);
    assert_eq!(machine.step(&keys, 0), Ok(ScreenAction::Nothing));
    assert_eq!(machine.reg.pc, 0x206);
    assert_eq!(machine.step(&keys, 0), Ok(ScreenAction::Nothing));
    assert_eq!(machine.reg.pc, 0x20A);
    assert_eq!(machine.step(&keys, 0), Ok(ScreenAction::Nothing));
    assert_eq!(machine.reg.pc, 0x20C);
}

#[test]
fn key_skip_with_a_value_that_is_no_key_is_a_fault() {
    let mut machine = machine_with(&[0xE1, 0x9E]);
    machine.reg.v[1] = 16;
    let before = machine.clone();
    assert_eq!(step(&mut machine), Err(Fault::InvalidKey));
    assert_eq!(machine, before);
    let mut machine = machine_with(&[0xE1, 0xA1]);
    machine.reg.v[1] = 200;
    assert_eq!(step(&mut machine), Err(Fault::InvalidKey));
}

#[test]
fn unknown_words_are_faults() {
    for word in [
        0x0000u16, 0x00E1, 0x0123, 0x5121, 0x8128, 0x812F, 0x9121, 0xE19F, 0xE100, 0xF100, 0xF156,
        0xFFFF,
    ] {
        let mut machine = machine_with(&word.to_be_bytes());
        let before = machine.clone();
        assert_eq!(step(&mut machine), Err(Fault::UnknownInstruction(word)));
        assert_eq!(machine, before);
        assert_eq!(machine.cycle(&Keypad::new(), true), Err(Fault::UnknownInstruction(word)));
        assert_eq!(machine, before);
    }
}

#[test]
fn fetch_past_the_end_of_memory_is_a_fault() {
    let mut machine = Chip8::new();
    machine.reg.pc = 4095;
    assert_eq!(machine.fetch(), Err(Fault::AddressOutOfBounds));
    assert_eq!(step(&mut machine), Err(Fault::AddressOutOfBounds));
    assert_eq!(machine.reg.pc, 4095);
    machine.reg.pc = 0xFFFF;
    assert_eq!(step(&mut machine), Err(Fault::AddressOutOfBounds));
    machine.reg.pc = 4094;
    machine.memory.bytes[4094] = 0x12;
    machine.memory.bytes[4095] = 0x34;
    assert_eq!(machine.fetch(), Ok(0x1234));
    assert_eq!(step(&mut machine), Ok(ScreenAction::Nothing));
    assert_eq!(machine.reg.pc, 0x234);
}

#[test]
fn fetch_is_big_endian() {
    let machine = machine_with(&[0xAB, 0xCD]);
    assert_eq!(machine.fetch(), Ok(0xABCD));
    assert_eq!(machine.next_instruction(), Ok(Instruction::LoadIndex { addr: 0xBCD }));
}

#[test]
fn malformed_instruction_is_a_fault() {
    let mut machine = Chip8::new();
    let before = machine.clone();
    let keys = Keypad::new();
    assert_eq!(
        machine.execute(Instruction::LoadByte { x: 16, byte: 1 }, &keys, 0),
        Err(Fault::InvalidOperand)
    );
    assert_eq!(
        machine.execute(Instruction::Jump { addr: 0x1000 }, &keys, 0),
        Err(Fault::InvalidOperand)
    );
    assert_eq!(
        machine.execute(Instruction::Draw { x: 0, y: 0, rows: 16 }, &keys, 0),
        Err(Fault::InvalidOperand)
    );
    assert_eq!(
        machine.execute(Instruction::Alu { op: AluOp::Add, x: 1, y: 16 }, &keys, 0),
        Err(Fault::InvalidOperand)
    );
    assert_eq!(machine, before);
}

#[test]
fn waiting_with_a_register_that_does_not_exist_is_a_fault() {
    let mut machine = Chip8::new();
    machine.mode = Mode::WaitingForKey { register: 16 };
    let before = machine.clone();
    assert_eq!(machine.cycle(&Keypad::new(), false), Err(Fault::InvalidOperand));
    assert_eq!(machine, before);
}

#[test]
fn wait_for_key_takes_the_lowest_key_down() {
    let mut machine = machine_with(&[0xF7, 0x0A, 0x67, 0x01]);
    machine.timers.delay = 10;
    machine.timers.sound = 10;
    let mut keys = Keypad::new();
    assert_eq!(
        machine.cycle(&keys, false),
        Ok(Outcome { screen: ScreenAction::Nothing, buzzer: BuzzerAction::Play })
    );
    assert_eq!(machine.mode, Mode::WaitingForKey { register: 7 });
    assert!(!machine.takes_tick());
    assert_eq!(machine.reg.pc, 0x202);
    for _ in 0..3 {
        assert_eq!(
            machine.cycle(&keys, true),
            Ok(Outcome { screen: ScreenAction::PollEvents, buzzer: BuzzerAction::Leave })
        );
        assert_eq!(machine.mode, Mode::WaitingForKey { register: 7 });
        assert_eq!(machine.reg.pc, 0x202);
        assert_eq!(machine.timers.delay, 10);
        assert_eq!(machine.timers.sound, 10);
    }
    keys.set_key(0xC, true);
    keys.set_key(0x5, true);
    assert_eq!(
        machine.cycle(&keys, true),
        Ok(Outcome { screen: ScreenAction::PollEvents, buzzer: BuzzerAction::Leave })
    );
    assert_eq!(machine.mode, Mode::Running);
    assert!(machine.takes_tick());
    assert_eq!(machine.reg.v[7], 0x5);
    assert_eq!(machine.reg.pc, 0x202);
    assert_eq!(machine.timers.delay, 10);
    assert_eq!(
        machine.cycle(&keys, true),
        Ok(Outcome { screen: ScreenAction::Nothing, buzzer: BuzzerAction::Play })
    );
    assert_eq!(machine.reg.v[7], 1);
    assert_eq!(machine.timers.delay, 9);
}

#[test]
fn cycle_consumes_at_most_one_tick() {
    let mut machine = machine_with(&[0x60, 0x01, 0x60, 0x02, 0x60, 0x03]);
    machine.timers.delay = 1;
    machine.timers.sound = 3;
    let keys = Keypad::new();
    assert_eq!(
        machine.cycle(&keys, false),
        Ok(Outcome { screen: ScreenAction::Nothing, buzzer: BuzzerAction::Play })
    );
    assert_eq!((machine.timers.delay, machine.timers.sound), (1, 3));
    assert_eq!(
        machine.cycle(&keys, true),
        Ok(Outcome { screen: ScreenAction::Nothing, buzzer: BuzzerAction::Play })
    );
    assert_eq!((machine.timers.delay, machine.timers.sound), (0, 2));
    assert_eq!(
        machine.cycle(&keys, true),
        Ok(Outcome { screen: ScreenAction::Nothing, buzzer: BuzzerAction::Pause })
    );
    assert_eq!((machine.timers.delay, machine.timers.sound), (0, 1));
}

#[test]
fn cycle_with_matches_cycle_without_random_instruction() {
    let program: [u8; 6] = [0x61, 0x05, 0x71, 0x05, 0xA2, 0x22];
    let mut first = machine_with(&program);
    let mut second = machine_with(&program);
    let keys = Keypad::new();
    for _ in 0..3 {
        assert_eq!(first.cycle(&keys, true), second.cycle_with(&keys, true, 0x5A));
        assert_eq!(first, second);
    }
    assert_eq!(first.reg.v[1], 10);
    assert_eq!(first.reg.i, 0x222);
}

#[test]
fn draws_random_only_for_the_random_instruction() {
    assert!(machine_with(&[0xC0, 0xFF]).draws_random());
    assert!(!machine_with(&[0x60, 0xFF]).draws_random());
    assert!(!machine_with(&[0x00, 0x00]).draws_random());
    let mut waiting = machine_with(&[0xC0, 0xFF]);
    waiting.mode = Mode::WaitingForKey { register: 0 };
    assert!(!waiting.draws_random());
}

#[test]
fn load_program_truncates_at_the_end_of_memory() {
    let mut machine = Chip8::new();
    let program: Vec<u8> = (0..4000u32).map(|k| (k % 251) as u8 + 1).collect();
    assert_eq!(machine.load_program(&program), 3584);
    assert_eq!(machine.memory.bytes[0x200], 1);
    assert_eq!(machine.memory.bytes[4095], (3583u32 % 251) as u8 + 1);
    assert_eq!(&machine.memory.bytes[0..5], &[0xF0, 0x90, 0x90, 0x90, 0xF0]);
    assert_eq!(machine.memory.bytes[0x1FF], 0);

    let mut machine = Chip8::new();
    assert_eq!(machine.load_program(&[]), 0);
    assert_eq!(machine, Chip8::new());
    assert_eq!(machine.load_program(&[9, 8, 7]), 3);
    assert_eq!(&machine.memory.bytes[0x200..0x204], &[9, 8, 7, 0]);
}
