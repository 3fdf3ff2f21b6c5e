use smplvm::{Error, Register, Value, Width, VM};

const DISPLAY_LEN: usize = 64 * 32 * 2;

fn fresh_vm(program: &[u8], rom: [u8; 2]) -> VM {
    let mut ram = vec![0u8; 0x8000];
    for (i, b) in program.iter().enumerate() {
        ram[i] = *b;
    }
    VM::new(ram, vec![rom[0], rom[1]], vec![0u8; DISPLAY_LEN])
}

#[test]
fn reset_loads_vector_and_clears_flags() {
    let mut vm = fresh_vm(&[], [0x37, 0xF3]);
    vm.set_reg(&Register::flags(), 0xFFFF);
    vm.reset();
    assert_eq!(vm.get_reg(&Register::rip()), 0xF337);
    assert_eq!(vm.get_reg(&Register::flags()), 0);
}

#[test]
fn nop_advances_by_two() {
    let mut vm = fresh_vm(&[0x00], [0, 0]);
    vm.reset();
    assert!(vm.execute_n(1).is_ok());
    assert_eq!(vm.get_reg(&Register::rip()), 2);
}

#[test]
fn movc2r_byte() {
    // mov 0xF3, rb0 (selector: destination in the high half)
    let mut vm = fresh_vm(&[0x01, 0x40, 0xF3], [0, 0]);
    vm.reset();
    assert!(vm.execute_n(1).is_ok());
    assert_eq!(vm.get_reg(&Register::rip()), 3);
    assert_eq!(vm.registers[4], 0x00F3);
}

#[test]
fn movc2r_word() {
    // mov 0xF337, r1
    let mut vm = fresh_vm(&[0x02, 0x50, 0x37, 0xF3], [0, 0]);
    vm.reset();
    assert!(vm.execute_n(1).is_ok());
    assert_eq!(vm.get_reg(&Register::rip()), 4);
    assert_eq!(vm.registers[5], 0xF337);
}

#[test]
fn movr2r_word() {
    // mov 0xF337, r4 ; mov r4, r5
    let mut vm = fresh_vm(&[0x02, 0x80, 0x37, 0xF3, 0x04, 0x98], [0, 0]);
    vm.reset();
    assert!(vm.execute_n(2).is_ok());
    assert_eq!(vm.registers[8], 0xF337);
    assert_eq!(vm.registers[9], 0xF337);
}

#[test]
fn byte_write_preserves_high_byte() {
    let mut vm = fresh_vm(&[], [0, 0]);
    let r0w = Register::numbered(Width::Word, 0);
    let r0b = Register::numbered(Width::Byte, 0);
    vm.set_reg(&r0w, 0xF337);
    vm.set_reg(&r0b, 0xABCD);
    assert_eq!(vm.registers[4], 0xF3CD);
}

#[test]
fn add_byte_overflow_and_zero() {
    // mov 0xFF, rb10 ; mov 0x01, rb11 ; add rb10, rb11
    let mut vm = fresh_vm(&[0x01, 0xE0, 0xFF, 0x01, 0xF0, 0x01, 0x09, 0xFE], [0, 0]);
    vm.reset();
    assert!(vm.execute_n(3).is_ok());
    assert_eq!(vm.registers[14], 0x00FF);
    assert_eq!(vm.registers[15], 0x0000);
    // zero and overflow, not negative
    assert_eq!(vm.registers[3], VM::calc_flags(true, false, true));
    assert_eq!(VM::calc_flags(true, false, true), 0b101);
}

#[test]
fn add_byte_negative() {
    // mov 0x0F, rb10 ; mov 0xF0, rb11 ; add rb10, rb11
    let mut vm = fresh_vm(&[0x01, 0xE0, 0x0F, 0x01, 0xF0, 0xF0, 0x09, 0xFE], [0, 0]);
    vm.reset();
    assert!(vm.execute_n(3).is_ok());
    assert_eq!(vm.registers[15], 0x00FF);
    assert_eq!(vm.registers[3], VM::calc_flags(false, true, false));
}

#[test]
fn add_word_overflow() {
    // mov 0xF337, r8 ; add 0x1111, r8
    let mut vm = fresh_vm(&[0x02, 0xC0, 0x37, 0xF3, 0x08, 0xC0, 0x11, 0x11], [0, 0]);
    vm.reset();
    assert!(vm.execute_n(2).is_ok());
    assert_eq!(vm.registers[12], 0x0448);
    assert_eq!(vm.registers[3], VM::calc_flags(false, false, true));
}

#[test]
fn sub_computes_value_minus_register() {
    // mov 0xF337, r0 ; sub 0x11, rb0
    // The byte path subtracts the register's low byte from the value:
    // 0x11 - 0x37 wraps to 0xDA with a borrow; the high byte is preserved.
    let mut vm = fresh_vm(&[0x02, 0x40, 0x37, 0xF3, 0x0B, 0x40, 0x11], [0, 0]);
    vm.reset();
    assert!(vm.execute_n(2).is_ok());
    assert_eq!(vm.registers[4], 0xF3DA);
    assert_eq!(vm.registers[3], VM::calc_flags(false, true, true));
}

#[test]
fn sub_word() {
    // mov 0xF337, r0 ; sub 0xF337, r0 ; value - register == 0
    let mut vm = fresh_vm(&[0x02, 0x40, 0x37, 0xF3, 0x0C, 0x40, 0x37, 0xF3], [0, 0]);
    vm.reset();
    assert!(vm.execute_n(2).is_ok());
    assert_eq!(vm.registers[4], 0x0000);
    assert_eq!(vm.registers[3], VM::calc_flags(true, false, false));
}

#[test]
fn ajmp_sets_rip_exactly() {
    // mov 0xF337, r0 ; ajmp r0
    let mut vm = fresh_vm(&[0x02, 0x40, 0x37, 0xF3, 0x0F, 0x04], [0, 0]);
    vm.reset();
    assert!(vm.execute_n(2).is_ok());
    assert_eq!(vm.get_reg(&Register::rip()), 0xF337);
    assert_eq!(vm.registers[4], 0xF337);
    // ajmp leaves the flags alone
    assert_eq!(vm.registers[3], 0);
}

#[test]
fn jmp_adds_to_rip() {
    // mov 0xF337, r0 ; jmp r0 (rip was already advanced to 6)
    let mut vm = fresh_vm(&[0x02, 0x40, 0x37, 0xF3, 0x10, 0x04], [0, 0]);
    vm.reset();
    assert!(vm.execute_n(2).is_ok());
    assert_eq!(vm.get_reg(&Register::rip()), 0xF33D);
}

#[test]
fn movr2m_and_movm2r() {
    // mov 0x0037, r0 ; mov 0x2000, r1 ; mov rb0, [r1] ; mov [r1], rb2
    let mut vm = fresh_vm(
        &[
            0x02, 0x40, 0x37, 0x00, // mov 0x0037, r0
            0x02, 0x50, 0x00, 0x20, // mov 0x2000, r1
            0x06, 0x54, // mov rb0, [r1]: src rb0 (low), dest r1 (high)
            0x05, 0x65, // mov [r1], rb2: src r1 (low), dest rb2 (high)
        ],
        [0, 0],
    );
    vm.reset();
    assert!(vm.execute_n(3).is_ok());
    assert_eq!(vm.get_mem(0x2000), 0x37);
    assert!(vm.execute_n(1).is_ok());
    assert_eq!(vm.registers[6], 0x0037);
}

#[test]
fn ram_round_trip() {
    let mut vm = fresh_vm(&[], [0, 0]);
    vm.set_mem(0x1234, 0xAB);
    assert_eq!(vm.get_mem(0x1234), 0xAB);
    assert_eq!(vm.get_mem(0x1235), 0x00);
}

#[test]
fn display_region_round_trip() {
    let mut vm = fresh_vm(&[], [0, 0]);
    vm.set_mem(0x8005, 0x42);
    assert_eq!(vm.get_mem(0x8005), 0x42);
    assert_eq!(vm.display[5], 0x42);
}

#[test]
fn unmapped_writes_are_dropped_and_reads_zero() {
    let mut vm = fresh_vm(&[], [0x37, 0xF3]);
    vm.set_mem(0xA000, 0x99);
    assert_eq!(vm.get_mem(0xA000), 0x00);
    // the reset vector ROM is read-only
    vm.set_mem(0xFFFE, 0x99);
    assert_eq!(vm.get_mem(0xFFFE), 0x37);
    assert_eq!(vm.get_mem(0xFFFF), 0xF3);
    // every never-written address below the ROM reads zero
    assert_eq!(vm.get_mem(0x7FFF), 0x00);
    assert_eq!(vm.get_mem(0xFFFD), 0x00);
}

#[test]
fn invalid_opcode_surfaces_and_skips_two() {
    let mut vm = fresh_vm(&[0xF3, 0x37], [0, 0]);
    vm.reset();
    let res = vm.execute_next();
    assert_eq!(res, Err(Error::InvalidOpcode(0xF3, 0x37)));
    assert_eq!(vm.get_reg(&Register::rip()), 2);
}

#[test]
fn execute_n_stops_at_first_error() {
    let mut vm = fresh_vm(&[0x00, 0x00, 0xF3, 0x37, 0x00, 0x00], [0, 0]);
    vm.reset();
    let res = vm.execute_n(4);
    assert_eq!(res, Err(Error::InvalidOpcode(0xF3, 0x37)));
    assert_eq!(vm.get_reg(&Register::rip()), 4);
}

#[test]
fn get_reg_as_value_tags_width() {
    let mut vm = fresh_vm(&[], [0, 0]);
    let r0w = Register::numbered(Width::Word, 0);
    let r0b = Register::numbered(Width::Byte, 0);
    vm.set_reg(&r0w, 0xF337);
    let v = vm.get_reg_as_value(&r0b);
    assert_eq!(v, Value { width: Width::Byte, value: 0xF337 });
    assert_eq!(v.value_byte(), 0x37);
    assert_eq!(v.value_word(), 0xF337);
}
