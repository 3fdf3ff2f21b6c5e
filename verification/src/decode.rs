//! The instruction decoder: a pure function from a memory view and an
//! address to a typed instruction (or a decode error) plus its encoded
//! length.
use vstd::prelude::*;

use crate::error::Error;
use crate::isa::{Instruction, Register, Value, Width};
use crate::vm::{VmState, VM};

verus! {

/// The fixed opcode table: what decoding yields at `addr` in state `s`.
///
/// The opcode byte sits at `addr`; the register-selector byte at `addr + 1`;
/// an embedded immediate at `addr + 2` (low byte first for a word), all
/// addresses wrapping modulo 2^16. An unrecognized opcode yields
/// `InvalidOpcode` with the opcode byte and the byte after it, and the
/// conservative skip length 2; a recognized one yields the instruction and
/// its canonical length.
pub open spec fn spec_decompile(s: VmState, addr: u16) -> (Result<Instruction, Error>, u16) {
    let op = s.read_mem(addr);
    let sel = s.read_mem(addr.wrapping_add(1));
    let imm_lo = s.read_mem(addr.wrapping_add(2));
    let imm_hi = s.read_mem(addr.wrapping_add(3));
    let imm_word = (imm_lo + 256 * imm_hi) as u16;
    let src_b = Register { width: Width::Byte, index: (sel % 16) as u8 };
    let src_w = Register { width: Width::Word, index: (sel % 16) as u8 };
    let dest_b = Register { width: Width::Byte, index: (sel / 16) as u8 };
    let dest_w = Register { width: Width::Word, index: (sel / 16) as u8 };
    let inst: Result<Instruction, Error> = if op == 0x00 {
        Ok(Instruction::Nop)
    } else if op == 0x01 {
        Ok(Instruction::MovC2R(Value { width: Width::Byte, value: imm_lo as u16 }, dest_b))
    } else if op == 0x02 {
        Ok(Instruction::MovC2R(Value { width: Width::Word, value: imm_word }, dest_w))
    } else if op == 0x03 {
        Ok(Instruction::MovR2R(src_b, dest_b))
    } else if op == 0x04 {
        Ok(Instruction::MovR2R(src_w, dest_w))
    } else if op == 0x05 {
        Ok(Instruction::MovM2R(src_w, dest_b))
    } else if op == 0x06 {
        Ok(Instruction::MovR2M(src_b, dest_w))
    } else if op == 0x07 {
        Ok(Instruction::AddC2R(Value { width: Width::Byte, value: imm_lo as u16 }, dest_b))
    } else if op == 0x08 {
        Ok(Instruction::AddC2R(Value { width: Width::Word, value: imm_word }, dest_w))
    } else if op == 0x09 {
        Ok(Instruction::AddR2R(src_b, dest_b))
    } else if op == 0x0A {
        Ok(Instruction::AddR2R(src_w, dest_w))
    } else if op == 0x0B {
        Ok(Instruction::SubC2R(Value { width: Width::Byte, value: imm_lo as u16 }, dest_b))
    } else if op == 0x0C {
        Ok(Instruction::SubC2R(Value { width: Width::Word, value: imm_word }, dest_w))
    } else if op == 0x0D {
        Ok(Instruction::SubR2R(src_b, dest_b))
    } else if op == 0x0E {
        Ok(Instruction::SubR2R(src_w, dest_w))
    } else if op == 0x0F {
        Ok(Instruction::AJmp(src_w))
    } else if op == 0x10 {
        Ok(Instruction::Jmp(src_w))
    } else {
        Err(Error::InvalidOpcode(op, sel))
    };
    let len: u16 = match inst {
        Ok(i) => i.spec_len() as u16,
        Err(e) => 2,
    };
    (inst, len)
}

/// Decode the instruction at `addr` of the machine's memory.
///
/// The reported length is the decoded instruction's canonical encoded size,
/// independent of operand values; an unrecognized opcode fails with
/// `InvalidOpcode(opcode, next_byte)` and reports the fixed skip length 2.
pub fn decompile(vm: &VM, addr: u16) -> (r: (Result<Instruction, Error>, u16))
    requires
        vm@.wf(),
    ensures
        r == spec_decompile(vm@, addr),
        r.0 is Ok ==> r.1 as int == r.0->Ok_0.spec_len() && r.0->Ok_0.wf(),
        r.0 is Err <==> vm@.read_mem(addr) > 0x10,
        r.0 is Err ==> r.1 == 2 && r.0->Err_0 == Error::InvalidOpcode(
            vm@.read_mem(addr),
            vm@.read_mem(addr.wrapping_add(1)),
        ),
{
    let op = vm.get_mem(addr);
    let sel = vm.get_mem(addr.wrapping_add(1));
    let imm_lo = vm.get_mem(addr.wrapping_add(2));
    let imm_hi = vm.get_mem(addr.wrapping_add(3));
    let imm_word: u16 = imm_lo as u16 + 256 * (imm_hi as u16);
    let inst: Result<Instruction, Error> = match op {
        0x00 => Ok(Instruction::Nop),
        0x01 => Ok(
            Instruction::MovC2R(Value::byte(imm_lo), Register::from_dest(Width::Byte, sel)),
        ),
        0x02 => Ok(
            Instruction::MovC2R(Value::word(imm_word), Register::from_dest(Width::Word, sel)),
        ),
        0x03 => Ok(
            Instruction::MovR2R(
                Register::from_src(Width::Byte, sel),
                Register::from_dest(Width::Byte, sel),
            ),
        ),
        0x04 => Ok(
            Instruction::MovR2R(
                Register::from_src(Width::Word, sel),
                Register::from_dest(Width::Word, sel),
            ),
        ),
        0x05 => Ok(
            Instruction::MovM2R(
                Register::from_src(Width::Word, sel),
                Register::from_dest(Width::Byte, sel),
            ),
        ),
        0x06 => Ok(
            Instruction::MovR2M(
                Register::from_src(Width::Byte, sel),
                Register::from_dest(Width::Word, sel),
            ),
        ),
        0x07 => Ok(
            Instruction::AddC2R(Value::byte(imm_lo), Register::from_dest(Width::Byte, sel)),
        ),
        0x08 => Ok(
            Instruction::AddC2R(Value::word(imm_word), Register::from_dest(Width::Word, sel)),
        ),
        0x09 => Ok(
            Instruction::AddR2R(
                Register::from_src(Width::Byte, sel),
                Register::from_dest(Width::Byte, sel),
            ),
        ),
        0x0A => Ok(
            Instruction::AddR2R(
                Register::from_src(Width::Word, sel),
                Register::from_dest(Width::Word, sel),
            ),
        ),
        0x0B => Ok(
            Instruction::SubC2R(Value::byte(imm_lo), Register::from_dest(Width::Byte, sel)),
        ),
        0x0C => Ok(
            Instruction::SubC2R(Value::word(imm_word), Register::from_dest(Width::Word, sel)),
        ),
        0x0D => Ok(
            Instruction::SubR2R(
                Register::from_src(Width::Byte, sel),
                Register::from_dest(Width::Byte, sel),
            ),
        ),
        0x0E => Ok(
            Instruction::SubR2R(
                Register::from_src(Width::Word, sel),
                Register::from_dest(Width::Word, sel),
            ),
        ),
        0x0F => Ok(Instruction::AJmp(Register::from_src(Width::Word, sel))),
        0x10 => Ok(Instruction::Jmp(Register::from_src(Width::Word, sel))),
        _ => Err(Error::InvalidOpcode(op, sel)),
    };
    let len: u16 = match &inst {
        Ok(i) => i.len(),
        Err(_) => 2,
    };
    (inst, len)
}

} // verus!
