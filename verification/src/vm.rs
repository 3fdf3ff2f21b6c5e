//! The execution engine: the register file, the region-routed 64KiB address
//! space, and the width- and overflow-aware instruction semantics, all
//! specified against the abstract machine state `VmState`.
use vstd::prelude::*;

use crate::decode::{decompile, spec_decompile};
use crate::error::Error;
use crate::isa::{Instruction, Register, Value, Width, FLAGS_INDEX, RIP_INDEX};

verus! {

/// Bytes in the display-mapped region: 64 x 32 character cells of 2 bytes.
pub const DISPLAY_LEN: usize = 64 * 32 * 2;

/// First address past the RAM region.
pub const RAM_END: u16 = 0x8000;

/// First address past the display region.
pub const DISPLAY_END: u16 = 0x9000;

/// First address of the 2-byte reset-vector ROM.
pub const ROM_START: u16 = 0xFFFE;

/// The abstract machine state: what the engine's contracts speak of.
#[verifier::ext_equal]
pub struct VmState {
    pub regs: Seq<u16>,
    pub ram: Seq<u8>,
    pub rom: Seq<u8>,
    pub disp: Seq<u8>,
}

/// The instruction pointer's register reference.
pub open spec fn rip_reg() -> Register {
    Register { width: Width::Word, index: RIP_INDEX }
}

/// The flags register's reference.
pub open spec fn flags_reg() -> Register {
    Register { width: Width::Word, index: FLAGS_INDEX }
}

impl VmState {
    /// A valid state: 16 register slots, a 2-byte ROM, a full display region.
    pub open spec fn wf(self) -> bool {
        &&& self.regs.len() == 16
        &&& self.rom.len() == 2
        &&& self.disp.len() == DISPLAY_LEN
    }

    /// The full 16-bit slot a register reference designates, whatever its
    /// width tag: byte-width extraction happens at the arithmetic paths.
    pub open spec fn read_reg(self, r: Register) -> u16 {
        self.regs[r.index as int]
    }

    /// Writing a register: a word write replaces the slot; a byte write
    /// replaces the low 8 bits and preserves the high 8 bits.
    pub open spec fn write_reg(self, r: Register, v: u16) -> VmState {
        let prev = self.regs[r.index as int];
        let slot = match r.width {
            Width::Byte => ((v as u8) as u16) | (prev & 0xFF00),
            Width::Word => v,
        };
        VmState { regs: self.regs.update(r.index as int, slot), ..self }
    }

    /// The byte a read of `addr` yields: RAM and the display region read
    /// back their cells, the ROM serves the reset vector, and every other
    /// address (including RAM addresses past the configured memory) reads 0.
    pub open spec fn read_mem(self, addr: u16) -> u8 {
        if addr < RAM_END {
            if addr < self.ram.len() {
                self.ram[addr as int]
            } else {
                0
            }
        } else if addr < DISPLAY_END {
            if addr - RAM_END < self.disp.len() {
                self.disp[addr - RAM_END]
            } else {
                0
            }
        } else if addr >= ROM_START {
            if addr - ROM_START < self.rom.len() {
                self.rom[addr - ROM_START]
            } else {
                0
            }
        } else {
            0
        }
    }

    /// The state a write of `value` at `addr` leaves: RAM and display cells
    /// are updated in place; writes to the ROM, to unmapped addresses and to
    /// RAM addresses past the configured memory are silently dropped.
    pub open spec fn write_mem(self, addr: u16, value: u8) -> VmState {
        if addr < RAM_END {
            if addr < self.ram.len() {
                VmState { ram: self.ram.update(addr as int, value), ..self }
            } else {
                self
            }
        } else if addr < DISPLAY_END {
            if addr - RAM_END < self.disp.len() {
                VmState { disp: self.disp.update(addr - RAM_END, value), ..self }
            } else {
                self
            }
        } else {
            self
        }
    }

    /// One add or subtract step at the width of the source value.
    ///
    /// The source value's low byte (byte width) or full word (word width)
    /// is combined with the destination slot's low byte or full word, with
    /// wraparound; subtraction computes `source - destination`. When
    /// `flags` is set, the flags register is fully rewritten first: zero,
    /// negative (the result's high bit) and overflow (the wraparound flag);
    /// the result then lands in the destination register.
    pub open spec fn arith(self, is_sub: bool, src: Value, dest: Register, flags: bool) -> VmState {
        let dest_value = self.read_reg(dest);
        let res16 = if is_sub {
            match src.width {
                Width::Byte => (src.value as u8).wrapping_sub(dest_value as u8) as u16,
                Width::Word => src.value.wrapping_sub(dest_value),
            }
        } else {
            match src.width {
                Width::Byte => (src.value as u8).wrapping_add(dest_value as u8) as u16,
                Width::Word => src.value.wrapping_add(dest_value),
            }
        };
        let zero = res16 == 0;
        let negative = match src.width {
            Width::Byte => res16 >= 0x80,
            Width::Word => res16 >= 0x8000,
        };
        let overflow = if is_sub {
            match src.width {
                Width::Byte => (src.value as u8) < (dest_value as u8),
                Width::Word => src.value < dest_value,
            }
        } else {
            match src.width {
                Width::Byte => src.value as u8 + (dest_value as u8) > 0xFF,
                Width::Word => src.value + dest_value > 0xFFFF,
            }
        };
        let s1 = if flags {
            self.write_reg(flags_reg(), spec_calc_flags(zero, negative, overflow))
        } else {
            self
        };
        s1.write_reg(dest, res16)
    }

    /// The effect of one instruction on the machine state.
    pub open spec fn exec_instr(self, inst: Instruction) -> VmState {
        match inst {
            Instruction::Nop => self,
            Instruction::MovC2R(v, d) => self.write_reg(d, v.value),
            Instruction::MovR2R(s, d) => self.write_reg(d, self.read_reg(s)),
            Instruction::MovM2R(s, d) => self.write_reg(
                d,
                self.read_mem(self.read_reg(s)) as u16,
            ),
            Instruction::MovR2M(s, d) => self.write_mem(self.read_reg(d), self.read_reg(s) as u8),
            Instruction::AddC2R(v, d) => self.arith(false, v, d, true),
            Instruction::AddR2R(s, d) => self.arith(
                false,
                Value { width: s.width, value: self.read_reg(s) },
                d,
                true,
            ),
            Instruction::SubC2R(v, d) => self.arith(true, v, d, true),
            Instruction::SubR2R(s, d) => self.arith(
                true,
                Value { width: s.width, value: self.read_reg(s) },
                d,
                true,
            ),
            Instruction::AJmp(r) => self.write_reg(rip_reg(), self.read_reg(r)),
            Instruction::Jmp(r) => self.arith(
                false,
                Value { width: r.width, value: self.read_reg(r) },
                rip_reg(),
                false,
            ),
        }
    }

    /// Reset: compose the little-endian reset vector into the instruction
    /// pointer and clear the flags register.
    pub open spec fn reset_state(self) -> VmState {
        let vector = (self.read_mem(ROM_START) as u16 + 256 * (self.read_mem(
            (ROM_START + 1) as u16,
        ) as u16)) as u16;
        self.write_reg(rip_reg(), vector).write_reg(flags_reg(), 0)
    }

    /// One fetch-execute step: decode at the instruction pointer, advance it
    /// by the decoded length (wrapping, before any jump effect), then apply
    /// the instruction; a decode error leaves the advanced pointer in place
    /// and surfaces the error.
    pub open spec fn step(self) -> (VmState, Result<(), Error>) {
        let rip_val = self.read_reg(rip_reg());
        let decoded = spec_decompile(self, rip_val);
        let s1 = self.write_reg(rip_reg(), rip_val.wrapping_add(decoded.1));
        match decoded.0 {
            Ok(inst) => (s1.exec_instr(inst), Ok(())),
            Err(e) => (s1, Err(e)),
        }
    }

    /// `n` fetch-execute steps, stopping at the first decode error.
    pub open spec fn run(self, n: nat) -> (VmState, Result<(), Error>)
        decreases n,
    {
        if n == 0 {
            (self, Ok(()))
        } else {
            let stepped = self.step();
            match stepped.1 {
                Ok(u) => stepped.0.run((n - 1) as nat),
                Err(e) => stepped,
            }
        }
    }
}

/// The flags word for the given zero / negative / overflow outcome:
/// bit 0 zero, bit 1 negative, bit 2 overflow, higher bits clear.
pub open spec fn spec_calc_flags(zero: bool, negative: bool, overflow: bool) -> u16 {
    ((if zero {
        1int
    } else {
        0int
    }) + (if negative {
        2int
    } else {
        0int
    }) + (if overflow {
        4int
    } else {
        0int
    })) as u16
}

/// The virtual machine: 16 registers of 16 bits, RAM, the 2-byte reset
/// vector ROM, and the display-mapped memory region.
pub struct VM {
    pub registers: Vec<u16>,
    pub ram: Vec<u8>,
    pub rom: Vec<u8>,
    pub display: Vec<u8>,
}

impl View for VM {
    type V = VmState;

    open spec fn view(&self) -> VmState {
        VmState { regs: self.registers@, ram: self.ram@, rom: self.rom@, disp: self.display@ }
    }
}

impl VM {
    /// A fresh machine over the given memories, all registers zero.
    pub fn new(ram: Vec<u8>, rom: Vec<u8>, display: Vec<u8>) -> (vm: VM)
        requires
            rom@.len() == 2,
            display@.len() == DISPLAY_LEN,
        ensures
            vm@.wf(),
            vm@.regs =~= Seq::new(16, |i: int| 0u16),
            vm@.ram == ram@,
            vm@.rom == rom@,
            vm@.disp == display@,
    {
        let registers: Vec<u16> = vec![0u16; 16];
        VM { registers, ram, rom, display }
    }

    /// The full 16-bit slot the reference designates.
    pub fn get_reg(&self, reg: &Register) -> (v: u16)
        requires
            self@.wf(),
            reg.wf(),
        ensures
            v == self@.read_reg(*reg),
    {
        self.registers[reg.compile_src() as usize]
    }

    /// The register's current content as a value at the register's width.
    pub fn get_reg_as_value(&self, reg: &Register) -> (v: Value)
        requires
            self@.wf(),
            reg.wf(),
        ensures
            v == (Value { width: reg.width, value: self@.read_reg(*reg) }),
    {
        Value::new(reg.width(), self.get_reg(reg))
    }

    /// Write a register at its width: a byte-width write preserves the high
    /// byte of the underlying slot.
    pub fn set_reg(&mut self, reg: &Register, value: u16)
        requires
            old(self)@.wf(),
            reg.wf(),
        ensures
            final(self)@ == old(self)@.write_reg(*reg, value),
            final(self)@.wf(),
    {
        let idx = reg.compile_src() as usize;
        let prev: u16 = self.registers[idx];
        let slot: u16 = match reg.width() {
            Width::Byte => ((value as u8) as u16) | (prev & 0xFF00),
            Width::Word => value,
        };
        self.registers[idx] = slot;
        proof {
            assert(self@ =~= old(self)@.write_reg(*reg, value));
        }
    }

    /// The flags word for the given outcome bits.
    pub fn calc_flags(zero: bool, negative: bool, overflow: bool) -> (f: u16)
        ensures
            f == spec_calc_flags(zero, negative, overflow),
    {
        (if zero {
            1u16
        } else {
            0u16
        }) + (if negative {
            2u16
        } else {
            0u16
        }) + (if overflow {
            4u16
        } else {
            0u16
        })
    }

    /// Overwrite the flags register with the given outcome bits.
    pub fn set_flags(&mut self, zero: bool, negative: bool, overflow: bool)
        requires
            old(self)@.wf(),
        ensures
            final(self)@ == old(self)@.write_reg(flags_reg(), spec_calc_flags(zero, negative, overflow)),
            final(self)@.wf(),
    {
        let f = Self::calc_flags(zero, negative, overflow);
        self.set_reg(&Register::flags(), f);
    }

    /// The byte at `addr`, routed by region; unmapped reads yield 0.
    pub fn get_mem(&self, addr: u16) -> (b: u8)
        requires
            self@.wf(),
        ensures
            b == self@.read_mem(addr),
    {
        if addr < RAM_END {
            let i = addr as usize;
            if i < self.ram.len() {
                self.ram[i]
            } else {
                0
            }
        } else if addr < DISPLAY_END {
            let i = (addr - RAM_END) as usize;
            if i < self.display.len() {
                self.display[i]
            } else {
                0
            }
        } else if addr >= ROM_START {
            let i = (addr - ROM_START) as usize;
            if i < self.rom.len() {
                self.rom[i]
            } else {
                0
            }
        } else {
            0
        }
    }

    /// Write the byte at `addr`, routed by region; unmapped and ROM writes
    /// are silently dropped.
    pub fn set_mem(&mut self, addr: u16, value: u8)
        requires
            old(self)@.wf(),
        ensures
            final(self)@ == old(self)@.write_mem(addr, value),
            final(self)@.wf(),
    {
        if addr < RAM_END {
            let i = addr as usize;
            if i < self.ram.len() {
                self.ram[i] = value;
            }
        } else if addr < DISPLAY_END {
            let i = (addr - RAM_END) as usize;
            if i < self.display.len() {
                self.display[i] = value;
            }
        }
        proof {
            assert(self@ =~= old(self)@.write_mem(addr, value));
        }
    }

    /// Load the reset vector into the instruction pointer and clear the
    /// flags.
    pub fn reset(&mut self)
        requires
            old(self)@.wf(),
        ensures
            final(self)@ == old(self)@.reset_state(),
            final(self)@.wf(),
    {
        let low = self.get_mem(ROM_START) as u16;
        let high = self.get_mem(ROM_START + 1) as u16;
        self.set_reg(&Register::rip(), low + 256 * high);
        self.set_reg(&Register::flags(), 0);
    }

    /// Apply one already-decoded instruction to the machine state.
    pub fn execute_instr(&mut self, inst: &Instruction)
        requires
            old(self)@.wf(),
            inst.wf(),
        ensures
            final(self)@ == old(self)@.exec_instr(*inst),
            final(self)@.wf(),
    {
        match inst {
            Instruction::Nop => {},
            Instruction::MovC2R(value, dest) => {
                let v = value.value_word();
                self.set_reg(dest, v);
            },
            Instruction::MovR2R(src, dest) => {
                let v = self.get_reg(src);
                self.set_reg(dest, v);
            },
            Instruction::MovM2R(src, dest) => {
                let addr = self.get_reg(src);
                let b = self.get_mem(addr);
                self.set_reg(dest, b as u16);
            },
            Instruction::MovR2M(src, dest) => {
                let addr = self.get_reg(dest);
                let b = self.get_reg(src) as u8;
                self.set_mem(addr, b);
            },
            Instruction::AddC2R(value, dest) => {
                self.execute_add(value, dest, true);
            },
            Instruction::AddR2R(src, dest) => {
                let v = self.get_reg_as_value(src);
                self.execute_add(&v, dest, true);
            },
            Instruction::SubC2R(value, dest) => {
                self.execute_sub(value, dest, true);
            },
            Instruction::SubR2R(src, dest) => {
                let v = self.get_reg_as_value(src);
                self.execute_sub(&v, dest, true);
            },
            Instruction::AJmp(reg) => {
                let v = self.get_reg(reg);
                self.set_reg(&Register::rip(), v);
            },
            Instruction::Jmp(reg) => {
                let v = self.get_reg_as_value(reg);
                self.execute_add(&v, &Register::rip(), false);
            },
        }
    }

    /// Add the source value into the destination register at the source's
    /// width, optionally rewriting the flags.
    pub fn execute_add(&mut self, src_value: &Value, dest: &Register, flags: bool)
        requires
            old(self)@.wf(),
            dest.wf(),
        ensures
            final(self)@ == old(self)@.arith(false, *src_value, *dest, flags),
            final(self)@.wf(),
    {
        let dest_value = self.get_reg(dest);
        match src_value.width() {
            Width::Byte => {
                let a = src_value.value_byte();
                let b = dest_value as u8;
                let res = a.wrapping_add(b);
                let overflow = (a as u16) + (b as u16) > 0xFF;
                if flags {
                    self.set_flags(res == 0, res >= 0x80, overflow);
                }
                self.set_reg(dest, res as u16);
            },
            Width::Word => {
                let a = src_value.value_word();
                let res = a.wrapping_add(dest_value);
                let overflow = (a as u32) + (dest_value as u32) > 0xFFFF;
                if flags {
                    self.set_flags(res == 0, res >= 0x8000, overflow);
                }
                self.set_reg(dest, res);
            },
        }
    }

    /// Subtract the destination register from the source value at the
    /// source's width, optionally rewriting the flags; the result lands in
    /// the destination register.
    pub fn execute_sub(&mut self, src_value: &Value, dest: &Register, flags: bool)
        requires
            old(self)@.wf(),
            dest.wf(),
        ensures
            final(self)@ == old(self)@.arith(true, *src_value, *dest, flags),
            final(self)@.wf(),
    {
        let dest_value = self.get_reg(dest);
        match src_value.width() {
            Width::Byte => {
                let a = src_value.value_byte();
                let b = dest_value as u8;
                let res = a.wrapping_sub(b);
                let overflow = a < b;
                if flags {
                    self.set_flags(res == 0, res >= 0x80, overflow);
                }
                self.set_reg(dest, res as u16);
            },
            Width::Word => {
                let a = src_value.value_word();
                let res = a.wrapping_sub(dest_value);
                let overflow = a < dest_value;
                if flags {
                    self.set_flags(res == 0, res >= 0x8000, overflow);
                }
                self.set_reg(dest, res);
            },
        }
    }

    /// Decode the instruction at the current instruction pointer and advance
    /// the pointer by the decoded length (wrapping), whether or not decoding
    /// succeeded.
    pub fn decompile_next(&mut self) -> (r: Result<Instruction, Error>)
        requires
            old(self)@.wf(),
        ensures
            final(self)@.wf(),
            final(self)@ == old(self)@.write_reg(
                rip_reg(),
                old(self)@.read_reg(rip_reg()).wrapping_add(
                    spec_decompile(old(self)@, old(self)@.read_reg(rip_reg())).1,
                ),
            ),
            r == spec_decompile(old(self)@, old(self)@.read_reg(rip_reg())).0,
            r is Ok ==> r->Ok_0.wf(),
    {
        let rip = self.get_reg(&Register::rip());
        let decoded = decompile(self, rip);
        let skip: u16 = decoded.1;
        self.set_reg(&Register::rip(), rip.wrapping_add(skip));
        decoded.0
    }

    /// One fetch-execute step: decode at the instruction pointer, advance
    /// it, then apply the instruction; a decode error is surfaced with the
    /// pointer already advanced past the faulty bytes.
    pub fn execute_next(&mut self) -> (r: Result<(), Error>)
        requires
            old(self)@.wf(),
        ensures
            final(self)@.wf(),
            final(self)@ == old(self)@.step().0,
            r == old(self)@.step().1,
    {
        match self.decompile_next() {
            Ok(inst) => {
                self.execute_instr(&inst);
                Ok(())
            },
            Err(e) => Err(e),
        }
    }

    /// Run `n` fetch-execute steps, stopping at the first decode error.
    pub fn execute_n(&mut self, n: usize) -> (r: Result<(), Error>)
        requires
            old(self)@.wf(),
        ensures
            final(self)@.wf(),
            final(self)@ == old(self)@.run(n as nat).0,
            r == old(self)@.run(n as nat).1,
    {
        let ghost s0 = self@;
        let mut i: usize = 0;
        while i < n
            invariant
                s0 == old(self)@,
                i <= n,
                s0.run(i as nat).0 == self@,
                s0.run(i as nat).1 == Ok::<(), Error>(()),
                self@.wf(),
            decreases n - i,
        {
            proof {
                lemma_run_snoc(s0, i as nat);
            }
            match self.execute_next() {
                Ok(u) => {},
                Err(e) => {
                    proof {
                        lemma_run_stalls(s0, (i + 1) as nat, n as nat);
                    }
                    return Err(e);
                },
            }
            i = i + 1;
        }
        Ok(())
    }
}

/// Unrolling a run from the back: one more step extends an error-free run,
/// and a run that has already failed stays as it is.
proof fn lemma_run_snoc(s: VmState, i: nat)
    ensures
        s.run(i).1 is Ok ==> s.run((i + 1) as nat).0 == s.run(i).0.step().0,
        s.run(i).1 is Ok ==> s.run((i + 1) as nat).1 == s.run(i).0.step().1,
        s.run(i).1 is Err ==> s.run((i + 1) as nat) == s.run(i),
    decreases i,
{
    reveal_with_fuel(VmState::run, 2);
    let st0 = s.step();
    if i != 0 {
        if st0.1 is Ok {
            lemma_run_snoc(st0.0, (i - 1) as nat);
        }
    }
}

/// A run that has failed at `k` steps looks the same at any larger bound.
proof fn lemma_run_stalls(s: VmState, k: nat, m: nat)
    requires
        k <= m,
        s.run(k).1 is Err,
    ensures
        s.run(m) == s.run(k),
    decreases k,
{
    reveal_with_fuel(VmState::run, 2);
    let st0 = s.step();
    if k != 0 {
        if st0.1 is Ok {
            lemma_run_stalls(st0.0, (k - 1) as nat, (m - 1) as nat);
        }
    }
}

/// For every byte-width register write, the high byte of the underlying
/// word slot is unchanged: the slot becomes the written value's low byte
/// merged over the old slot's high byte, and no other slot moves.
pub proof fn lemma_byte_write_preserves_high(s: VmState, r: Register, v: u16)
    requires
        s.regs.len() == 16,
        r.wf(),
        r.width == Width::Byte,
    ensures
        s.write_reg(r, v).regs[r.index as int] == (v & 0xFF) | (s.regs[r.index as int] & 0xFF00),
        s.write_reg(r, v).regs[r.index as int] & 0xFF00 == s.regs[r.index as int] & 0xFF00,
        s.write_reg(r, v).regs[r.index as int] as u8 == v as u8,
        forall|j: int|
            0 <= j < 16 && j != r.index as int ==> s.write_reg(r, v).regs[j] == s.regs[j],
{
    let prev = s.regs[r.index as int];
    assert(((v as u8) as u16) | (prev & 0xFF00) == (v & 0xFF) | (prev & 0xFF00)) by (bit_vector);
    assert((((v as u8) as u16) | (prev & 0xFF00)) & 0xFF00 == prev & 0xFF00) by (bit_vector);
    assert(((((v as u8) as u16) | (prev & 0xFF00)) as u8) == v as u8) by (bit_vector);
}

/// For every flag-affecting add or subtract, the flags register afterwards
/// encodes exactly the wraparound outcome at the source value's width: zero
/// iff the modular result is 0, negative iff its high bit is set, overflow
/// iff the exact result left the width's range.
pub proof fn lemma_arith_flags(s: VmState, is_sub: bool, src: Value, dest: Register)
    requires
        s.regs.len() == 16,
        dest.wf(),
        dest.index != FLAGS_INDEX,
    ensures
        ({
            let a = match src.width {
                Width::Byte => (src.value as u8) as int,
                Width::Word => src.value as int,
            };
            let b = match src.width {
                Width::Byte => (s.read_reg(dest) as u8) as int,
                Width::Word => s.read_reg(dest) as int,
            };
            let m = match src.width {
                Width::Byte => 256int,
                Width::Word => 65536int,
            };
            let raw = if is_sub {
                a - b
            } else {
                a + b
            };
            let res = raw % m;
            s.arith(is_sub, src, dest, true).regs[FLAGS_INDEX as int] == spec_calc_flags(
                res == 0,
                res >= m / 2,
                !(0 <= raw < m),
            )
        }),
{
}

/// Writing a RAM cell and reading it back yields the written value, and no
/// other address changes its reading.
pub proof fn lemma_ram_round_trip(s: VmState, addr: u16, value: u8)
    requires
        addr < RAM_END,
        addr < s.ram.len(),
    ensures
        s.write_mem(addr, value).read_mem(addr) == value,
        forall|a: u16| a != addr ==> s.write_mem(addr, value).read_mem(a) == s.read_mem(a),
{
}

/// A write to an unmapped address (or to the read-only region, or past the
/// configured RAM) leaves the whole machine state untouched, so every
/// address reads as before.
pub proof fn lemma_unmapped_write_noop(s: VmState, addr: u16, value: u8)
    requires
        addr >= DISPLAY_END || (addr < RAM_END && s.ram.len() <= addr),
    ensures
        s.write_mem(addr, value) == s,
{
}

/// In a machine whose RAM and display cells are all zero, every address
/// outside the reset-vector ROM reads 0.
pub proof fn lemma_unwritten_reads_zero(s: VmState, addr: u16)
    requires
        forall|i: int| 0 <= i < s.ram.len() ==> s.ram[i] == 0,
        forall|i: int| 0 <= i < s.disp.len() ==> s.disp[i] == 0,
        addr < ROM_START,
    ensures
        s.read_mem(addr) == 0,
{
}

} // verus!
