//! The SmplCore instruction-set model: operand widths, the register file's
//! encoding, width-tagged values, and the closed set of instruction variants
//! with their canonical encoded lengths.
use vstd::prelude::*;

verus! {

/// Operand width: an 8-bit byte or a 16-bit word.
#[derive(Clone, Copy, Debug, PartialEq, Eq, Structural)]
pub enum Width {
    Byte,
    Word,
}

impl Width {
    /// How many bytes an immediate of this width occupies in an encoding.
    pub open spec fn spec_imm_len(self) -> int {
        match self {
            Width::Byte => 1,
            Width::Word => 2,
        }
    }
}

/// A width-tagged reference to one of the 16 register-file slots.
///
/// The slot index is the stable numeric encoding: slot 1 is the instruction
/// pointer, slot 3 the flags register, and slots 4 through 15 are the general
/// registers r0 through r11. A byte-width reference aliases the low 8 bits of
/// its word slot.
#[derive(Clone, Copy, Debug, PartialEq, Eq, Structural)]
pub struct Register {
    pub width: Width,
    pub index: u8,
}

/// Slot index of the instruction pointer.
pub const RIP_INDEX: u8 = 1;

/// Slot index of the flags register.
pub const FLAGS_INDEX: u8 = 3;

/// Slot index of the first general register, r0.
pub const GPR_BASE: u8 = 4;

impl Register {
    /// A register reference is valid when its slot index addresses one of the
    /// 16 register-file slots.
    pub open spec fn wf(self) -> bool {
        self.index < 16
    }

    /// The instruction pointer, as a word-width reference.
    pub fn rip() -> (r: Register)
        ensures
            r == (Register { width: Width::Word, index: RIP_INDEX }),
    {
        Register { width: Width::Word, index: RIP_INDEX }
    }

    /// The flags register, as a word-width reference.
    pub fn flags() -> (r: Register)
        ensures
            r == (Register { width: Width::Word, index: FLAGS_INDEX }),
    {
        Register { width: Width::Word, index: FLAGS_INDEX }
    }

    /// The general register `n` (r0 through r11) at the given width.
    pub fn numbered(width: Width, n: u8) -> (r: Register)
        requires
            n < 12,
        ensures
            r == (Register { width, index: (GPR_BASE + n) as u8 }),
            r.wf(),
    {
        Register { width, index: GPR_BASE + n }
    }

    /// The source register a selector byte denotes: the byte's value
    /// modulo 16, its low half.
    pub fn from_src(width: Width, sel: u8) -> (r: Register)
        ensures
            r == (Register { width, index: (sel % 16) as u8 }),
            r.wf(),
    {
        Register { width, index: sel % 16 }
    }

    /// The destination register a selector byte denotes: the byte's value
    /// divided by 16, its high half.
    pub fn from_dest(width: Width, sel: u8) -> (r: Register)
        ensures
            r == (Register { width, index: (sel / 16) as u8 }),
            r.wf(),
    {
        Register { width, index: sel / 16 }
    }

    /// The slot index under which this reference reads and writes the
    /// register file.
    pub fn compile_src(&self) -> (i: u8)
        ensures
            i == self.index,
    {
        self.index
    }

    /// The width tag carried by this reference.
    pub fn width(&self) -> (w: Width)
        ensures
            w == self.width,
    {
        self.width
    }
}

/// An immediate or register content at a known width.
///
/// A byte-width value may still carry a full word (a byte register's slot is
/// read whole); width-correct extraction is `value_byte` / `value_word`.
#[derive(Clone, Copy, Debug, PartialEq, Eq, Structural)]
pub struct Value {
    pub width: Width,
    pub value: u16,
}

impl Value {
    /// A byte-width immediate.
    pub fn byte(v: u8) -> (r: Value)
        ensures
            r == (Value { width: Width::Byte, value: v as u16 }),
    {
        Value { width: Width::Byte, value: v as u16 }
    }

    /// A word-width immediate.
    pub fn word(v: u16) -> (r: Value)
        ensures
            r == (Value { width: Width::Word, value: v }),
    {
        Value { width: Width::Word, value: v }
    }

    /// A raw word tagged with the given width.
    pub fn new(width: Width, v: u16) -> (r: Value)
        ensures
            r == (Value { width, value: v }),
    {
        Value { width, value: v }
    }

    /// The width tag carried by this value.
    pub fn width(&self) -> (w: Width)
        ensures
            w == self.width,
    {
        self.width
    }

    /// The low 8 bits, for the byte arithmetic path.
    pub fn value_byte(&self) -> (b: u8)
        ensures
            b == self.value as u8,
    {
        self.value as u8
    }

    /// The full 16 bits, for the word arithmetic path.
    pub fn value_word(&self) -> (w: u16)
        ensures
            w == self.value,
    {
        self.value
    }
}

/// The closed set of SmplCore instructions.
///
/// `C2R` variants carry an immediate, `R2R` a source register, `M2R`/`R2M`
/// a register holding a memory address; every variant names its destination
/// last. `AJmp` writes a register's word into the instruction pointer without
/// touching the flags; `Jmp` routes through the flag-affecting add path with
/// the instruction pointer as destination.
#[derive(Clone, Copy, Debug, PartialEq, Eq, Structural)]
pub enum Instruction {
    Nop,
    MovC2R(Value, Register),
    MovR2R(Register, Register),
    MovM2R(Register, Register),
    MovR2M(Register, Register),
    AddC2R(Value, Register),
    AddR2R(Register, Register),
    SubC2R(Value, Register),
    SubR2R(Register, Register),
    AJmp(Register),
    Jmp(Register),
}

impl Instruction {
    /// Every register reference the instruction carries is a valid slot.
    pub open spec fn wf(self) -> bool {
        match self {
            Instruction::Nop => true,
            Instruction::MovC2R(_, d) => d.wf(),
            Instruction::MovR2R(s, d) => s.wf() && d.wf(),
            Instruction::MovM2R(s, d) => s.wf() && d.wf(),
            Instruction::MovR2M(s, d) => s.wf() && d.wf(),
            Instruction::AddC2R(_, d) => d.wf(),
            Instruction::AddR2R(s, d) => s.wf() && d.wf(),
            Instruction::SubC2R(_, d) => d.wf(),
            Instruction::SubR2R(s, d) => s.wf() && d.wf(),
            Instruction::AJmp(r) => r.wf(),
            Instruction::Jmp(r) => r.wf(),
        }
    }

    /// The canonical encoded size of the variant: an opcode byte and a
    /// selector byte, plus the embedded immediate's bytes if there is one.
    /// It depends only on the variant and the immediate's width tag, never
    /// on operand values.
    pub open spec fn spec_len(self) -> int {
        match self {
            Instruction::Nop => 2,
            Instruction::MovC2R(v, _) => 2 + v.width.spec_imm_len(),
            Instruction::MovR2R(_, _) => 2,
            Instruction::MovM2R(_, _) => 2,
            Instruction::MovR2M(_, _) => 2,
            Instruction::AddC2R(v, _) => 2 + v.width.spec_imm_len(),
            Instruction::AddR2R(_, _) => 2,
            Instruction::SubC2R(v, _) => 2 + v.width.spec_imm_len(),
            Instruction::SubR2R(_, _) => 2,
            Instruction::AJmp(_) => 2,
            Instruction::Jmp(_) => 2,
        }
    }

    /// The canonical encoded size in bytes.
    pub fn len(&self) -> (l: u16)
        ensures
            l as int == self.spec_len(),
            2 <= l <= 4,
    {
        match self {
            Instruction::Nop => 2,
            Instruction::MovC2R(v, _) => match v.width {
                Width::Byte => 3,
                Width::Word => 4,
            },
            Instruction::MovR2R(_, _) => 2,
            Instruction::MovM2R(_, _) => 2,
            Instruction::MovR2M(_, _) => 2,
            Instruction::AddC2R(v, _) => match v.width {
                Width::Byte => 3,
                Width::Word => 4,
            },
            Instruction::AddR2R(_, _) => 2,
            Instruction::SubC2R(v, _) => match v.width {
                Width::Byte => 3,
                Width::Word => 4,
            },
            Instruction::SubR2R(_, _) => 2,
            Instruction::AJmp(_) => 2,
            Instruction::Jmp(_) => 2,
        }
    }
}


/// The general register number named by a decimal suffix: "0" through "11".
pub open spec fn spec_gpr_num(w: Seq<u8>) -> Option<u8> {
    if w.len() == 1 && 48 <= w[0] <= 57 {
        Some((w[0] - 48) as u8)
    } else if w.len() == 2 && w[0] == 49 && (w[1] == 48 || w[1] == 49) {
        Some((10 + w[1] - 48) as u8)
    } else {
        None
    }
}

/// The register a name denotes: "r0" through "r11" word-width, "rb0"
/// through "rb11" byte-width, and the reserved "rip" and "flags".
pub open spec fn spec_register_name(w: Seq<u8>) -> Option<Register> {
    if w == seq![114u8, 105u8, 112u8] {
        Some(Register { width: Width::Word, index: RIP_INDEX })
    } else if w == seq![102u8, 108u8, 97u8, 103u8, 115u8] {
        Some(Register { width: Width::Word, index: FLAGS_INDEX })
    } else if w.len() >= 2 && w[0] == 114 && w[1] == 98 {
        match spec_gpr_num(w.skip(2)) {
            Some(n) => Some(Register { width: Width::Byte, index: (GPR_BASE + n) as u8 }),
            None => None,
        }
    } else if w.len() >= 1 && w[0] == 114 {
        match spec_gpr_num(w.skip(1)) {
            Some(n) => Some(Register { width: Width::Word, index: (GPR_BASE + n) as u8 }),
            None => None,
        }
    } else {
        None
    }
}

/// The general register number named by `w`, if any ("0" through "11").
fn gpr_num(w: &[u8]) -> (r: Option<u8>)
    ensures
        r == spec_gpr_num(w@),
        r is Some ==> r->Some_0 < 12,
{
    if w.len() == 1 && 48 <= w[0] && w[0] <= 57 {
        Some(w[0] - 48)
    } else if w.len() == 2 && w[0] == 49 && (w[1] == 48 || w[1] == 49) {
        Some(10 + w[1] - 48)
    } else {
        None
    }
}

impl Register {
    /// Resolve a register name from the debugger's command language:
    /// "r0".."r11", "rb0".."rb11", "rip", "flags".
    pub fn from_name(w: &[u8]) -> (r: Option<Register>)
        ensures
            r == spec_register_name(w@),
            r is Some ==> r->Some_0.wf(),
    {
        if w.len() == 3 && w[0] == 114u8 && w[1] == 105u8 && w[2] == 112u8 {
            proof {
                assert(w@ =~= seq![114u8, 105u8, 112u8]);
            }
            Some(Register::rip())
        } else if w.len() == 5 && w[0] == 102u8 && w[1] == 108u8 && w[2] == 97u8 && w[3] == 103u8
            && w[4] == 115u8 {
            proof {
                assert(w@ =~= seq![102u8, 108u8, 97u8, 103u8, 115u8]);
            }
            Some(Register::flags())
        } else if w.len() >= 2 && w[0] == 114u8 && w[1] == 98u8 {
            proof {
                assert(w@ != seq![114u8, 105u8, 112u8]);
                assert(w@ != seq![102u8, 108u8, 97u8, 103u8, 115u8]);
            }
            let rest: &[u8] = &w[2..w.len()];
            proof {
                assert(rest@ =~= w@.skip(2));
            }
            match gpr_num(rest) {
                Some(n) => Some(Register::numbered(Width::Byte, n)),
                None => None,
            }
        } else if w.len() >= 1 && w[0] == 114u8 {
            proof {
                assert(w@ != seq![114u8, 105u8, 112u8]);
                assert(w@ != seq![102u8, 108u8, 97u8, 103u8, 115u8]);
            }
            let rest: &[u8] = &w[1..w.len()];
            proof {
                assert(rest@ =~= w@.skip(1));
            }
            match gpr_num(rest) {
                Some(n) => Some(Register::numbered(Width::Word, n)),
                None => None,
            }
        } else {
            None
        }
    }
}

/// A selector byte encoding a source register in its low half and a
/// destination register in its high half decodes back to exactly those two
/// registers.
pub proof fn lemma_selector_round_trip(src: Register, dest: Register)
    requires
        src.wf(),
        dest.wf(),
    ensures
        (dest.index * 16 + src.index) % 16 == src.index,
        (dest.index * 16 + src.index) / 16 == dest.index,
{
    assert((dest.index * 16 + src.index) % 16 == src.index) by (nonlinear_arith)
        requires
            src.index < 16,
            dest.index < 16,
    ;
    assert((dest.index * 16 + src.index) / 16 == dest.index) by (nonlinear_arith)
        requires
            src.index < 16,
            dest.index < 16,
    ;
}

/// An instruction's canonical length never depends on operand values: for
/// the immediate-carrying variants it is fixed by the immediate's width
/// alone, and every other variant has length 2.
pub proof fn lemma_len_operand_independent(v1: Value, v2: Value, d1: Register, d2: Register)
    requires
        v1.width == v2.width,
    ensures
        Instruction::MovC2R(v1, d1).spec_len() == Instruction::MovC2R(v2, d2).spec_len(),
        Instruction::AddC2R(v1, d1).spec_len() == Instruction::AddC2R(v2, d2).spec_len(),
        Instruction::SubC2R(v1, d1).spec_len() == Instruction::SubC2R(v2, d2).spec_len(),
        Instruction::MovR2R(d1, d2).spec_len() == 2,
        Instruction::MovM2R(d1, d2).spec_len() == 2,
        Instruction::MovR2M(d1, d2).spec_len() == 2,
        Instruction::AddR2R(d1, d2).spec_len() == 2,
        Instruction::SubR2R(d1, d2).spec_len() == 2,
        Instruction::AJmp(d1).spec_len() == 2,
        Instruction::Jmp(d1).spec_len() == 2,
        Instruction::Nop.spec_len() == 2,
{
}

} // verus!
