//! The debugger's output lines, built and specified character by
//! character: breakpoint reports in decimal, memory and register read-backs
//! in fixed-width uppercase hexadecimal.
use vstd::prelude::*;

use crate::debugger::Break;
use crate::isa::{Register, Width, FLAGS_INDEX, GPR_BASE, RIP_INDEX};

verus! {

/// The character for a single hexadecimal (or decimal) digit value.
pub open spec fn spec_digit_char(d: nat) -> char {
    if d == 0 {
        '0'
    } else if d == 1 {
        '1'
    } else if d == 2 {
        '2'
    } else if d == 3 {
        '3'
    } else if d == 4 {
        '4'
    } else if d == 5 {
        '5'
    } else if d == 6 {
        '6'
    } else if d == 7 {
        '7'
    } else if d == 8 {
        '8'
    } else if d == 9 {
        '9'
    } else if d == 10 {
        'A'
    } else if d == 11 {
        'B'
    } else if d == 12 {
        'C'
    } else if d == 13 {
        'D'
    } else if d == 14 {
        'E'
    } else {
        'F'
    }
}

/// A number's decimal numeral, most significant digit first.
pub open spec fn spec_dec_chars(n: nat) -> Seq<char>
    decreases n,
{
    if n < 10 {
        seq![spec_digit_char(n)]
    } else {
        spec_dec_chars(n / 10).push(spec_digit_char(n % 10))
    }
}

/// A word as four uppercase hexadecimal digits.
pub open spec fn spec_hex4_chars(v: nat) -> Seq<char> {
    seq![
        spec_digit_char(v / 4096 % 16),
        spec_digit_char(v / 256 % 16),
        spec_digit_char(v / 16 % 16),
        spec_digit_char(v % 16),
    ]
}

/// A byte as two uppercase hexadecimal digits.
pub open spec fn spec_hex2_chars(v: nat) -> Seq<char> {
    seq![spec_digit_char(v / 16 % 16), spec_digit_char(v % 16)]
}

/// A register's display name: the command-language names where they exist
/// ("rip", "flags", "r0".."r11", "rb0".."rb11"); a slot the command
/// language cannot name prints as "reg" plus its slot index.
pub open spec fn spec_reg_name(r: Register) -> Seq<char> {
    if r.width == Width::Word && r.index == RIP_INDEX {
        "rip"@
    } else if r.width == Width::Word && r.index == FLAGS_INDEX {
        "flags"@
    } else if r.index >= GPR_BASE && r.index < 16 {
        match r.width {
            Width::Word => "r"@ + spec_dec_chars((r.index - GPR_BASE) as nat),
            Width::Byte => "rb"@ + spec_dec_chars((r.index - GPR_BASE) as nat),
        }
    } else {
        "reg"@ + spec_dec_chars(r.index as nat)
    }
}

/// The line an outcome prints, if any: breakpoint hits name the address in
/// decimal; an address read prints `0xADDR: 0xVAL`; a register read prints
/// the register's name and its word. Steps, silent writes and an exhausted
/// budget print nothing.
pub open spec fn spec_report_line(b: Break) -> Option<Seq<char>> {
    match b {
        Break::Step => None,
        Break::Silent => None,
        Break::OutOfFuel => None,
        Break::Point(addr) => Some("Breakpoint at: "@ + spec_dec_chars(addr as nat)),
        Break::GetAddr(addr, value) => Some(
            "0x"@ + spec_hex4_chars(addr as nat) + ": 0x"@ + spec_hex2_chars(value as nat),
        ),
        Break::GetReg(reg, value) => Some(
            spec_reg_name(reg) + ": 0x"@ + spec_hex4_chars(value as nat),
        ),
    }
}

/// One digit as a string.
fn digit_string(d: u8) -> (r: String)
    requires
        d < 16,
    ensures
        r@ == seq![spec_digit_char(d as nat)],
{
    let r: String = if d == 0 {
        String::from_str("0")
    } else if d == 1 {
        String::from_str("1")
    } else if d == 2 {
        String::from_str("2")
    } else if d == 3 {
        String::from_str("3")
    } else if d == 4 {
        String::from_str("4")
    } else if d == 5 {
        String::from_str("5")
    } else if d == 6 {
        String::from_str("6")
    } else if d == 7 {
        String::from_str("7")
    } else if d == 8 {
        String::from_str("8")
    } else if d == 9 {
        String::from_str("9")
    } else if d == 10 {
        String::from_str("A")
    } else if d == 11 {
        String::from_str("B")
    } else if d == 12 {
        String::from_str("C")
    } else if d == 13 {
        String::from_str("D")
    } else if d == 14 {
        String::from_str("E")
    } else {
        String::from_str("F")
    };
    proof {
        reveal_strlit("0");
        reveal_strlit("1");
        reveal_strlit("2");
        reveal_strlit("3");
        reveal_strlit("4");
        reveal_strlit("5");
        reveal_strlit("6");
        reveal_strlit("7");
        reveal_strlit("8");
        reveal_strlit("9");
        reveal_strlit("A");
        reveal_strlit("B");
        reveal_strlit("C");
        reveal_strlit("D");
        reveal_strlit("E");
        reveal_strlit("F");
        assert(r@ =~= seq![spec_digit_char(d as nat)]);
    }
    r
}

/// A number's decimal numeral.
fn dec_string(v: u16) -> (r: String)
    ensures
        r@ == spec_dec_chars(v as nat),
    decreases v,
{
    if v < 10 {
        digit_string(v as u8)
    } else {
        let mut s = dec_string(v / 10);
        let last = digit_string((v % 10) as u8);
        s.append(last.as_str());
        proof {
            assert(s@ =~= spec_dec_chars((v / 10) as nat).push(spec_digit_char((v % 10) as nat)));
        }
        s
    }
}

/// A word as four uppercase hexadecimal digits.
fn hex4_string(v: u16) -> (r: String)
    ensures
        r@ == spec_hex4_chars(v as nat),
{
    let mut s = digit_string((v / 4096 % 16) as u8);
    let d1 = digit_string((v / 256 % 16) as u8);
    let d2 = digit_string((v / 16 % 16) as u8);
    let d3 = digit_string((v % 16) as u8);
    s.append(d1.as_str());
    s.append(d2.as_str());
    s.append(d3.as_str());
    proof {
        assert(s@ =~= spec_hex4_chars(v as nat));
    }
    s
}

/// A byte as two uppercase hexadecimal digits.
fn hex2_string(v: u8) -> (r: String)
    ensures
        r@ == spec_hex2_chars(v as nat),
{
    let mut s = digit_string(v / 16 % 16);
    let d1 = digit_string(v % 16);
    s.append(d1.as_str());
    proof {
        assert(s@ =~= spec_hex2_chars(v as nat));
    }
    s
}

impl Register {
    /// The register's display name.
    pub fn name(&self) -> (r: String)
        ensures
            r@ == spec_reg_name(*self),
    {
        if self.index == RIP_INDEX && matches!(self.width, Width::Word) {
            String::from_str("rip")
        } else if self.index == FLAGS_INDEX && matches!(self.width, Width::Word) {
            String::from_str("flags")
        } else if self.index >= GPR_BASE && self.index < 16 {
            let num = dec_string((self.index - GPR_BASE) as u16);
            let mut s = match self.width {
                Width::Word => String::from_str("r"),
                Width::Byte => String::from_str("rb"),
            };
            s.append(num.as_str());
            proof {
                assert(s@ =~= spec_reg_name(*self));
            }
            s
        } else {
            let mut s = String::from_str("reg");
            let num = dec_string(self.index as u16);
            s.append(num.as_str());
            proof {
                assert(s@ =~= spec_reg_name(*self));
            }
            s
        }
    }
}

impl Break {
    /// The line this outcome prints, if any.
    pub fn report_line(&self) -> (r: Option<String>)
        ensures
            match spec_report_line(*self) {
                Some(line) => r is Some && r->Some_0@ == line,
                None => r is None,
            },
    {
        match self {
            Break::Step => None,
            Break::Silent => None,
            Break::OutOfFuel => None,
            Break::Point(addr) => {
                let mut s = String::from_str("Breakpoint at: ");
                let num = dec_string(*addr);
                s.append(num.as_str());
                proof {
                    assert(s@ =~= "Breakpoint at: "@ + spec_dec_chars(*addr as nat));
                }
                Some(s)
            },
            Break::GetAddr(addr, value) => {
                let mut s = String::from_str("0x");
                let a = hex4_string(*addr);
                let v = hex2_string(*value);
                s.append(a.as_str());
                s.append(": 0x");
                s.append(v.as_str());
                proof {
                    assert(s@ =~= "0x"@ + spec_hex4_chars(*addr as nat) + ": 0x"@
                        + spec_hex2_chars(*value as nat));
                }
                Some(s)
            },
            Break::GetReg(reg, value) => {
                let mut s = reg.name();
                let v = hex4_string(*value);
                s.append(": 0x");
                s.append(v.as_str());
                proof {
                    assert(s@ =~= spec_reg_name(*reg) + ": 0x"@ + spec_hex4_chars(*value as nat));
                }
                Some(s)
            },
        }
    }
}

} // verus!
