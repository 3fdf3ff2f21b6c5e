//! The debugger's command language: a line of text is lexed into
//! whitespace-separated words and matched against patterns of increasing
//! arity; a bare `get`/`set` keyword asks for more tokens rather than
//! failing, and an empty line repeats the previous command.
use vstd::prelude::*;

use crate::isa::{spec_register_name, Register};
use vstd::string::StringSliceAdditionalSpecFns;

verus! {

/// A debugger command, constructed fresh from each input line.
#[derive(Clone, Copy, Debug, PartialEq, Eq, Structural)]
pub enum Cmd {
    Step,
    Continue,
    GetAddr(u16),
    SetAddr(u16, u8),
    GetReg(Register),
    SetReg(Register, u16),
}

/// The three parse outcomes: a complete command, a valid prefix that needs
/// more tokens (a bare `get`/`set`, or `set` with one operand), or no match.
#[derive(Clone, Copy, Debug, PartialEq, Eq, Structural)]
pub enum ParseOutcome {
    Matched(Cmd),
    NeedsMore,
    Rejected,
}

/// ASCII whitespace, the word separator of the command language.
pub open spec fn is_space(b: u8) -> bool {
    b == 32 || b == 9 || b == 10 || b == 13
}

/// The lexer's state after reading a byte sequence: the completed words and
/// the still-open word.
pub open spec fn lex_state(s: Seq<u8>) -> (Seq<Seq<u8>>, Seq<u8>)
    decreases s.len(),
{
    if s.len() == 0 {
        (Seq::empty(), Seq::empty())
    } else {
        let prev = lex_state(s.drop_last());
        let b = s.last();
        if is_space(b) {
            if prev.1.len() == 0 {
                prev
            } else {
                (prev.0.push(prev.1), Seq::empty())
            }
        } else {
            (prev.0, prev.1.push(b))
        }
    }
}

/// The whitespace-separated words of a byte sequence, in order.
pub open spec fn spec_words(s: Seq<u8>) -> Seq<Seq<u8>> {
    let st = lex_state(s);
    if st.1.len() == 0 {
        st.0
    } else {
        st.0.push(st.1)
    }
}

/// A decimal digit.
pub open spec fn is_dec_digit(b: u8) -> bool {
    48 <= b <= 57
}

/// A hexadecimal digit, either case.
pub open spec fn is_hex_digit(b: u8) -> bool {
    is_dec_digit(b) || (97 <= b <= 102) || (65 <= b <= 70)
}

/// A hexadecimal digit's value.
pub open spec fn hex_digit_val(b: u8) -> nat {
    if is_dec_digit(b) {
        (b - 48) as nat
    } else if 97 <= b <= 102 {
        (b - 97 + 10) as nat
    } else {
        (b - 65 + 10) as nat
    }
}

/// Every byte a decimal digit.
pub open spec fn all_dec(w: Seq<u8>) -> bool {
    forall|i: int| 0 <= i < w.len() ==> is_dec_digit(w[i])
}

/// Every byte a hexadecimal digit.
pub open spec fn all_hex(w: Seq<u8>) -> bool {
    forall|i: int| 0 <= i < w.len() ==> is_hex_digit(w[i])
}

/// The value of a decimal numeral.
pub open spec fn dec_val(w: Seq<u8>) -> nat
    decreases w.len(),
{
    if w.len() == 0 {
        0
    } else {
        dec_val(w.drop_last()) * 10 + ((w.last() - 48) as nat)
    }
}

/// The value of a hexadecimal numeral.
pub open spec fn hex_val(w: Seq<u8>) -> nat
    decreases w.len(),
{
    if w.len() == 0 {
        0
    } else {
        hex_val(w.drop_last()) * 16 + hex_digit_val(w.last())
    }
}

/// Whether a word is in hexadecimal form: `0x` followed by hex digits.
pub open spec fn is_hex_form(w: Seq<u8>) -> bool {
    w.len() >= 3 && w[0] == 48 && w[1] == 120
}

/// A number token: `0x` plus hex digits, or a nonempty run of decimal
/// digits.
pub open spec fn is_number(w: Seq<u8>) -> bool {
    if is_hex_form(w) {
        all_hex(w.skip(2))
    } else {
        w.len() > 0 && all_dec(w)
    }
}

/// A number token's unbounded value.
pub open spec fn number_val(w: Seq<u8>) -> nat {
    if is_hex_form(w) {
        hex_val(w.skip(2))
    } else {
        dec_val(w)
    }
}

/// The `step` keyword or its alias `s`.
pub open spec fn is_kw_step(w: Seq<u8>) -> bool {
    w == seq![115u8] || w == seq![115u8, 116u8, 101u8, 112u8]
}

/// The `continue` keyword or its aliases `c` and `cont`.
pub open spec fn is_kw_continue(w: Seq<u8>) -> bool {
    w == seq![99u8] || w == seq![99u8, 111u8, 110u8, 116u8] || w == seq![
        99u8,
        111u8,
        110u8,
        116u8,
        105u8,
        110u8,
        117u8,
        101u8,
    ]
}

/// The `get` keyword or its alias `g`.
pub open spec fn is_kw_get(w: Seq<u8>) -> bool {
    w == seq![103u8] || w == seq![103u8, 101u8, 116u8]
}

/// The `set` keyword or its alias `s` (shared with `step`; arity decides).
pub open spec fn is_kw_set(w: Seq<u8>) -> bool {
    w == seq![115u8] || w == seq![115u8, 101u8, 116u8]
}

/// What a nonempty word sequence parses to, by arity.
///
/// One word: `step`/`s`, `continue`/`c`/`cont`, or a bare `get`/`set`
/// needing operands. Two words: a complete `get` with an address or a
/// register, or a `set` still missing its value. Three words: a complete
/// `set`. Number operands take their value modulo the field's width, as the
/// command fields are 16- or 8-bit.
pub open spec fn spec_parse_words(ws: Seq<Seq<u8>>) -> ParseOutcome {
    if ws.len() == 1 {
        let w = ws[0];
        if is_kw_step(w) {
            ParseOutcome::Matched(Cmd::Step)
        } else if is_kw_continue(w) {
            ParseOutcome::Matched(Cmd::Continue)
        } else if is_kw_get(w) || is_kw_set(w) {
            ParseOutcome::NeedsMore
        } else {
            ParseOutcome::Rejected
        }
    } else if ws.len() == 2 {
        let w0 = ws[0];
        let w1 = ws[1];
        if is_kw_get(w0) {
            if is_number(w1) {
                ParseOutcome::Matched(Cmd::GetAddr((number_val(w1) % 0x10000) as u16))
            } else if spec_register_name(w1) is Some {
                ParseOutcome::Matched(Cmd::GetReg(spec_register_name(w1)->Some_0))
            } else {
                ParseOutcome::Rejected
            }
        } else if is_kw_set(w0) {
            if is_number(w1) || spec_register_name(w1) is Some {
                ParseOutcome::NeedsMore
            } else {
                ParseOutcome::Rejected
            }
        } else {
            ParseOutcome::Rejected
        }
    } else if ws.len() == 3 {
        let w0 = ws[0];
        let w1 = ws[1];
        let w2 = ws[2];
        if is_kw_set(w0) {
            if is_number(w1) && is_number(w2) {
                ParseOutcome::Matched(
                    Cmd::SetAddr(
                        (number_val(w1) % 0x10000) as u16,
                        ((number_val(w2) % 0x10000) % 0x100) as u8,
                    ),
                )
            } else if spec_register_name(w1) is Some && is_number(w2) {
                ParseOutcome::Matched(
                    Cmd::SetReg(
                        spec_register_name(w1)->Some_0,
                        (number_val(w2) % 0x10000) as u16,
                    ),
                )
            } else {
                ParseOutcome::Rejected
            }
        } else {
            ParseOutcome::Rejected
        }
    } else {
        ParseOutcome::Rejected
    }
}

/// What a whole input line parses to: its words matched as above; an empty
/// (or all-whitespace) line resolves to the previous command if one exists
/// and is otherwise a parse failure.
pub open spec fn spec_parse(bytes: Seq<u8>, last_cmd: Option<Cmd>) -> Result<Cmd, ()> {
    let ws = spec_words(bytes);
    if ws.len() == 0 {
        match last_cmd {
            Some(c) => Ok(c),
            None => Err(()),
        }
    } else {
        match spec_parse_words(ws) {
            ParseOutcome::Matched(c) => Ok(c),
            ParseOutcome::NeedsMore => Err(()),
            ParseOutcome::Rejected => Err(()),
        }
    }
}

/// The views of a word list's entries.
pub open spec fn word_views(ws: Seq<Vec<u8>>) -> Seq<Seq<u8>> {
    Seq::new(ws.len(), |i: int| ws[i]@)
}

/// Split a byte sequence into its whitespace-separated words.
fn lex(bytes: &[u8]) -> (words: Vec<Vec<u8>>)
    ensures
        word_views(words@) == spec_words(bytes@),
{
    let mut words: Vec<Vec<u8>> = Vec::new();
    let mut cur: Vec<u8> = Vec::new();
    let mut i: usize = 0;
    while i < bytes.len()
        invariant
            i <= bytes@.len(),
            word_views(words@) == lex_state(bytes@.take(i as int)).0,
            cur@ == lex_state(bytes@.take(i as int)).1,
        decreases bytes@.len() - i,
    {
        let b = bytes[i];
        proof {
            assert(bytes@.take(i + 1).drop_last() =~= bytes@.take(i as int));
            assert(bytes@.take(i + 1).last() == bytes@[i as int]);
        }
        if b == 32 || b == 9 || b == 10 || b == 13 {
            if cur.len() > 0 {
                let ghost prev_words = words@;
                let ghost prev_cur = cur@;
                let done = cur;
                cur = Vec::new();
                words.push(done);
                proof {
                    assert(word_views(words@) =~= word_views(prev_words).push(prev_cur));
                }
            }
        } else {
            cur.push(b);
        }
        i = i + 1;
    }
    proof {
        assert(bytes@.take(bytes@.len() as int) =~= bytes@);
    }
    if cur.len() > 0 {
        let ghost prev_words = words@;
        let ghost prev_cur = cur@;
        words.push(cur);
        proof {
            assert(word_views(words@) =~= word_views(prev_words).push(prev_cur));
        }
    }
    words
}

/// Parse a number token; its value is taken modulo 2^16, the address
/// space's width.
#[verifier::rlimit(50)]
fn parse_number(w: &Vec<u8>) -> (r: Option<u16>)
    ensures
        r is Some <==> is_number(w@),
        r is Some ==> r->Some_0 as nat == number_val(w@) % 0x10000,
{
    if w.len() >= 3 && w[0] == 48 && w[1] == 120 {
        let mut acc: u32 = 0;
        let mut i: usize = 2;
        while i < w.len()
            invariant
                2 <= i <= w@.len(),
                is_hex_form(w@),
                all_hex(w@.subrange(2, i as int)),
                acc == hex_val(w@.subrange(2, i as int)) % 0x10000,
            decreases w@.len() - i,
        {
            let b = w[i];
            if !((48 <= b && b <= 57) || (97 <= b && b <= 102) || (65 <= b && b <= 70)) {
                proof {
                    assert(w@.skip(2)[i - 2] == w@[i as int]);
                    assert(!all_hex(w@.skip(2)));
                }
                return None;
            }
            let d: u32 = if 48 <= b && b <= 57 {
                (b - 48) as u32
            } else if 97 <= b && b <= 102 {
                (b - 97 + 10) as u32
            } else {
                (b - 65 + 10) as u32
            };
            proof {
                let pre = w@.subrange(2, i as int);
                let post = w@.subrange(2, i + 1);
                assert(post.drop_last() =~= pre);
                assert(post.last() == w@[i as int]);
                assert(hex_val(post) == hex_val(pre) * 16 + hex_digit_val(w@[i as int]));
                vstd::arithmetic::div_mod::lemma_mul_mod_noop_left(
                    hex_val(pre) as int,
                    16,
                    0x10000,
                );
                vstd::arithmetic::div_mod::lemma_add_mod_noop(
                    (hex_val(pre) * 16) as int,
                    hex_digit_val(w@[i as int]) as int,
                    0x10000,
                );
            }
            acc = (acc * 16 + d) % 0x10000;
            i = i + 1;
        }
        proof {
            assert(w@.subrange(2, w@.len() as int) =~= w@.skip(2));
        }
        Some(acc as u16)
    } else {
        if w.len() == 0 {
            return None;
        }
        let mut acc: u32 = 0;
        let mut i: usize = 0;
        while i < w.len()
            invariant
                i <= w@.len(),
                !is_hex_form(w@),
                all_dec(w@.subrange(0, i as int)),
                acc == dec_val(w@.subrange(0, i as int)) % 0x10000,
            decreases w@.len() - i,
        {
            let b = w[i];
            if !(48 <= b && b <= 57) {
                proof {
                    assert(!all_dec(w@));
                }
                return None;
            }
            let d: u32 = (b - 48) as u32;
            proof {
                let pre = w@.subrange(0, i as int);
                let post = w@.subrange(0, i + 1);
                assert(post.drop_last() =~= pre);
                assert(post.last() == w@[i as int]);
                assert(dec_val(post) == dec_val(pre) * 10 + ((w@[i as int] - 48) as nat));
                vstd::arithmetic::div_mod::lemma_mul_mod_noop_left(
                    dec_val(pre) as int,
                    10,
                    0x10000,
                );
                vstd::arithmetic::div_mod::lemma_add_mod_noop(
                    (dec_val(pre) * 10) as int,
                    (w@[i as int] - 48) as int,
                    0x10000,
                );
            }
            acc = (acc * 10 + d) % 0x10000;
            i = i + 1;
        }
        proof {
            assert(w@.subrange(0, w@.len() as int) =~= w@);
        }
        Some(acc as u16)
    }
}

/// Whether a word is the `step` keyword or its alias.
fn is_step_word(w: &Vec<u8>) -> (r: bool)
    ensures
        r == is_kw_step(w@),
{
    if w.len() == 1 && w[0] == 115 {
        proof {
            assert(w@ =~= seq![115u8]);
        }
        true
    } else if w.len() == 4 && w[0] == 115 && w[1] == 116 && w[2] == 101 && w[3] == 112 {
        proof {
            assert(w@ =~= seq![115u8, 116u8, 101u8, 112u8]);
        }
        true
    } else {
        false
    }
}

/// Whether a word is the `continue` keyword or one of its aliases.
fn is_continue_word(w: &Vec<u8>) -> (r: bool)
    ensures
        r == is_kw_continue(w@),
{
    if w.len() == 1 && w[0] == 99 {
        proof {
            assert(w@ =~= seq![99u8]);
        }
        true
    } else if w.len() == 4 && w[0] == 99 && w[1] == 111 && w[2] == 110 && w[3] == 116 {
        proof {
            assert(w@ =~= seq![99u8, 111u8, 110u8, 116u8]);
        }
        true
    } else if w.len() == 8 && w[0] == 99 && w[1] == 111 && w[2] == 110 && w[3] == 116 && w[4]
        == 105 && w[5] == 110 && w[6] == 117 && w[7] == 101 {
        proof {
            assert(w@ =~= seq![99u8, 111u8, 110u8, 116u8, 105u8, 110u8, 117u8, 101u8]);
        }
        true
    } else {
        false
    }
}

/// Whether a word is the `get` keyword or its alias.
fn is_get_word(w: &Vec<u8>) -> (r: bool)
    ensures
        r == is_kw_get(w@),
{
    if w.len() == 1 && w[0] == 103 {
        proof {
            assert(w@ =~= seq![103u8]);
        }
        true
    } else if w.len() == 3 && w[0] == 103 && w[1] == 101 && w[2] == 116 {
        proof {
            assert(w@ =~= seq![103u8, 101u8, 116u8]);
        }
        true
    } else {
        false
    }
}

/// Whether a word is the `set` keyword or its alias.
fn is_set_word(w: &Vec<u8>) -> (r: bool)
    ensures
        r == is_kw_set(w@),
{
    if w.len() == 1 && w[0] == 115 {
        proof {
            assert(w@ =~= seq![115u8]);
        }
        true
    } else if w.len() == 3 && w[0] == 115 && w[1] == 101 && w[2] == 116 {
        proof {
            assert(w@ =~= seq![115u8, 101u8, 116u8]);
        }
        true
    } else {
        false
    }
}

impl Cmd {
    /// Every register the command names is a valid slot reference.
    pub open spec fn wf(self) -> bool {
        match self {
            Cmd::GetReg(r) => r.wf(),
            Cmd::SetReg(r, _) => r.wf(),
            _ => true,
        }
    }

    /// Match a nonempty word list against the command patterns, by arity.
    pub fn parse_tokens(words: &Vec<Vec<u8>>) -> (r: ParseOutcome)
        ensures
            r == spec_parse_words(word_views(words@)),
            r is Matched ==> r->Matched_0.wf(),
    {
        let ghost ws = word_views(words@);
        if words.len() == 1 {
            let w = &words[0];
            proof {
                assert(ws[0] == w@);
            }
            if is_step_word(w) {
                ParseOutcome::Matched(Cmd::Step)
            } else if is_continue_word(w) {
                ParseOutcome::Matched(Cmd::Continue)
            } else if is_get_word(w) || is_set_word(w) {
                ParseOutcome::NeedsMore
            } else {
                ParseOutcome::Rejected
            }
        } else if words.len() == 2 {
            let w0 = &words[0];
            let w1 = &words[1];
            proof {
                assert(ws[0] == w0@);
                assert(ws[1] == w1@);
            }
            if is_get_word(w0) {
                match parse_number(w1) {
                    Some(addr) => ParseOutcome::Matched(Cmd::GetAddr(addr)),
                    None => match Register::from_name(w1.as_slice()) {
                        Some(reg) => ParseOutcome::Matched(Cmd::GetReg(reg)),
                        None => ParseOutcome::Rejected,
                    },
                }
            } else if is_set_word(w0) {
                let operand_ok = match parse_number(w1) {
                    Some(n) => true,
                    None => Register::from_name(w1.as_slice()).is_some(),
                };
                if operand_ok {
                    ParseOutcome::NeedsMore
                } else {
                    ParseOutcome::Rejected
                }
            } else {
                ParseOutcome::Rejected
            }
        } else if words.len() == 3 {
            let w0 = &words[0];
            let w1 = &words[1];
            let w2 = &words[2];
            proof {
                assert(ws[0] == w0@);
                assert(ws[1] == w1@);
                assert(ws[2] == w2@);
            }
            if is_set_word(w0) {
                match parse_number(w2) {
                    Some(value) => match parse_number(w1) {
                        Some(addr) => ParseOutcome::Matched(
                            Cmd::SetAddr(addr, (value % 256) as u8),
                        ),
                        None => match Register::from_name(w1.as_slice()) {
                            Some(reg) => ParseOutcome::Matched(Cmd::SetReg(reg, value)),
                            None => ParseOutcome::Rejected,
                        },
                    },
                    None => ParseOutcome::Rejected,
                }
            } else {
                ParseOutcome::Rejected
            }
        } else {
            ParseOutcome::Rejected
        }
    }

    /// Parse one input line, given the previously issued command: the words
    /// are matched by arity; an empty line repeats the previous command and
    /// fails if there is none; an incomplete or unrecognized line fails.
    pub fn parse(s: &str, last_cmd: Option<Cmd>) -> (r: Result<Cmd, ()>)
        ensures
            r == spec_parse(s.spec_bytes(), last_cmd),
            (last_cmd is Some ==> last_cmd->Some_0.wf()) ==> (r is Ok ==> r->Ok_0.wf()),
    {
        let bytes = s.as_bytes();
        let words = lex(bytes);
        if words.len() == 0 {
            match last_cmd {
                Some(c) => Ok(c),
                None => Err(()),
            }
        } else {
            match Cmd::parse_tokens(&words) {
                ParseOutcome::Matched(c) => Ok(c),
                ParseOutcome::NeedsMore => Err(()),
                ParseOutcome::Rejected => Err(()),
            }
        }
    }
}

} // verus!
