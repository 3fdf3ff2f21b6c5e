mod args;
mod cfg;
mod cmd;
mod debugger;
mod decode;
mod error;
mod isa;
mod text;
mod vm;

pub use args::Args;
pub use cfg::sorted;
pub use cfg::_breakpoints_default;
pub use cfg::_compile_default;
pub use cfg::_debug_default;
pub use cfg::_display_default;
pub use cfg::_memory_len_default;
pub use cfg::_root_dir_default;
pub use cfg::Config;
pub use cmd::spec_parse;
pub use cmd::spec_parse_words;
pub use cmd::spec_words;
pub use cmd::Cmd;
pub use cmd::ParseOutcome;
pub use debugger::Break;
pub use debugger::DbgState;
pub use debugger::Debugger;
pub use debugger::next_ignore;
pub use text::spec_report_line;
pub use text::spec_reg_name;
pub use decode::decompile;
pub use decode::spec_decompile;
pub use error::Error;
pub use isa::lemma_len_operand_independent;
pub use isa::lemma_selector_round_trip;
pub use isa::spec_gpr_num;
pub use isa::spec_register_name;
pub use isa::Instruction;
pub use isa::Register;
pub use isa::Value;
pub use isa::Width;
pub use vm::flags_reg;
pub use vm::lemma_arith_flags;
pub use vm::lemma_byte_write_preserves_high;
pub use vm::lemma_ram_round_trip;
pub use vm::lemma_unmapped_write_noop;
pub use vm::lemma_unwritten_reads_zero;
pub use vm::rip_reg;
pub use vm::spec_calc_flags;
pub use vm::VM;
pub use vm::VmState;
