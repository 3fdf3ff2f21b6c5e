use smplvm::{next_ignore, Args, Break, Cmd, Config, Debugger, Error, Register, Width, VM};

const DISPLAY_LEN: usize = 64 * 32 * 2;
const FUEL: usize = 1_000_000;

fn vm_with(bytes: &[u8]) -> VM {
    let mut ram = vec![0u8; 0x8000];
    for (i, b) in bytes.iter().enumerate() {
        ram[i] = *b;
    }
    let mut vm = VM::new(ram, vec![0, 0], vec![0u8; DISPLAY_LEN]);
    vm.reset();
    vm
}

#[test]
fn breakpoint_halts_then_single_step_resumes() {
    // four nops; breakpoint at address 2
    let vm = vm_with(&[0x00, 0x00, 0x00, 0x00]);
    let mut dbg = Debugger::new(vm, vec![2], false);
    assert_eq!(dbg.step(false), Ok(Break::Step));
    assert_eq!(dbg.vm.get_reg(&Register::rip()), 2);
    // stepping onto the breakpoint halts without executing
    let hit = dbg.step(false);
    assert_eq!(hit, Ok(Break::Point(2)));
    assert_eq!(dbg.vm.get_reg(&Register::rip()), 2);
    // the immediately following step at the same address executes normally
    assert!(next_ignore(&hit.unwrap()));
    assert_eq!(dbg.step(true), Ok(Break::Step));
    assert_eq!(dbg.vm.get_reg(&Register::rip()), 4);
}

#[test]
fn continue_runs_to_breakpoint() {
    let vm = vm_with(&[0x00; 16]);
    let mut dbg = Debugger::new(vm, vec![6], false);
    assert_eq!(dbg.cont(false, FUEL), Ok(Break::Point(6)));
    assert_eq!(dbg.vm.get_reg(&Register::rip()), 6);
    // resuming suppresses the hit once, then traps at the next one
    let mut dbg = Debugger::new(vm_with(&[0x00; 16]), vec![6, 8], false);
    assert_eq!(dbg.cont(false, FUEL), Ok(Break::Point(6)));
    assert_eq!(dbg.cont(true, FUEL), Ok(Break::Point(8)));
}

#[test]
fn continue_surfaces_decode_errors() {
    let vm = vm_with(&[0x00, 0x00, 0xF3, 0x37]);
    let mut dbg = Debugger::new(vm, vec![], false);
    assert_eq!(dbg.cont(false, FUEL), Err(Error::InvalidOpcode(0xF3, 0x37)));
    assert_eq!(dbg.vm.get_reg(&Register::rip()), 4);
}

#[test]
fn continue_out_of_fuel() {
    let vm = vm_with(&[0x00, 0x00, 0x00, 0x00]);
    let mut dbg = Debugger::new(vm, vec![], false);
    assert_eq!(dbg.cont(false, 2), Ok(Break::OutOfFuel));
    assert_eq!(dbg.vm.get_reg(&Register::rip()), 4);
}

#[test]
fn get_and_set_commands_act_immediately() {
    let vm = vm_with(&[0x00]);
    let mut dbg = Debugger::new(vm, vec![], false);
    assert_eq!(dbg.action_cmd(Cmd::SetAddr(0x1234, 0xAB), false, FUEL), Ok(Break::Silent));
    assert_eq!(
        dbg.action_cmd(Cmd::GetAddr(0x1234), false, FUEL),
        Ok(Break::GetAddr(0x1234, 0xAB))
    );
    let r0 = Register::numbered(Width::Word, 0);
    assert_eq!(dbg.action_cmd(Cmd::SetReg(r0, 0xF337), false, FUEL), Ok(Break::Silent));
    assert_eq!(dbg.action_cmd(Cmd::GetReg(r0), false, FUEL), Ok(Break::GetReg(r0, 0xF337)));
    // none of these touched the instruction pointer
    assert_eq!(dbg.vm.get_reg(&Register::rip()), 0);
}

#[test]
fn report_lines() {
    let r0 = Register::numbered(Width::Word, 0);
    let rb11 = Register::numbered(Width::Byte, 11);
    assert_eq!(Break::Point(61239).report_line(), Some("Breakpoint at: 61239".to_string()));
    assert_eq!(Break::GetAddr(0x1234, 0x56).report_line(), Some("0x1234: 0x56".to_string()));
    assert_eq!(Break::GetAddr(0x00FF, 0x05).report_line(), Some("0x00FF: 0x05".to_string()));
    assert_eq!(Break::GetReg(r0, 0xF337).report_line(), Some("r0: 0xF337".to_string()));
    assert_eq!(Break::GetReg(rb11, 0x00AB).report_line(), Some("rb11: 0x00AB".to_string()));
    assert_eq!(
        Break::GetReg(Register::rip(), 0x0002).report_line(),
        Some("rip: 0x0002".to_string())
    );
    assert_eq!(Break::Step.report_line(), None);
    assert_eq!(Break::Silent.report_line(), None);
    assert_eq!(Break::OutOfFuel.report_line(), None);
    assert!(!next_ignore(&Break::Step));
    assert!(next_ignore(&Break::Point(0)));
}

#[test]
fn from_cfg_takes_breakpoints_and_prompt_flag() {
    let vm = vm_with(&[0x00]);
    let args = Args {
        config_path: "config.toml".to_string(),
        no_display: false,
        debug: true,
        first_prompt: true,
        breakpoints: vec![7],
    };
    let mut cfg = Config {
        in_path: "prog.bin".to_string(),
        compile: false,
        memory_len: 0x8000,
        display: false,
        debug: true,
        breakpoints: vec![9, 3],
        root_dir: String::new(),
    };
    cfg.merge_breakpoints(&args.breakpoints);
    assert_eq!(cfg.breakpoints, vec![3, 7, 9]);
    let dbg = Debugger::from_cfg(vm, &args, &cfg);
    assert_eq!(dbg.breakpoints, vec![3, 7, 9]);
    assert!(dbg.first_prompt);
}

#[test]
fn report_line_edge_values() {
    assert_eq!(Break::Point(0).report_line(), Some("Breakpoint at: 0".to_string()));
    assert_eq!(Break::GetAddr(0x0000, 0x00).report_line(), Some("0x0000: 0x00".to_string()));
    assert_eq!(Break::GetAddr(0xFFFF, 0xFF).report_line(), Some("0xFFFF: 0xFF".to_string()));
}
