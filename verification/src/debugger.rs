//! The breakpoint-aware debugger: it owns a machine and a sorted breakpoint
//! set, drives the engine one instruction or one continue burst at a time,
//! and applies peek/poke commands against the live state.
use vstd::prelude::*;

use crate::args::Args;
use crate::cfg::{sorted, Config};
use crate::cmd::Cmd;
use crate::error::Error;
use crate::isa::Register;
use crate::vm::{rip_reg, VmState, VM};

verus! {

/// What one debugger action reports: an executed step, a breakpoint hit at
/// an address, a read-back of memory or a register, a silent write, or an
/// exhausted step budget during a continue burst.
#[derive(Clone, Copy, Debug, PartialEq, Eq, Structural)]
pub enum Break {
    Step,
    Point(u16),
    GetAddr(u16, u8),
    GetReg(Register, u16),
    Silent,
    OutOfFuel,
}

/// The debugger's abstract state: the machine, the breakpoint set, and
/// whether to prompt before the first instruction.
#[verifier::ext_equal]
pub struct DbgState {
    pub vm: VmState,
    pub breakpoints: Seq<u16>,
    pub first_prompt: bool,
}

impl DbgState {
    /// A valid debugger: a valid machine and a sorted breakpoint list.
    pub open spec fn wf(self) -> bool {
        self.vm.wf() && sorted(self.breakpoints)
    }

    /// One debugger step: if the instruction pointer sits on a breakpoint
    /// and the hit is not being suppressed, halt without executing; else
    /// execute exactly one instruction.
    pub open spec fn step_state(self, ignore_breakpoint: bool) -> (DbgState, Result<Break, Error>) {
        let rip_val = self.vm.read_reg(rip_reg());
        if !ignore_breakpoint && self.breakpoints.contains(rip_val) {
            (self, Ok(Break::Point(rip_val)))
        } else {
            let stepped = self.vm.step();
            let d2 = DbgState { vm: stepped.0, ..self };
            match stepped.1 {
                Ok(u) => (d2, Ok(Break::Step)),
                Err(e) => (d2, Err(e)),
            }
        }
    }

    /// A continue burst: repeat the step semantics until a breakpoint hit,
    /// an error, or the step budget runs out; only the first step may have
    /// its breakpoint check suppressed.
    pub open spec fn cont_state(self, ignore_breakpoint: bool, fuel: nat) -> (
        DbgState,
        Result<Break, Error>,
    )
        decreases fuel,
    {
        if fuel == 0 {
            (self, Ok(Break::OutOfFuel))
        } else {
            let stepped = self.step_state(ignore_breakpoint);
            match stepped.1 {
                Err(e) => stepped,
                Ok(b) => if b is Point {
                    stepped
                } else {
                    stepped.0.cont_state(false, (fuel - 1) as nat)
                },
            }
        }
    }

    /// The effect of one debugger command: step or continue drive the
    /// engine; the peek/poke commands act immediately against the live
    /// state without advancing the instruction pointer or consuming a
    /// breakpoint check.
    pub open spec fn action_state(self, cmd: Cmd, ignore_breakpoint: bool, fuel: nat) -> (
        DbgState,
        Result<Break, Error>,
    ) {
        match cmd {
            Cmd::Step => self.step_state(ignore_breakpoint),
            Cmd::Continue => self.cont_state(ignore_breakpoint, fuel),
            Cmd::GetAddr(addr) => (self, Ok(Break::GetAddr(addr, self.vm.read_mem(addr)))),
            Cmd::SetAddr(addr, value) => (
                DbgState { vm: self.vm.write_mem(addr, value), ..self },
                Ok(Break::Silent),
            ),
            Cmd::GetReg(reg) => (self, Ok(Break::GetReg(reg, self.vm.read_reg(reg)))),
            Cmd::SetReg(reg, value) => (
                DbgState { vm: self.vm.write_reg(reg, value), ..self },
                Ok(Break::Silent),
            ),
        }
    }
}

/// Membership in a sorted breakpoint list, by binary search.
fn breakpoint_hit(bps: &Vec<u16>, addr: u16) -> (r: bool)
    requires
        sorted(bps@),
    ensures
        r == bps@.contains(addr),
{
    let mut lo: usize = 0;
    let mut hi: usize = bps.len();
    while lo < hi
        invariant
            lo <= hi <= bps@.len(),
            sorted(bps@),
            forall|k: int| 0 <= k < bps@.len() && bps@[k] == addr ==> lo <= k < hi,
        decreases hi - lo,
    {
        let mid = lo + (hi - lo) / 2;
        let v = bps[mid];
        if v == addr {
            assert(bps@.contains(addr)) by {
                assert(bps@[mid as int] == addr);
            }
            return true;
        } else if v < addr {
            lo = mid + 1;
        } else {
            hi = mid;
        }
    }
    assert(!bps@.contains(addr)) by {
        if bps@.contains(addr) {
            let k = choose|k: int| 0 <= k < bps@.len() && bps@[k] == addr;
            assert(lo <= k < hi);
        }
    }
    false
}

/// The debugger: a machine, its sorted breakpoint set, and the prompt
/// setting.
pub struct Debugger {
    pub vm: VM,
    pub breakpoints: Vec<u16>,
    pub first_prompt: bool,
}

impl View for Debugger {
    type V = DbgState;

    open spec fn view(&self) -> DbgState {
        DbgState { vm: self.vm@, breakpoints: self.breakpoints@, first_prompt: self.first_prompt }
    }
}

impl Debugger {
    /// A debugger over the given machine and sorted breakpoint list.
    pub fn new(vm: VM, breakpoints: Vec<u16>, first_prompt: bool) -> (d: Debugger)
        requires
            vm@.wf(),
            sorted(breakpoints@),
        ensures
            d@ == (DbgState { vm: vm@, breakpoints: breakpoints@, first_prompt }),
            d@.wf(),
    {
        Debugger { vm, breakpoints, first_prompt }
    }

    /// A debugger from the resolved configuration: the configuration's
    /// merged breakpoint list and the command line's first-prompt flag.
    pub fn from_cfg(vm: VM, args: &Args, cfg: &Config) -> (d: Debugger)
        requires
            vm@.wf(),
            sorted(cfg.breakpoints@),
        ensures
            d@ == (DbgState {
                vm: vm@,
                breakpoints: cfg.breakpoints@,
                first_prompt: args.first_prompt,
            }),
            d@.wf(),
    {
        let bps = cfg.breakpoints.clone();
        proof {
            assert(bps@ =~= cfg.breakpoints@);
        }
        Self::new(vm, bps, args.first_prompt)
    }

    /// One debugger step. On a non-suppressed breakpoint hit it halts with
    /// the hit address and executes nothing; otherwise it executes exactly
    /// one instruction. Passing `ignore_breakpoint` right after a hit lets
    /// the halted instruction run instead of re-trapping.
    pub fn step(&mut self, ignore_breakpoint: bool) -> (r: Result<Break, Error>)
        requires
            old(self)@.wf(),
        ensures
            final(self)@.wf(),
            final(self)@ == old(self)@.step_state(ignore_breakpoint).0,
            r == old(self)@.step_state(ignore_breakpoint).1,
    {
        let addr = self.vm.get_reg(&Register::rip());
        if !ignore_breakpoint && breakpoint_hit(&self.breakpoints, addr) {
            Ok(Break::Point(addr))
        } else {
            match self.vm.execute_next() {
                Ok(u) => Ok(Break::Step),
                Err(e) => Err(e),
            }
        }
    }

    /// A continue burst of at most `fuel` steps: run until a breakpoint
    /// hit, an error, or the budget's end (`OutOfFuel`, so the caller can
    /// grant more).
    pub fn cont(&mut self, ignore_breakpoint: bool, fuel: usize) -> (r: Result<Break, Error>)
        requires
            old(self)@.wf(),
        ensures
            final(self)@.wf(),
            final(self)@ == old(self)@.cont_state(ignore_breakpoint, fuel as nat).0,
            r == old(self)@.cont_state(ignore_breakpoint, fuel as nat).1,
    {
        let mut ignore = ignore_breakpoint;
        let mut remaining: usize = fuel;
        loop
            invariant
                self@.wf(),
                old(self)@.cont_state(ignore_breakpoint, fuel as nat) == self@.cont_state(
                    ignore,
                    remaining as nat,
                ),
            decreases remaining,
        {
            if remaining == 0 {
                return Ok(Break::OutOfFuel);
            }
            let r = self.step(ignore);
            remaining = remaining - 1;
            match r {
                Err(e) => {
                    return Err(e);
                },
                Ok(b) => match b {
                    Break::Point(a) => {
                        return Ok(Break::Point(a));
                    },
                    _ => {
                        ignore = false;
                    },
                },
            }
        }
    }

    /// Apply one command: step or continue drive the engine with the given
    /// breakpoint suppression and budget; get/set commands act immediately
    /// on memory or a register.
    pub fn action_cmd(&mut self, cmd: Cmd, ignore_breakpoint: bool, fuel: usize) -> (r: Result<
        Break,
        Error,
    >)
        requires
            old(self)@.wf(),
            cmd.wf(),
        ensures
            final(self)@.wf(),
            final(self)@ == old(self)@.action_state(cmd, ignore_breakpoint, fuel as nat).0,
            r == old(self)@.action_state(cmd, ignore_breakpoint, fuel as nat).1,
    {
        match cmd {
            Cmd::Step => self.step(ignore_breakpoint),
            Cmd::Continue => self.cont(ignore_breakpoint, fuel),
            Cmd::GetAddr(addr) => {
                let b = self.vm.get_mem(addr);
                Ok(Break::GetAddr(addr, b))
            },
            Cmd::SetAddr(addr, value) => {
                self.vm.set_mem(addr, value);
                Ok(Break::Silent)
            },
            Cmd::GetReg(reg) => {
                let v = self.vm.get_reg(&reg);
                Ok(Break::GetReg(reg, v))
            },
            Cmd::SetReg(reg, value) => {
                self.vm.set_reg(&reg, value);
                Ok(Break::Silent)
            },
        }
    }
}

/// Whether the next step after this outcome must suppress its breakpoint
/// check: exactly after a breakpoint hit, so the halted instruction runs
/// instead of re-trapping.
pub fn next_ignore(res: &Break) -> (r: bool)
    ensures
        r == (res is Point),
{
    matches!(res, Break::Point(_))
}

} // verus!
