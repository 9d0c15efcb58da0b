//! Opcodes and the builders that make one opcode per operand of a family.

use vstd::prelude::*;
use vstd::string::StringExecFns;
use crate::registers::{bit_set, lemma_with_flag, lemma_with_sz53, Flag, Reg16, Reg8, Registers};
use crate::state::State;

verus! {

/// What an opcode does to the registers, fixed when the opcode is built.
#[derive(Clone, Copy, Debug, PartialEq, Eq, Structural)]
pub enum Action {
    /// Nothing.
    Nop,
    /// `ADD HL, rr`.
    AddHlRr(Reg16),
    /// `INC rr` when the flag is true, `DEC rr` otherwise.
    IncDecRr(Reg16, bool),
    /// `INC r`.
    IncR(Reg8),
    /// `DEC r`.
    DecR(Reg8),
}

/// `ADD HL, rr`: HL + rr modulo 2^16 into HL; Half-carry from the carry out
/// of bit 11, Carry from the carry out of bit 15, Subtract cleared; Sign,
/// Zero, Parity/Overflow and bits 5 and 3 are left alone.
pub open spec fn add_hl_rr(r: Registers, rr: Reg16) -> Registers {
    let hl = r.spec_get16(Reg16::HL) as int;
    let x = r.spec_get16(rr) as int;
    r.with16(Reg16::HL, ((hl + x) % 0x10000) as u16)
        .with_flag(Flag::H, hl % 0x1000 + x % 0x1000 >= 0x1000)
        .with_flag(Flag::C, hl + x >= 0x10000)
        .with_flag(Flag::N, false)
}

/// `INC rr` / `DEC rr`: plus or minus one modulo 2^16; no flag changes.
pub open spec fn inc_dec_rr(r: Registers, rr: Reg16, inc: bool) -> Registers {
    let delta: int = if inc { 1 } else { 0xFFFF };
    r.with16(rr, ((r.spec_get16(rr) as int + delta) % 0x10000) as u16)
}

/// `INC r`: plus one modulo 256; S, Z, 5, 3 from the result; N cleared;
/// P/V set iff the result is 0x80; H set iff its low nibble is 0; C kept.
pub open spec fn inc_r(r: Registers, sel: Reg8) -> Registers {
    let v = ((r.spec_get8(sel) as int + 1) % 0x100) as u8;
    r.with8(sel, v)
        .with_sz53(v)
        .with_flag(Flag::N, false)
        .with_flag(Flag::P, v == 0x80)
        .with_flag(Flag::H, v % 16 == 0)
}

/// `DEC r`: minus one modulo 256; S, Z, 5, 3 from the result; N set;
/// P/V set iff the result is 0x7F; H set iff its low nibble is 0xF; C kept.
pub open spec fn dec_r(r: Registers, sel: Reg8) -> Registers {
    let v = ((r.spec_get8(sel) as int + 0xFF) % 0x100) as u8;
    r.with8(sel, v)
        .with_sz53(v)
        .with_flag(Flag::N, true)
        .with_flag(Flag::P, v == 0x7F)
        .with_flag(Flag::H, v % 16 == 0xF)
}

impl Action {
    /// The registers after the action.
    pub open spec fn apply(self, r: Registers) -> Registers {
        match self {
            Action::Nop => r,
            Action::AddHlRr(rr) => add_hl_rr(r, rr),
            Action::IncDecRr(rr, inc) => inc_dec_rr(r, rr, inc),
            Action::IncR(sel) => inc_r(r, sel),
            Action::DecR(sel) => dec_r(r, sel),
        }
    }

    /// Performs the action on the registers.
    pub fn run(&self, reg: &mut Registers)
        ensures
            *final(reg) == self.apply(*old(reg)),
    {
        match *self {
            Action::Nop => {},
            Action::AddHlRr(rr) => {
                let hl: u32 = reg.get16(Reg16::HL) as u32;
                let x: u32 = reg.get16(rr) as u32;
                let sum: u32 = hl + x;
                reg.set16(Reg16::HL, (sum % 0x10000) as u16);
                reg.put_flag(Flag::H, hl % 0x1000 + x % 0x1000 >= 0x1000);
                reg.put_flag(Flag::C, sum >= 0x10000);
                reg.clear_flag(Flag::N);
            },
            Action::IncDecRr(rr, inc) => {
                let delta: u32 = if inc { 1 } else { 0xFFFF };
                let v: u32 = reg.get16(rr) as u32;
                reg.set16(rr, ((v + delta) % 0x10000) as u16);
            },
            Action::IncR(sel) => {
                let old_v: u8 = reg.get8(sel);
                let v: u8 = if old_v == 255 { 0 } else { old_v + 1 };
                reg.set8(sel, v);
                reg.update_sz53_flags(v);
                reg.clear_flag(Flag::N);
                reg.put_flag(Flag::P, v == 0x80);
                reg.put_flag(Flag::H, v % 16 == 0);
            },
            Action::DecR(sel) => {
                let old_v: u8 = reg.get8(sel);
                let v: u8 = if old_v == 0 { 255 } else { old_v - 1 };
                reg.set8(sel, v);
                reg.update_sz53_flags(v);
                reg.set_flag(Flag::N);
                reg.put_flag(Flag::P, v == 0x7F);
                reg.put_flag(Flag::H, v % 16 == 0xF);
            },
        }
    }
}

/// An instruction: its mnemonic, its length in bytes, its base cost in
/// cycles and its effect on the registers.
#[derive(Debug)]
pub struct Opcode {
    pub name: String,
    pub bytes: usize,
    pub cycles: u64,
    pub action: Action,
}

impl Opcode {
    fn new(name: String, bytes: usize, cycles: u64, action: Action) -> (op: Opcode)
        ensures
            op.name@ == name@,
            op.bytes == bytes,
            op.cycles == cycles,
            op.action == action,
    {
        Opcode { name, bytes, cycles, action }
    }

    /// The state after one execution: the action's effect, then the cost.
    pub open spec fn step(self, s: State) -> State {
        State { reg: self.action.apply(s.reg), cycles: (s.cycles + self.cycles) as u64 }
    }

    /// Runs the action on the state, then adds the opcode's cycle cost to the
    /// state's counter.
    pub fn execute(&self, state: &mut State)
        requires
            old(state).cycles + self.cycles <= u64::MAX,
        ensures
            *final(state) == self.step(*old(state)),
            final(state).reg == self.action.apply(old(state).reg),
            final(state).cycles == old(state).cycles + self.cycles,
    {
        self.action.run(&mut state.reg);
        state.cycles = state.cycles + self.cycles;
    }
}

/// Joins a mnemonic and its operand text.
fn join(prefix: &str, operand: &str) -> (s: String)
    ensures
        s@ == prefix@ + operand@,
{
    let mut s = String::from_str(prefix);
    s.append(operand);
    s
}

/// `NOP`: one byte, four cycles, no effect.
pub fn build_nop() -> (op: Opcode)
    ensures
        op.name@ == "NOP"@,
        op.bytes == 1,
        op.cycles == 4,
        op.action == Action::Nop,
{
    Opcode::new(String::from_str("NOP"), 1, 4, Action::Nop)
}

/// `ADD HL, rr`: one byte, eleven cycles.
pub fn build_add_hl_rr(rr: Reg16) -> (op: Opcode)
    ensures
        op.name@ == "ADD HL, "@ + rr.spec_text(),
        op.bytes == 1,
        op.cycles == 11,
        op.action == Action::AddHlRr(rr),
{
    Opcode::new(join("ADD HL, ", rr.text()), 1, 11, Action::AddHlRr(rr))
}

/// `INC rr` when `inc` holds, else `DEC rr`: one byte, six cycles.
pub fn build_inc_dec_rr(rr: Reg16, inc: bool) -> (op: Opcode)
    ensures
        op.name@ == (if inc { "INC "@ } else { "DEC "@ }) + rr.spec_text(),
        op.bytes == 1,
        op.cycles == 6,
        op.action == Action::IncDecRr(rr, inc),
{
    let mnemonic = if inc { "INC " } else { "DEC " };
    Opcode::new(join(mnemonic, rr.text()), 1, 6, Action::IncDecRr(rr, inc))
}

/// `INC r`: one byte, four cycles.
pub fn build_inc_r(r: Reg8) -> (op: Opcode)
    ensures
        op.name@ == "INC "@ + r.spec_text(),
        op.bytes == 1,
        op.cycles == 4,
        op.action == Action::IncR(r),
{
    Opcode::new(join("INC ", r.text()), 1, 4, Action::IncR(r))
}

/// `DEC r`: one byte, four cycles.
pub fn build_dec_r(r: Reg8) -> (op: Opcode)
    ensures
        op.name@ == "DEC "@ + r.spec_text(),
        op.bytes == 1,
        op.cycles == 4,
        op.action == Action::DecR(r),
{
    Opcode::new(join("DEC ", r.text()), 1, 4, Action::DecR(r))
}

/// The state after `n` executions of `op` from `s`.
pub open spec fn run_n(op: Opcode, s: State, n: nat) -> State
    decreases n,
{
    if n == 0 {
        s
    } else {
        op.step(run_n(op, s, (n - 1) as nat))
    }
}

/// `INC r` changes the selected register to its successor modulo 256 and
/// no other 8-bit register.
proof fn lemma_inc_r_regs(r: Registers, sel: Reg8)
    ensures
        inc_r(r, sel) == (Registers { f: inc_r(r, sel).f, ..r.with8(sel, ((r.spec_get8(sel) as int + 1) % 0x100) as u8) }),
{
}

/// `DEC r` changes the selected register to its predecessor modulo 256 and
/// no other 8-bit register.
proof fn lemma_dec_r_regs(r: Registers, sel: Reg8)
    ensures
        dec_r(r, sel) == (Registers { f: dec_r(r, sel).f, ..r.with8(sel, ((r.spec_get8(sel) as int + 0xFF) % 0x100) as u8) }),
{
}

/// `INC r` followed by `DEC r`, or `DEC r` followed by `INC r`, leaves every
/// 8-bit register as it was; only the flags may differ.
pub proof fn lemma_inc_dec_r_round_trip(r: Registers, sel: Reg8)
    ensures
        forall|g: Reg8| #[trigger] dec_r(inc_r(r, sel), sel).spec_get8(g) == r.spec_get8(g),
        forall|g: Reg8| #[trigger] inc_r(dec_r(r, sel), sel).spec_get8(g) == r.spec_get8(g),
{
    lemma_inc_r_regs(r, sel);
    lemma_dec_r_regs(inc_r(r, sel), sel);
    lemma_dec_r_regs(r, sel);
    lemma_inc_r_regs(dec_r(r, sel), sel);
}

/// `INC rr` and `DEC rr` leave the flag register bitwise unchanged, whatever
/// it held before.
pub proof fn lemma_inc_dec_rr_keeps_flags(r: Registers, rr: Reg16, inc: bool)
    ensures
        Action::IncDecRr(rr, inc).apply(r).f == r.f,
        forall|fl: Flag| #[trigger] Action::IncDecRr(rr, inc).apply(r).flag(fl) == r.flag(fl),
{
}

/// One execution of any opcode adds exactly its declared cost to the cycle
/// counter, whatever its action does.
pub proof fn lemma_step_cycles(op: Opcode, s: State)
    requires
        s.cycles + op.cycles <= u64::MAX,
    ensures
        op.step(s).cycles == s.cycles + op.cycles,
{
}

/// Executing a no-op `n` times changes no register and no flag, and adds `n`
/// times its cost to the cycle counter.
pub proof fn lemma_nop_repeated(op: Opcode, s: State, n: nat)
    requires
        op.action == Action::Nop,
        s.cycles + n * op.cycles <= u64::MAX,
    ensures
        run_n(op, s, n).reg == s.reg,
        run_n(op, s, n).cycles == s.cycles + n * op.cycles,
    decreases n,
{
    if n > 0 {
        let m = (n - 1) as nat;
        let c = op.cycles as int;
        assert(n * c == m * c + c) by (nonlinear_arith)
            requires
                n == m + 1,
        ;
        assert(m * c >= 0) by (nonlinear_arith)
            requires
                c >= 0,
        ;
        lemma_nop_repeated(op, s, m);
        let prev = run_n(op, s, m);
        assert(run_n(op, s, n) == op.step(prev));
        assert(prev.cycles + c == s.cycles + n * c);
    } else {
        assert(n * op.cycles == 0) by (nonlinear_arith)
            requires
                n == 0,
        ;
    }
}

/// The flags after `INC r`, with `v` the new value of the register.
pub proof fn lemma_inc_r_flags(r: Registers, sel: Reg8)
    ensures
        ({
            let v = inc_r(r, sel).spec_get8(sel);
            let f = inc_r(r, sel);
            &&& f.flag(Flag::S) == (v >= 0x80)
            &&& f.flag(Flag::Z) == (v == 0)
            &&& f.flag(Flag::F5) == bit_set(v, 5)
            &&& f.flag(Flag::F3) == bit_set(v, 3)
            &&& f.flag(Flag::H) == (v % 16 == 0)
            &&& f.flag(Flag::P) == (v == 0x80)
            &&& !f.flag(Flag::N)
            &&& f.flag(Flag::C) == r.flag(Flag::C)
        }),
{
    let v = ((r.spec_get8(sel) as int + 1) % 0x100) as u8;
    let r1 = r.with8(sel, v);
    let r2 = r1.with_sz53(v);
    let r3 = r2.with_flag(Flag::N, false);
    let r4 = r3.with_flag(Flag::P, v == 0x80);
    lemma_with_sz53(r1, v);
    lemma_with_flag(r2, Flag::N, false);
    lemma_with_flag(r3, Flag::P, v == 0x80);
    lemma_with_flag(r4, Flag::H, v % 16 == 0);
    lemma_inc_r_regs(r, sel);
}

/// The flags after `DEC r`, with `v` the new value of the register.
pub proof fn lemma_dec_r_flags(r: Registers, sel: Reg8)
    ensures
        ({
            let v = dec_r(r, sel).spec_get8(sel);
            let f = dec_r(r, sel);
            &&& f.flag(Flag::S) == (v >= 0x80)
            &&& f.flag(Flag::Z) == (v == 0)
            &&& f.flag(Flag::F5) == bit_set(v, 5)
            &&& f.flag(Flag::F3) == bit_set(v, 3)
            &&& f.flag(Flag::H) == (v % 16 == 0xF)
            &&& f.flag(Flag::P) == (v == 0x7F)
            &&& f.flag(Flag::N)
            &&& f.flag(Flag::C) == r.flag(Flag::C)
        }),
{
    let v = ((r.spec_get8(sel) as int + 0xFF) % 0x100) as u8;
    let r1 = r.with8(sel, v);
    let r2 = r1.with_sz53(v);
    let r3 = r2.with_flag(Flag::N, true);
    let r4 = r3.with_flag(Flag::P, v == 0x7F);
    lemma_with_sz53(r1, v);
    lemma_with_flag(r2, Flag::N, true);
    lemma_with_flag(r3, Flag::P, v == 0x7F);
    lemma_with_flag(r4, Flag::H, v % 16 == 0xF);
    lemma_dec_r_regs(r, sel);
}

} // verus!
