//! The CPU state handed to every opcode execution.

use vstd::prelude::*;
use crate::registers::Registers;

verus! {

/// The register file and the count of cycles spent so far.
#[derive(Clone, Copy, Debug, PartialEq, Eq, Structural)]
pub struct State {
    pub reg: Registers,
    pub cycles: u64,
}

impl State {
    /// A fresh CPU: registers and flags cleared, no cycles spent.
    pub fn new() -> (s: State)
        ensures
            s.reg == (Registers { a: 0, b: 0, c: 0, d: 0, e: 0, h: 0, l: 0, f: 0 }),
            s.cycles == 0,
    {
        State { reg: Registers::new(), cycles: 0 }
    }
}

} // verus!
