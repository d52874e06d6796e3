use vstd::prelude::*;

verus! {

/// A place where execution pauses for the debugger.
#[derive(PartialEq, Eq, Structural, Clone, Copy, Debug)]
pub enum Breakpoint {
    /// Before the instruction at this address.
    Pc(u16),
    /// Before any instruction with this opcode.
    Instruction(u8),
}

/// Breakpoint bookkeeping between instructions: the host records the PC and
/// the opcode about to run, and asks whether to pause.
pub struct Debugger {
    pub breakpoints: Vec<Breakpoint>,
    pub instruction: u8,
    pub pc: u16,
    /// Pause before the next instruction whatever the breakpoints say.
    pub step: bool,
}

impl Debugger {
    /// Whether a breakpoint matches the recorded PC or opcode.
    pub open spec fn hits(&self) -> bool {
        exists|i: int|
            0 <= i < self.breakpoints@.len() && (#[trigger] self.breakpoints@[i] == Breakpoint::Pc(self.pc)
                || self.breakpoints@[i] == Breakpoint::Instruction(self.instruction))
    }

    pub fn new() -> (r: Debugger)
        ensures
            r.breakpoints@.len() == 0,
            r.instruction == 0 && r.pc == 0 && !r.step,
    {
        Debugger { breakpoints: Vec::new(), instruction: 0, pc: 0, step: false }
    }

    pub fn set_pc(&mut self, pc: u16)
        ensures
            final(self).pc == pc,
            final(self).breakpoints@ == old(self).breakpoints@,
            final(self).instruction == old(self).instruction,
            final(self).step == old(self).step,
    {
        self.pc = pc;
    }

    pub fn add_pc_break(&mut self, pc: u16)
        ensures
            final(self).breakpoints@ == old(self).breakpoints@.push(Breakpoint::Pc(pc)),
            final(self).pc == old(self).pc,
            final(self).instruction == old(self).instruction,
            final(self).step == old(self).step,
    {
        self.breakpoints.push(Breakpoint::Pc(pc));
    }

    pub fn add_instr_break(&mut self, instruction: u8)
        ensures
            final(self).breakpoints@ == old(self).breakpoints@.push(Breakpoint::Instruction(instruction)),
            final(self).pc == old(self).pc,
            final(self).instruction == old(self).instruction,
            final(self).step == old(self).step,
    {
        self.breakpoints.push(Breakpoint::Instruction(instruction));
    }

    /// Removes breakpoint `index`; returns false, changing nothing, when
    /// there is no such breakpoint.
    pub fn delete_break(&mut self, index: usize) -> (r: bool)
        ensures
            r == (index < old(self).breakpoints@.len()),
            r ==> final(self).breakpoints@ == old(self).breakpoints@.remove(index as int),
            !r ==> final(self).breakpoints@ == old(self).breakpoints@,
            final(self).pc == old(self).pc,
            final(self).instruction == old(self).instruction,
            final(self).step == old(self).step,
    {
        if index < self.breakpoints.len() {
            self.breakpoints.remove(index);
            true
        } else {
            false
        }
    }

    pub fn set_instruction(&mut self, instruction: u8)
        ensures
            final(self).instruction == instruction,
            final(self).breakpoints@ == old(self).breakpoints@,
            final(self).pc == old(self).pc,
            final(self).step == old(self).step,
    {
        self.instruction = instruction;
    }

    /// Asks for a pause before the next instruction.
    pub fn request_step(&mut self)
        ensures
            final(self).step,
            final(self).breakpoints@ == old(self).breakpoints@,
            final(self).pc == old(self).pc,
            final(self).instruction == old(self).instruction,
    {
        self.step = true;
    }

    /// Whether to pause before the recorded instruction: a breakpoint hits
    /// or a single step was requested. A pending step request is used up.
    pub fn debug(&mut self) -> (r: bool)
        ensures
            r == (old(self).hits() || old(self).step),
            !final(self).step,
            final(self).breakpoints@ == old(self).breakpoints@,
            final(self).pc == old(self).pc,
            final(self).instruction == old(self).instruction,
    {
        let mut found = false;
        let mut i: usize = 0;
        while i < self.breakpoints.len()
            invariant
                i <= self.breakpoints@.len(),
                found == exists|j: int|
                    0 <= j < i && (#[trigger] self.breakpoints@[j] == Breakpoint::Pc(self.pc)
                        || self.breakpoints@[j] == Breakpoint::Instruction(self.instruction)),
            decreases self.breakpoints@.len() - i,
        {
            let b = self.breakpoints[i];
            if b == Breakpoint::Pc(self.pc) || b == Breakpoint::Instruction(self.instruction) {
                found = true;
            }
            i = i + 1;
        }
        let r = found || self.step;
        self.step = false;
        r
    }
}

} // verus!
