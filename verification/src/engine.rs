//! The execution engine: registers, the fetch-decode-execute cycle, and the
//! run loop.
//!
//! The engine owns the 256-byte memory and five registers. The instruction
//! pointer is compound: `ipl` addresses the memory byte holding the current
//! packed group, `iph` selects one of its four instructions. The return
//! pointer `rpl`/`rph` is a single slot recording the position right after
//! the most recently executed `LoopOpen`; a new `LoopOpen` overwrites it
//! unconditionally, so nested loops share the one slot.
//!
//! A group is fetched when its byte is entered — on start, on carrying into
//! the next byte, and on a taken `LoopClose` jump — and the four decoded
//! instructions are then consumed without refetching. An `Increment` that
//! hits the byte under execution (program and data share the one address
//! space) therefore takes effect only from the next fetch on.
//!
//! Two wraparound policies are fixed here: an `Increment` of a cell holding
//! 255 yields 0, and a `ShiftRight` at the last cell wraps the data pointer
//! to 0, matching the 8-bit address space. Termination is address-space
//! exhaustion: the run halts when `ipl` reaches 256. A backward jump can keep
//! the engine running forever; that is an accepted non-terminating program,
//! not an engine fault, and `run_steps` bounds a run for such programs.

use vstd::prelude::*;

use crate::instruction::{decode_spec, Instruction};

verus! {

/// The engine's state as mathematics: the memory image, the five registers,
/// and the byte from which the current instruction group was fetched.
#[verifier::ext_equal]
pub ghost struct State {
    /// The 256 shared program/data cells.
    pub mem: Seq<u8>,
    /// Data pointer: the cell `Increment` operates on.
    pub dp: nat,
    /// Instruction pointer, low part: the current memory byte address.
    pub ipl: nat,
    /// Instruction pointer, high part: which of the byte's 4 instructions is current.
    pub iph: nat,
    /// Return pointer, low part.
    pub rpl: nat,
    /// Return pointer, high part.
    pub rph: nat,
    /// The byte fetched when the current group was entered; stale against
    /// `mem[ipl]` after a self-modifying `Increment`, until the next fetch.
    pub cur: u8,
}

/// The registers a state can hold: memory is exactly 256 cells, the data
/// pointer addresses one of them, both sub-indices are below 4, and the byte
/// addresses are at most 256 (the value 256 in `ipl` means the run has
/// halted; in `rpl` it makes a later jump halt).
pub open spec fn state_wf(s: State) -> bool {
    &&& s.mem.len() == 256
    &&& s.dp < 256
    &&& s.ipl <= 256
    &&& s.iph < 4
    &&& s.rpl <= 256
    &&& s.rph < 4
}

/// Whether the run has terminated: the instruction pointer has run off the
/// end of the address space.
pub open spec fn halted(s: State) -> bool {
    s.ipl == 256
}

/// The initial state over a memory image: all five registers 0 and the first
/// group fetched from byte 0.
pub open spec fn init_spec(mem: Seq<u8>) -> State {
    State { mem, dp: 0, ipl: 0, iph: 0, rpl: 0, rph: 0, cur: mem[0] }
}

/// A state advanced to the next instruction position: the sub-index steps
/// through the group, and carries into the next byte, whose group is fetched
/// unless the carry halts the run.
pub open spec fn advance_spec(s: State) -> State {
    if s.iph == 3 {
        State {
            iph: 0,
            ipl: s.ipl + 1,
            cur: if s.ipl + 1 < 256 {
                s.mem[s.ipl as int + 1]
            } else {
                s.cur
            },
            ..s
        }
    } else {
        State { iph: s.iph + 1, ..s }
    }
}

/// One fetch-decode-execute cycle on a running state.
///
/// The current instruction is the `iph`-th of the fetched group. `LoopOpen`
/// records the position right after itself in the single return slot.
/// `LoopClose` jumps back to the recorded position when the cell at the data
/// pointer is nonzero (refetching the group there, and skipping the normal
/// advance), and falls through when it is zero. `Increment` adds 1 to the
/// cell at the data pointer, wrapping 255 to 0. `ShiftRight` advances the
/// data pointer, wrapping the last cell to 0.
pub open spec fn step_spec(s: State) -> State {
    let inst = decode_spec(s.cur)[s.iph as int];
    match inst {
        Instruction::LoopOpen => {
            let after = if s.iph == 3 {
                State { rpl: s.ipl + 1, rph: 0, ..s }
            } else {
                State { rpl: s.ipl, rph: s.iph + 1, ..s }
            };
            advance_spec(after)
        },
        Instruction::LoopClose => {
            if s.mem[s.dp as int] != 0 {
                State {
                    ipl: s.rpl,
                    iph: s.rph,
                    cur: if s.rpl < 256 {
                        s.mem[s.rpl as int]
                    } else {
                        s.cur
                    },
                    ..s
                }
            } else {
                advance_spec(s)
            }
        },
        Instruction::Increment => {
            let v = s.mem[s.dp as int];
            let w: u8 = if v == 255 {
                0
            } else {
                (v + 1) as u8
            };
            advance_spec(State { mem: s.mem.update(s.dp as int, w), ..s })
        },
        Instruction::ShiftRight => {
            let d = if s.dp == 255 {
                0nat
            } else {
                s.dp + 1
            };
            advance_spec(State { dp: d, ..s })
        },
    }
}

/// The state after at most `n` cycles: stepping stops early once the run
/// halts, so a halted state absorbs all further steps.
pub open spec fn run_spec(s: State, n: nat) -> State
    decreases n,
{
    if n == 0 || halted(s) {
        s
    } else {
        run_spec(step_spec(s), (n - 1) as nat)
    }
}

/// Unrolling a bounded run from the far end: one more cycle is one more step
/// on the result, unless the run has already halted, which absorbs it.
pub proof fn lemma_run_unfold(s: State, n: nat)
    ensures
        !halted(run_spec(s, n)) ==> run_spec(s, n + 1) == step_spec(run_spec(s, n)),
        halted(run_spec(s, n)) ==> run_spec(s, n + 1) == run_spec(s, n),
    decreases n,
{
    if halted(s) {
        assert(run_spec(s, n) == s);
        assert(run_spec(s, n + 1) == s);
    } else if n == 0 {
        assert(run_spec(s, 1) == run_spec(step_spec(s), 0));
        assert(run_spec(step_spec(s), 0) == step_spec(s));
    } else {
        lemma_run_unfold(step_spec(s), (n - 1) as nat);
        assert(run_spec(s, n) == run_spec(step_spec(s), (n - 1) as nat));
        assert(run_spec(s, n + 1) == run_spec(step_spec(s), n));
    }
}

/// Once a bounded run has halted, running longer changes nothing.
pub proof fn lemma_run_absorb(s: State, k: nat, m: nat)
    requires
        k <= m,
        halted(run_spec(s, k)),
    ensures
        run_spec(s, m) == run_spec(s, k),
    decreases k,
{
    if k > 0 && !halted(s) {
        lemma_run_absorb(step_spec(s), (k - 1) as nat, (m - 1) as nat);
    }
}

/// An `Increment` on a cell holding 255 wraps it to 0; it is not an error,
/// and no other cell changes.
pub proof fn lemma_increment_wraps(s: State)
    requires
        state_wf(s),
        !halted(s),
        decode_spec(s.cur)[s.iph as int] == Instruction::Increment,
        s.mem[s.dp as int] == 255,
    ensures
        step_spec(s).mem[s.dp as int] == 0,
        forall|i: int| 0 <= i < 256 && i != s.dp ==> step_spec(s).mem[i] == s.mem[i],
{
}

/// The execution engine: the 256-byte shared program/data memory and the
/// five registers, stepped by the fetch-decode-execute cycle.
pub struct Machine {
    /// The 256 shared program/data cells.
    pub mem: Vec<u8>,
    /// Data pointer.
    pub dp: usize,
    /// Instruction pointer, low part (memory byte address).
    pub ipl: usize,
    /// Instruction pointer, high part (index into the packed group).
    pub iph: usize,
    /// Return pointer, low part.
    pub rpl: usize,
    /// Return pointer, high part.
    pub rph: usize,
    /// The byte from which the current group was fetched.
    pub cur: u8,
}

impl View for Machine {
    type V = State;

    open spec fn view(&self) -> State {
        State {
            mem: self.mem@,
            dp: self.dp as nat,
            ipl: self.ipl as nat,
            iph: self.iph as nat,
            rpl: self.rpl as nat,
            rph: self.rph as nat,
            cur: self.cur,
        }
    }
}

impl Machine {
    /// A machine at program start over a loaded memory image: all five
    /// registers 0, the first group fetched from byte 0.
    pub fn new(mem: Vec<u8>) -> (m: Machine)
        requires
            mem@.len() == 256,
        ensures
            m@ == init_spec(mem@),
            state_wf(m@),
    {
        let cur = mem[0];
        let m = Machine { mem, dp: 0, ipl: 0, iph: 0, rpl: 0, rph: 0, cur };
        proof {
            assert(m@ =~= init_spec(m.mem@));
        }
        m
    }

    /// Whether the run has terminated: `ipl` has run off the address space.
    pub fn halted(&self) -> (r: bool)
        ensures
            r == halted(self@),
    {
        self.ipl == 256
    }

    /// The instruction about to execute: the `iph`-th of the fetched group.
    pub fn current_instruction(&self) -> (r: Instruction)
        requires
            state_wf(self@),
            !halted(self@),
        ensures
            r == decode_spec(self@.cur)[self@.iph as int],
    {
        let group = Instruction::from_byte(self.cur);
        group[self.iph]
    }

    /// Executes one fetch-decode-execute cycle.
    pub fn step(&mut self)
        requires
            state_wf(old(self)@),
            !halted(old(self)@),
        ensures
            final(self)@ == step_spec(old(self)@),
            state_wf(final(self)@),
    {
        let group = Instruction::from_byte(self.cur);
        let inst = group[self.iph];
        match inst {
            Instruction::LoopOpen => {
                if self.iph == 3 {
                    self.rpl = self.ipl + 1;
                    self.rph = 0;
                } else {
                    self.rpl = self.ipl;
                    self.rph = self.iph + 1;
                }
            },
            Instruction::LoopClose => {
                if self.mem[self.dp] != 0 {
                    self.ipl = self.rpl;
                    self.iph = self.rph;
                    if self.ipl < 256 {
                        self.cur = self.mem[self.ipl];
                    }
                    proof {
                        assert(self@ =~= step_spec(old(self)@));
                    }
                    return ;
                }
            },
            Instruction::Increment => {
                let v = self.mem[self.dp];
                let w = if v == 255 {
                    0
                } else {
                    v + 1
                };
                self.mem.set(self.dp, w);
            },
            Instruction::ShiftRight => {
                self.dp = if self.dp == 255 {
                    0
                } else {
                    self.dp + 1
                };
            },
        }
        if self.iph == 3 {
            self.iph = 0;
            self.ipl = self.ipl + 1;
            if self.ipl < 256 {
                self.cur = self.mem[self.ipl];
            }
        } else {
            self.iph = self.iph + 1;
        }
        proof {
            assert(self@ =~= step_spec(old(self)@));
        }
    }

    /// Runs at most `max_steps` cycles, stopping early when the run halts.
    /// Returns whether it halted. For a program that never terminates this
    /// is the bounded run a harness can observe without an engine-side cap.
    #[verifier::loop_isolation(false)]
    pub fn run_steps(&mut self, max_steps: usize) -> (done: bool)
        requires
            state_wf(old(self)@),
        ensures
            final(self)@ == run_spec(old(self)@, max_steps as nat),
            state_wf(final(self)@),
            done == halted(final(self)@),
    {
        let ghost s0 = self@;
        let mut k: usize = 0;
        while k < max_steps
            invariant
                k <= max_steps,
                state_wf(self@),
                self@ == run_spec(s0, k as nat),
            decreases max_steps - k,
        {
            if self.ipl == 256 {
                proof {
                    lemma_run_absorb(s0, k as nat, max_steps as nat);
                }
                return true;
            }
            proof {
                lemma_run_unfold(s0, k as nat);
            }
            self.step();
            k = k + 1;
        }
        self.ipl == 256
    }
}

} // verus!
