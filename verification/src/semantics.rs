use vstd::prelude::*;

use crate::instructions::Instruction;
use crate::tape::TapeModel;

verus! {

/// The whole state a program can observe or change: the tape, the bytes
/// still unread from the input source, and the bytes written to the output
/// sink so far.
#[verifier::ext_equal]
pub ghost struct State {
    pub tape: TapeModel,
    pub input: Seq<u8>,
    pub output: Seq<u8>,
}

impl State {
    /// A state is well formed when its tape is.
    pub open spec fn wf(self) -> bool {
        self.tape.wf()
    }
}

/// The outcome of running instructions from a state, always carrying the
/// state reached.
///
/// `Done` means the instructions ran to completion. `InputExhausted` means
/// a `Read` needed a byte the input source could not supply; the run stops
/// there. `OutOfFuel` means the fuel bound on loop iterations ran out
/// before the run could finish; only loop re-entry consumes fuel, so a
/// program without loops never returns it.
#[verifier::ext_equal]
pub ghost enum RunOutcome {
    Done { s: State },
    InputExhausted { s: State },
    OutOfFuel { s: State },
}

impl RunOutcome {
    /// The state the run reached, whatever the outcome.
    pub open spec fn state(self) -> State {
        match self {
            RunOutcome::Done { s } => s,
            RunOutcome::InputExhausted { s } => s,
            RunOutcome::OutOfFuel { s } => s,
        }
    }
}

/// Adding one to a cell, wrapping 255 back to 0: arithmetic modulo 256.
pub open spec fn inc_byte(v: u8) -> u8 {
    if v == 255 {
        0
    } else {
        (v + 1) as u8
    }
}

/// Subtracting one from a cell, wrapping 0 back to 255: arithmetic modulo
/// 256.
pub open spec fn dec_byte(v: u8) -> u8 {
    if v == 0 {
        255
    } else {
        (v - 1) as u8
    }
}

/// Run a sequence of instructions from `s`, in order, stopping at the
/// first instruction that does not complete.
pub open spec fn run_seq(s: State, instrs: Seq<Instruction>, fuel: nat) -> RunOutcome
    decreases fuel, instrs, 1int,
{
    if instrs.len() == 0 {
        RunOutcome::Done { s }
    } else {
        match run_one(s, instrs[0], fuel) {
            RunOutcome::Done { s: s2 } => run_seq(
                s2,
                instrs.subrange(1, instrs.len() as int),
                fuel,
            ),
            o => o,
        }
    }
}

/// Run a single instruction from `s`.
pub open spec fn run_one(s: State, i: Instruction, fuel: nat) -> RunOutcome
    decreases fuel, i, 0int,
{
    match i {
        Instruction::Inc => RunOutcome::Done {
            s: State { tape: s.tape.write(inc_byte(s.tape.read())), ..s },
        },
        Instruction::Dec => RunOutcome::Done {
            s: State { tape: s.tape.write(dec_byte(s.tape.read())), ..s },
        },
        Instruction::Left => RunOutcome::Done { s: State { tape: s.tape.move_left(), ..s } },
        Instruction::Right => RunOutcome::Done { s: State { tape: s.tape.move_right(), ..s } },
        Instruction::Read => if s.input.len() == 0 {
            RunOutcome::InputExhausted { s }
        } else {
            RunOutcome::Done {
                s: State {
                    tape: s.tape.write(s.input[0]),
                    input: s.input.subrange(1, s.input.len() as int),
                    ..s
                },
            }
        },
        Instruction::Write => RunOutcome::Done {
            s: State { output: s.output.push(s.tape.read()), ..s },
        },
        Instruction::Loop(body) => run_loop(s, body@, fuel),
    }
}

/// Run a loop with the given body from `s`: while the cell at the cursor
/// is non-zero, run the whole body, and only then look at the cell again.
/// The loop exits the instant a full pass leaves that cell at zero; it
/// never starts a partial extra pass. Each re-entry into the body costs
/// one unit of fuel.
pub open spec fn run_loop(s: State, body: Seq<Instruction>, fuel: nat) -> RunOutcome
    decreases fuel, body, 2int,
{
    if s.tape.read() == 0 {
        RunOutcome::Done { s }
    } else if fuel == 0 {
        RunOutcome::OutOfFuel { s }
    } else {
        match run_seq(s, body, fuel) {
            RunOutcome::Done { s: s2 } => run_loop(s2, body, (fuel - 1) as nat),
            o => o,
        }
    }
}

} // verus!
