use vstd::prelude::*;

use crate::channels::{ByteInputSource, ByteOutputSink};
use crate::instructions::Instruction;
use crate::semantics::{dec_byte, inc_byte, run_loop, run_one, run_seq, RunOutcome, State};
use crate::tape::{Tape, TapeModel};

verus! {

/// Why a run stopped before completing. Cell arithmetic and tape growth
/// never fail; the only failures are an input source that runs dry and a
/// fuel bound that runs out.
#[derive(Debug, Clone, Copy, PartialEq, Eq)]
pub enum ExecError {
    /// A `Read` instruction needed a byte and the input source could not
    /// supply one. The run aborts; the cell is not defaulted to zero.
    InputExhausted,
    /// The fuel bound on loop iterations ran out before the run finished.
    OutOfFuel,
}

/// Execute `instructions` against a fresh tape, pulling bytes from `input`
/// and pushing bytes to `output`; the tape is discarded on return. The
/// result and the effect on both channels are exactly those of the
/// big-step semantics, run from a fresh tape with the same fuel.
pub fn execute(
    instructions: &Vec<Instruction>,
    input: &mut ByteInputSource,
    output: &mut ByteOutputSink,
    fuel: u64,
) -> (r: Result<(), ExecError>)
    requires
        old(input).wf(),
    ensures
        final(input).wf(),
        ({
            let o = run_seq(
                (State {
                    tape: TapeModel::fresh(),
                    input: old(input)@,
                    output: old(output)@,
                }),
                instructions@,
                fuel as nat,
            );
            &&& match r {
                Ok(_) => o is Done,
                Err(ExecError::InputExhausted) => o is InputExhausted,
                Err(ExecError::OutOfFuel) => o is OutOfFuel,
            }
            &&& o.state().input == final(input)@
            &&& o.state().output == final(output)@
        }),
{
    let mut tape = Tape::new();
    execute_with_tape(&mut tape, instructions, input, output, fuel)
}

/// Execute `instructions` against a caller-supplied, possibly
/// pre-populated tape, so that the caller can inspect the tape afterwards
/// or chain several executions against one tape. The result, the final
/// tape, and the effect on both channels are exactly those of the
/// big-step semantics run from the starting state with the same fuel.
pub fn execute_with_tape(
    tape: &mut Tape,
    instructions: &Vec<Instruction>,
    input: &mut ByteInputSource,
    output: &mut ByteOutputSink,
    fuel: u64,
) -> (r: Result<(), ExecError>)
    requires
        old(tape).wf(),
        old(input).wf(),
    ensures
        final(tape).wf(),
        final(input).wf(),
        ({
            let o = run_seq(
                (State { tape: old(tape)@, input: old(input)@, output: old(output)@ }),
                instructions@,
                fuel as nat,
            );
            let end = (State { tape: final(tape)@, input: final(input)@, output: final(output)@ });
            match r {
                Ok(_) => o == (RunOutcome::Done { s: end }),
                Err(ExecError::InputExhausted) => o == (RunOutcome::InputExhausted { s: end }),
                Err(ExecError::OutOfFuel) => o == (RunOutcome::OutOfFuel { s: end }),
            }
        }),
    decreases fuel, instructions@, 1int,
{
    let ghost s0 = State { tape: tape@, input: input@, output: output@ };
    let n = instructions.len();
    let mut idx: usize = 0;
    proof {
        assert(instructions@.subrange(0, instructions@.len() as int) =~= instructions@);
    }
    while idx < n
        invariant
            s0 == (State { tape: old(tape)@, input: old(input)@, output: old(output)@ }),
            n == instructions@.len(),
            idx <= n,
            tape.wf(),
            input.wf(),
            run_seq(s0, instructions@, fuel as nat) == run_seq(
                (State { tape: tape@, input: input@, output: output@ }),
                instructions@.subrange(idx as int, instructions@.len() as int),
                fuel as nat,
            ),
        decreases n - idx,
    {
        let ghost pre = State { tape: tape@, input: input@, output: output@ };
        let ghost rest = instructions@.subrange(idx as int, instructions@.len() as int);
        proof {
            assert(rest[0] == instructions@[idx as int]);
            assert(rest.subrange(1, rest.len() as int) =~= instructions@.subrange(
                idx as int + 1,
                instructions@.len() as int,
            ));
        }
        let instr = &instructions[idx];
        match instr {
            Instruction::Inc => {
                let v = tape.get();
                tape.set(v.wrapping_add(1));
                proof {
                    assert(v.wrapping_add(1) == inc_byte(v));
                }
            },
            Instruction::Dec => {
                let v = tape.get();
                tape.set(v.wrapping_sub(1));
                proof {
                    assert(v.wrapping_sub(1) == dec_byte(v));
                }
            },
            Instruction::Left => {
                tape.left();
            },
            Instruction::Right => {
                tape.right();
            },
            Instruction::Read => {
                match input.read_byte() {
                    Some(b) => {
                        tape.set(b);
                    },
                    None => {
                        proof {
                            assert(run_seq(s0, instructions@, fuel as nat) == (
                            RunOutcome::InputExhausted { s: pre }));
                        }
                        return Err(ExecError::InputExhausted);
                    },
                }
            },
            Instruction::Write => {
                let v = tape.get();
                output.write_byte(v);
            },
            Instruction::Loop(body) => {
                proof {
                    assert(decreases_to!(instructions@ => instructions@[idx as int]));
                    assert(decreases_to!(instructions@[idx as int] => body@));
                }
                match execute_loop(tape, body, input, output, fuel) {
                    Ok(_) => {
                        proof {
                            let post = State { tape: tape@, input: input@, output: output@ };
                            assert(run_one(pre, rest[0], fuel as nat) == (RunOutcome::Done {
                                s: post,
                            }));
                        }
                    },
                    Err(e) => {
                        proof {
                            let post = State { tape: tape@, input: input@, output: output@ };
                            assert(run_seq(pre, rest, fuel as nat) == run_one(
                                pre,
                                rest[0],
                                fuel as nat,
                            ));
                        }
                        return Err(e);
                    },
                }
            },
        }
        proof {
            let post = State { tape: tape@, input: input@, output: output@ };
            assert(run_seq(pre, rest, fuel as nat) == run_seq(
                post,
                instructions@.subrange(idx as int + 1, instructions@.len() as int),
                fuel as nat,
            ));
        }
        idx = idx + 1;
    }
    proof {
        assert(instructions@.subrange(n as int, instructions@.len() as int)
            =~= Seq::<Instruction>::empty());
    }
    Ok(())
}

/// Run one loop construct: while the cell at the cursor is non-zero, run
/// the whole body against the tape, re-checking the cell only after each
/// full pass. Each pass begun costs one unit of fuel.
fn execute_loop(
    tape: &mut Tape,
    body: &Vec<Instruction>,
    input: &mut ByteInputSource,
    output: &mut ByteOutputSink,
    fuel: u64,
) -> (r: Result<(), ExecError>)
    requires
        old(tape).wf(),
        old(input).wf(),
    ensures
        final(tape).wf(),
        final(input).wf(),
        ({
            let o = run_loop(
                (State { tape: old(tape)@, input: old(input)@, output: old(output)@ }),
                body@,
                fuel as nat,
            );
            let end = (State { tape: final(tape)@, input: final(input)@, output: final(output)@ });
            match r {
                Ok(_) => o == (RunOutcome::Done { s: end }),
                Err(ExecError::InputExhausted) => o == (RunOutcome::InputExhausted { s: end }),
                Err(ExecError::OutOfFuel) => o == (RunOutcome::OutOfFuel { s: end }),
            }
        }),
    decreases fuel, body@, 2int,
{
    let ghost s0 = State { tape: tape@, input: input@, output: output@ };
    let mut f = fuel;
    while tape.get() != 0
        invariant
            s0 == (State { tape: old(tape)@, input: old(input)@, output: old(output)@ }),
            tape.wf(),
            input.wf(),
            f <= fuel,
            run_loop(s0, body@, fuel as nat) == run_loop(
                (State { tape: tape@, input: input@, output: output@ }),
                body@,
                f as nat,
            ),
        decreases f,
    {
        let ghost pre = State { tape: tape@, input: input@, output: output@ };
        if f == 0 {
            proof {
                assert(run_loop(pre, body@, 0nat) == (RunOutcome::OutOfFuel { s: pre }));
            }
            return Err(ExecError::OutOfFuel);
        }
        match execute_with_tape(tape, body, input, output, f) {
            Ok(_) => {
                proof {
                    let post = State { tape: tape@, input: input@, output: output@ };
                    assert(run_loop(pre, body@, f as nat) == run_loop(
                        post,
                        body@,
                        (f - 1) as nat,
                    ));
                }
                f = f - 1;
            },
            Err(e) => {
                proof {
                    let post = State { tape: tape@, input: input@, output: output@ };
                    assert(run_loop(pre, body@, f as nat) == run_seq(pre, body@, f as nat));
                }
                return Err(e);
            },
        }
    }
    Ok(())
}

} // verus!
