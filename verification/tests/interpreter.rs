use brainfuck::channels::{ByteInputSource, ByteOutputSink};
use brainfuck::executor::{execute, execute_with_tape, ExecError};
use brainfuck::instructions::Instruction;
use brainfuck::tape::Tape;

const FUEL: u64 = 1_000_000;

fn run_fresh(program: &Vec<Instruction>, input: Vec<u8>) -> (Result<(), ExecError>, Vec<u8>) {
    let mut source = ByteInputSource::new(input);
    let mut sink = ByteOutputSink::new();
    let r = execute(program, &mut source, &mut sink, FUEL);
    (r, sink.into_bytes())
}

fn incs(n: usize) -> Vec<Instruction> {
    let mut v = Vec::new();
    for _ in 0..n {
        v.push(Instruction::Inc);
    }
    v
}

fn decs(n: usize) -> Vec<Instruction> {
    let mut v = Vec::new();
    for _ in 0..n {
        v.push(Instruction::Dec);
    }
    v
}

#[test]
fn increment_wraps_255_to_0() {
    let mut tape = Tape::new();
    tape.set(255);
    let mut source = ByteInputSource::new(Vec::new());
    let mut sink = ByteOutputSink::new();
    let r = execute_with_tape(&mut tape, &vec![Instruction::Inc], &mut source, &mut sink, FUEL);
    assert_eq!(r, Ok(()));
    assert_eq!(tape.get(), 0);
}

#[test]
fn decrement_wraps_0_to_255() {
    let mut tape = Tape::new();
    let mut source = ByteInputSource::new(Vec::new());
    let mut sink = ByteOutputSink::new();
    let r = execute_with_tape(&mut tape, &vec![Instruction::Dec], &mut source, &mut sink, FUEL);
    assert_eq!(r, Ok(()));
    assert_eq!(tape.get(), 255);
}

#[test]
fn incrementing_256_times_returns_cell_value() {
    let mut tape = Tape::new();
    tape.set(123);
    let mut source = ByteInputSource::new(Vec::new());
    let mut sink = ByteOutputSink::new();
    let r = execute_with_tape(&mut tape, &incs(256), &mut source, &mut sink, FUEL);
    assert_eq!(r, Ok(()));
    assert_eq!(tape.get(), 123);
}

#[test]
fn decrementing_256_times_returns_cell_value() {
    let mut tape = Tape::new();
    tape.set(200);
    let mut source = ByteInputSource::new(Vec::new());
    let mut sink = ByteOutputSink::new();
    let r = execute_with_tape(&mut tape, &decs(256), &mut source, &mut sink, FUEL);
    assert_eq!(r, Ok(()));
    assert_eq!(tape.get(), 200);
}

#[test]
fn right_growth_is_lazy_and_minimal() {
    let mut tape = Tape::new();
    assert_eq!(tape.len(), 1);
    let program = vec![
        Instruction::Right,
        Instruction::Right,
        Instruction::Right,
        Instruction::Right,
        Instruction::Right,
    ];
    let mut source = ByteInputSource::new(Vec::new());
    let mut sink = ByteOutputSink::new();
    let r = execute_with_tape(&mut tape, &program, &mut source, &mut sink, FUEL);
    assert_eq!(r, Ok(()));
    assert_eq!(tape.len(), 6);
    assert_eq!(tape.position(), 5);
    assert_eq!(tape.get(), 0);
}

#[test]
fn left_growth_preserves_logical_addressing() {
    let mut tape = Tape::new();
    tape.set(7);
    tape.left();
    assert_eq!(tape.len(), 2);
    assert_eq!(tape.position(), 0);
    assert_eq!(tape.get(), 0);
    tape.right();
    assert_eq!(tape.get(), 7);
    assert_eq!(tape.len(), 2);
}

#[test]
fn left_from_fresh_tape_grows_to_two_cells() {
    let mut tape = Tape::new();
    tape.left();
    assert_eq!(tape.len(), 2);
    assert_eq!(tape.position(), 0);
    assert_eq!(tape.get(), 0);
}

#[test]
fn loop_runs_body_once_per_cell_unit() {
    // A starting cell of 3 with body `Dec` makes exactly 3 passes: fuel
    // for 3 loop entries completes, fuel for 2 does not.
    let program = vec![Instruction::Loop(vec![Instruction::Dec])];
    let mut tape = Tape::new();
    tape.set(3);
    let mut source = ByteInputSource::new(Vec::new());
    let mut sink = ByteOutputSink::new();
    let r = execute_with_tape(&mut tape, &program, &mut source, &mut sink, 3);
    assert_eq!(r, Ok(()));
    assert_eq!(tape.get(), 0);

    let program = vec![Instruction::Loop(vec![Instruction::Dec])];
    let mut tape = Tape::new();
    tape.set(3);
    let mut source = ByteInputSource::new(Vec::new());
    let mut sink = ByteOutputSink::new();
    let r = execute_with_tape(&mut tape, &program, &mut source, &mut sink, 2);
    assert_eq!(r, Err(ExecError::OutOfFuel));
}

#[test]
fn loop_with_zero_cell_never_runs_body() {
    let program = vec![Instruction::Loop(vec![Instruction::Inc, Instruction::Write])];
    let mut tape = Tape::new();
    let mut source = ByteInputSource::new(Vec::new());
    let mut sink = ByteOutputSink::new();
    let r = execute_with_tape(&mut tape, &program, &mut source, &mut sink, 0);
    assert_eq!(r, Ok(()));
    assert_eq!(tape.get(), 0);
    assert_eq!(sink.into_bytes(), Vec::<u8>::new());
}

#[test]
fn echo_round_trip() {
    let program = vec![Instruction::Read, Instruction::Write];
    let (r, out) = run_fresh(&program, vec![65]);
    assert_eq!(r, Ok(()));
    assert_eq!(out, vec![65]);
}

#[test]
fn classic_loop_program_outputs_32() {
    // 8 increments on cell 0, then while cell 0 is non-zero: move right,
    // add 4, move left, subtract 1; finally move right and write. The
    // right cell ends at 8 * 4 = 32.
    let mut program = incs(8);
    program.push(Instruction::Loop(vec![
        Instruction::Right,
        Instruction::Inc,
        Instruction::Inc,
        Instruction::Inc,
        Instruction::Inc,
        Instruction::Left,
        Instruction::Dec,
    ]));
    program.push(Instruction::Right);
    program.push(Instruction::Write);
    let (r, out) = run_fresh(&program, Vec::new());
    assert_eq!(r, Ok(()));
    assert_eq!(out, vec![32]);
}

#[test]
fn read_against_empty_input_is_input_exhausted() {
    let program = vec![Instruction::Read];
    let (r, out) = run_fresh(&program, Vec::new());
    assert_eq!(r, Err(ExecError::InputExhausted));
    assert_eq!(out, Vec::<u8>::new());
}

#[test]
fn read_failure_aborts_before_later_output() {
    let program = vec![Instruction::Write, Instruction::Read, Instruction::Write];
    let (r, out) = run_fresh(&program, Vec::new());
    assert_eq!(r, Err(ExecError::InputExhausted));
    assert_eq!(out, vec![0]);
}

#[test]
fn endless_loop_runs_out_of_fuel() {
    let program = vec![Instruction::Inc, Instruction::Loop(Vec::new())];
    let (r, out) = run_fresh(&program, Vec::new());
    assert_eq!(r, Err(ExecError::OutOfFuel));
    assert_eq!(out, Vec::<u8>::new());
}

#[test]
fn execute_starts_from_fresh_tape() {
    let program = vec![Instruction::Write];
    let (r, out) = run_fresh(&program, Vec::new());
    assert_eq!(r, Ok(()));
    assert_eq!(out, vec![0]);
}

#[test]
fn executions_chain_on_a_shared_tape() {
    let mut tape = Tape::new();
    let mut source = ByteInputSource::new(Vec::new());
    let mut sink = ByteOutputSink::new();
    let program = vec![Instruction::Inc];
    assert_eq!(execute_with_tape(&mut tape, &program, &mut source, &mut sink, FUEL), Ok(()));
    assert_eq!(execute_with_tape(&mut tape, &program, &mut source, &mut sink, FUEL), Ok(()));
    assert_eq!(tape.get(), 2);
}

#[test]
fn read_consumes_exactly_one_byte() {
    let program = vec![Instruction::Read];
    let mut tape = Tape::new();
    let mut source = ByteInputSource::new(vec![7, 9]);
    let mut sink = ByteOutputSink::new();
    let r = execute_with_tape(&mut tape, &program, &mut source, &mut sink, FUEL);
    assert_eq!(r, Ok(()));
    assert_eq!(tape.get(), 7);
    assert_eq!(source.read_byte(), Some(9));
    assert_eq!(source.read_byte(), None);
}

#[test]
fn input_source_yields_bytes_in_order_then_signals_exhaustion() {
    let mut source = ByteInputSource::new(vec![1, 2]);
    assert_eq!(source.read_byte(), Some(1));
    assert_eq!(source.read_byte(), Some(2));
    assert_eq!(source.read_byte(), None);
    assert_eq!(source.read_byte(), None);
}

#[test]
fn output_sink_keeps_bytes_in_order() {
    let mut sink = ByteOutputSink::new();
    sink.write_byte(9);
    sink.write_byte(8);
    assert_eq!(sink.into_bytes(), vec![9, 8]);
}

#[test]
fn tape_accessors_on_fresh_tape() {
    let mut tape = Tape::new();
    assert_eq!(tape.get(), 0);
    assert_eq!(tape.len(), 1);
    assert_eq!(tape.position(), 0);
    tape.set(42);
    assert_eq!(tape.get(), 42);
    assert_eq!(tape.len(), 1);
}
