use vstd::arithmetic::div_mod::{lemma_mod_add_multiples_vanish, lemma_mod_bound};
use vstd::prelude::*;

use crate::instructions::Instruction;
use crate::semantics::{dec_byte, inc_byte, run_loop, run_one, run_seq, RunOutcome, State};
use crate::tape::TapeModel;

verus! {

/// The program made of `n` copies of one instruction.
pub open spec fn repeated(i: Instruction, n: nat) -> Seq<Instruction> {
    Seq::new(n, |k: int| i)
}

/// The cell value after incrementing `v` a total of `n` times.
pub open spec fn iter_inc(v: u8, n: nat) -> u8
    decreases n,
{
    if n == 0 {
        v
    } else {
        iter_inc(inc_byte(v), (n - 1) as nat)
    }
}

/// The cell value after decrementing `v` a total of `n` times.
pub open spec fn iter_dec(v: u8, n: nat) -> u8
    decreases n,
{
    if n == 0 {
        v
    } else {
        iter_dec(dec_byte(v), (n - 1) as nat)
    }
}

/// Repeated increments are addition modulo 256.
pub proof fn lemma_iter_inc_mod(v: u8, n: nat)
    ensures
        iter_inc(v, n) == ((v + n) % 256) as u8,
    decreases n,
{
    lemma_mod_bound(v + n, 256);
    if n == 0 {
        vstd::arithmetic::div_mod::lemma_small_mod(v as nat, 256);
    } else {
        lemma_iter_inc_mod(inc_byte(v), (n - 1) as nat);
        if v == 255 {
            lemma_mod_add_multiples_vanish(n - 1, 256);
            lemma_mod_bound(n - 1, 256);
        }
    }
}

/// Repeated decrements are subtraction modulo 256.
pub proof fn lemma_iter_dec_mod(v: u8, n: nat)
    ensures
        iter_dec(v, n) == ((v - n) % 256) as u8,
    decreases n,
{
    lemma_mod_bound(v - n, 256);
    if n == 0 {
        vstd::arithmetic::div_mod::lemma_small_mod(v as nat, 256);
    } else {
        lemma_iter_dec_mod(dec_byte(v), (n - 1) as nat);
        if v == 0 {
            lemma_mod_add_multiples_vanish(0 - n, 256);
            lemma_mod_bound(0 - n, 256);
        }
    }
}

/// Running `n` increments changes nothing but the cell at the cursor,
/// which becomes the `n`-fold increment of its old value.
pub proof fn lemma_run_incs(s: State, n: nat, fuel: nat)
    requires
        s.wf(),
    ensures
        ({
            let o = run_seq(s, repeated(Instruction::Inc, n), fuel);
            &&& o is Done
            &&& o.state().tape.cells == s.tape.cells.update(
                s.tape.cursor,
                iter_inc(s.tape.read(), n),
            )
            &&& o.state().tape.cursor == s.tape.cursor
            &&& o.state().input == s.input
            &&& o.state().output == s.output
        }),
    decreases n,
{
    if n == 0 {
        assert(s.tape.cells.update(s.tape.cursor, s.tape.read()) =~= s.tape.cells);
    } else {
        let s1 = State { tape: s.tape.write(inc_byte(s.tape.read())), ..s };
        assert(run_one(s, Instruction::Inc, fuel) == (RunOutcome::Done { s: s1 }));
        assert(repeated(Instruction::Inc, n).subrange(1, n as int) =~= repeated(
            Instruction::Inc,
            (n - 1) as nat,
        ));
        lemma_run_incs(s1, (n - 1) as nat, fuel);
        assert(s1.tape.cells.update(s1.tape.cursor, iter_inc(s1.tape.read(), (n - 1) as nat))
            =~= s.tape.cells.update(s.tape.cursor, iter_inc(s.tape.read(), n)));
    }
}

/// Running `n` decrements changes nothing but the cell at the cursor,
/// which becomes the `n`-fold decrement of its old value.
pub proof fn lemma_run_decs(s: State, n: nat, fuel: nat)
    requires
        s.wf(),
    ensures
        ({
            let o = run_seq(s, repeated(Instruction::Dec, n), fuel);
            &&& o is Done
            &&& o.state().tape.cells == s.tape.cells.update(
                s.tape.cursor,
                iter_dec(s.tape.read(), n),
            )
            &&& o.state().tape.cursor == s.tape.cursor
            &&& o.state().input == s.input
            &&& o.state().output == s.output
        }),
    decreases n,
{
    if n == 0 {
        assert(s.tape.cells.update(s.tape.cursor, s.tape.read()) =~= s.tape.cells);
    } else {
        let s1 = State { tape: s.tape.write(dec_byte(s.tape.read())), ..s };
        assert(run_one(s, Instruction::Dec, fuel) == (RunOutcome::Done { s: s1 }));
        assert(repeated(Instruction::Dec, n).subrange(1, n as int) =~= repeated(
            Instruction::Dec,
            (n - 1) as nat,
        ));
        lemma_run_decs(s1, (n - 1) as nat, fuel);
        assert(s1.tape.cells.update(s1.tape.cursor, iter_dec(s1.tape.read(), (n - 1) as nat))
            =~= s.tape.cells.update(s.tape.cursor, iter_dec(s.tape.read(), n)));
    }
}

/// Cell wraparound: from any state, running 256 increments returns the
/// state — every cell value included — to exactly what it was; so does
/// running 256 decrements. In particular 255 wraps forward to 0 and 0
/// wraps back to 255.
pub proof fn lemma_cell_wraparound(s: State, fuel: nat)
    requires
        s.wf(),
    ensures
        run_seq(s, repeated(Instruction::Inc, 256), fuel) == (RunOutcome::Done { s }),
        run_seq(s, repeated(Instruction::Dec, 256), fuel) == (RunOutcome::Done { s }),
{
    let v = s.tape.read();
    lemma_iter_inc_mod(v, 256);
    lemma_mod_add_multiples_vanish(v as int, 256);
    vstd::arithmetic::div_mod::lemma_small_mod(v as nat, 256);
    lemma_run_incs(s, 256, fuel);
    let oi = run_seq(s, repeated(Instruction::Inc, 256), fuel);
    assert(oi.state().tape.cells =~= s.tape.cells);
    assert(oi.state().tape =~= s.tape);
    assert(oi.state() =~= s);

    lemma_iter_dec_mod(v, 256);
    lemma_run_decs(s, 256, fuel);
    let od = run_seq(s, repeated(Instruction::Dec, 256), fuel);
    assert(od.state().tape.cells =~= s.tape.cells);
    assert(od.state().tape =~= s.tape);
    assert(od.state() =~= s);
}

/// With the cursor on the rightmost cell, `n` cursor moves to the right
/// append exactly `n` zero cells, one per move, and leave the cursor on
/// the last of them; the existing cells are untouched.
pub proof fn lemma_rights_extend(s: State, n: nat, fuel: nat)
    requires
        s.wf(),
        s.tape.cursor == s.tape.cells.len() - 1,
    ensures
        ({
            let o = run_seq(s, repeated(Instruction::Right, n), fuel);
            &&& o is Done
            &&& o.state().tape.cells == s.tape.cells + Seq::new(n, |i: int| 0u8)
            &&& o.state().tape.cursor == s.tape.cursor + n
            &&& o.state().input == s.input
            &&& o.state().output == s.output
        }),
    decreases n,
{
    if n == 0 {
        assert(s.tape.cells + Seq::new(0, |i: int| 0u8) =~= s.tape.cells);
    } else {
        let s1 = State { tape: s.tape.move_right(), ..s };
        assert(run_one(s, Instruction::Right, fuel) == (RunOutcome::Done { s: s1 }));
        assert(repeated(Instruction::Right, n).subrange(1, n as int) =~= repeated(
            Instruction::Right,
            (n - 1) as nat,
        ));
        lemma_rights_extend(s1, (n - 1) as nat, fuel);
        assert(s1.tape.cells + Seq::new((n - 1) as nat, |i: int| 0u8) =~= s.tape.cells + Seq::new(
            n,
            |i: int| 0u8,
        ));
    }
}

/// Tape growth is lazy and minimal: from a fresh tape, `n` cursor moves to
/// the right leave exactly `n + 1` cells, every one of them zero, with the
/// cursor on cell `n`.
pub proof fn lemma_tape_growth_lazy(n: nat, fuel: nat, inp: Seq<u8>, outp: Seq<u8>)
    ensures
        ({
            let o = run_seq(
                (State { tape: TapeModel::fresh(), input: inp, output: outp }),
                repeated(Instruction::Right, n),
                fuel,
            );
            &&& o is Done
            &&& o.state().tape.cells == Seq::new(n + 1, |i: int| 0u8)
            &&& o.state().tape.cursor == n
        }),
{
    let s = State { tape: TapeModel::fresh(), input: inp, output: outp };
    lemma_rights_extend(s, n, fuel);
    assert(s.tape.cells + Seq::new(n, |i: int| 0u8) =~= Seq::new(n + 1, |i: int| 0u8));
}

/// Growth to the left preserves logical addressing: a cursor move to the
/// left from the leftmost cell prepends a single zero cell and leaves the
/// cursor at index 0, on the new cell; every cell the tape already had
/// keeps its value and shifts up by exactly one index.
pub proof fn lemma_left_growth(m: TapeModel)
    requires
        m.wf(),
        m.cursor == 0,
    ensures
        m.move_left().wf(),
        m.move_left().cells.len() == m.cells.len() + 1,
        m.move_left().cursor == 0,
        m.move_left().cells[0] == 0,
        forall|i: int| 0 <= i < m.cells.len() ==> m.move_left().cells[i + 1] == m.cells[i],
{
}

/// From a fresh tape, one cursor move to the left yields a tape of two
/// zero cells with the cursor at index 0: the originally addressed cell
/// now sits at index 1, unmodified.
pub proof fn lemma_left_from_fresh(inp: Seq<u8>, outp: Seq<u8>, fuel: nat)
    ensures
        ({
            let o = run_one(
                (State { tape: TapeModel::fresh(), input: inp, output: outp }),
                Instruction::Left,
                fuel,
            );
            &&& o is Done
            &&& o.state().tape.cells == seq![0u8, 0u8]
            &&& o.state().tape.cursor == 0
            &&& o.state().tape.cells[1] == TapeModel::fresh().read()
        }),
{
    assert(TapeModel::fresh().cells.insert(0, 0u8) =~= seq![0u8, 0u8]);
}

/// A loop whose current cell reads zero never runs its body: whatever the
/// body and whatever the fuel, the loop completes at once and the state is
/// untouched.
pub proof fn lemma_loop_zero_never_runs(s: State, body: Seq<Instruction>, fuel: nat)
    requires
        s.tape.read() == 0,
    ensures
        run_loop(s, body, fuel) == (RunOutcome::Done { s }),
{
}

/// A loop whose body is a single decrement runs the body once per unit of
/// the starting cell value — exactly that many passes, never a partial
/// one — and leaves the cell at zero. With fuel for fewer passes than the
/// cell value demands, the run stops instead with `OutOfFuel`; that the
/// bound is sharp witnesses that no pass is skipped.
pub proof fn lemma_dec_loop_counts(s: State, fuel: nat)
    requires
        s.wf(),
    ensures
        ({
            let v = s.tape.read();
            let o = run_loop(s, seq![Instruction::Dec], fuel);
            &&& v == 0 ==> o == (RunOutcome::Done { s })
            &&& 0 < v <= fuel ==> o == (RunOutcome::Done { s: (State { tape: s.tape.write(0u8), ..s }) })
            &&& v > fuel ==> o is OutOfFuel
        }),
    decreases fuel,
{
    let v = s.tape.read();
    if v > 0 && fuel > 0 {
        let body = seq![Instruction::Dec];
        let s1 = State { tape: s.tape.write(dec_byte(v)), ..s };
        assert(run_one(s, Instruction::Dec, fuel) == (RunOutcome::Done { s: s1 }));
        assert(body.subrange(1, 1) =~= Seq::<Instruction>::empty());
        assert(run_seq(s1, Seq::<Instruction>::empty(), fuel) == (RunOutcome::Done { s: s1 }));
        assert(run_seq(s, body, fuel) == (RunOutcome::Done { s: s1 }));
        lemma_dec_loop_counts(s1, (fuel - 1) as nat);
        if 0 < v <= fuel {
            assert(s1.tape.write(0u8).cells =~= s.tape.write(0u8).cells);
            assert(s1.tape.write(0u8) =~= s.tape.write(0u8));
        }
    }
}

/// The echo round trip: from a state whose input holds exactly one byte,
/// the program "read one byte, write one byte" consumes that byte and
/// appends exactly it to the output, whatever the byte is.
pub proof fn lemma_echo(s: State, fuel: nat)
    requires
        s.wf(),
        s.input.len() == 1,
    ensures
        ({
            let o = run_seq(s, seq![Instruction::Read, Instruction::Write], fuel);
            &&& o is Done
            &&& o.state().output == s.output.push(s.input[0])
            &&& o.state().input == Seq::<u8>::empty()
        }),
{
    let prog = seq![Instruction::Read, Instruction::Write];
    let s1 = State {
        tape: s.tape.write(s.input[0]),
        input: s.input.subrange(1, s.input.len() as int),
        ..s
    };
    assert(run_one(s, Instruction::Read, fuel) == (RunOutcome::Done { s: s1 }));
    let s2 = State { output: s1.output.push(s1.tape.read()), ..s1 };
    assert(run_one(s1, Instruction::Write, fuel) == (RunOutcome::Done { s: s2 }));
    let rest = prog.subrange(1, 2);
    assert(rest =~= seq![Instruction::Write]);
    assert(rest.subrange(1, 1) =~= Seq::<Instruction>::empty());
    assert(run_seq(s2, Seq::<Instruction>::empty(), fuel) == (RunOutcome::Done { s: s2 }));
    assert(run_seq(s1, rest, fuel) == (RunOutcome::Done { s: s2 }));
    assert(run_seq(s, prog, fuel) == (RunOutcome::Done { s: s2 }));
    assert(s1.tape.read() == s.input[0]);
    assert(s1.input =~= Seq::<u8>::empty());
}

/// A `Read` against an exhausted input source stops the run with
/// `InputExhausted` and touches nothing: in particular, no byte is written
/// to the output and the cell is not defaulted to zero.
pub proof fn lemma_read_exhausted(s: State, fuel: nat)
    requires
        s.input.len() == 0,
    ensures
        run_one(s, Instruction::Read, fuel) == (RunOutcome::InputExhausted { s }),
{
}

} // verus!
