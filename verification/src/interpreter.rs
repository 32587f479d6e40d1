//! The execution engine: a byte tape, a cursor on it, and the three-valued
//! loop control that decides whether an instruction acts or is passed over.
//!
//! Loop control keeps one flag and no nesting depth: a skip ends at the
//! first bracket of the kind it looks for. A loop nested inside a skipped
//! region therefore ends the skip early. This is the documented behaviour of
//! the engine, and the model below states it exactly.

use crate::parser::Symbol;
use vstd::prelude::*;

verus! {

/// The engine's relation to a loop whose body it is passing over.
#[derive(Debug, PartialEq, Eq, Clone, Copy, Structural)]
pub enum State {
    /// Scanning forward, past a loop body whose guard was zero.
    SkippingForward,
    /// Instructions act.
    Normal,
    /// Scanning backward, to the start of a loop body whose guard was not zero.
    SkippingBackward,
}

/// The side on which an index left its range.
#[derive(Debug, PartialEq, Eq, Clone, Copy, Structural)]
pub enum Bound {
    /// A move below zero.
    Underflow,
    /// A move past the largest index.
    Overflow,
}

/// The cursor or the program counter left its range.
#[derive(Debug, PartialEq, Eq, Clone, Copy, Structural)]
pub struct OutOfRangeError(pub Bound);

/// An instruction asked for input and none was left.
#[derive(Debug, PartialEq, Eq, Clone, Copy, Structural)]
pub struct Interrupted;

/// Why a run ended before the end of its program.
#[derive(Debug, PartialEq, Eq, Clone, Copy, Structural)]
pub enum RunError {
    /// The cursor or the program counter left its range.
    OutOfRange(OutOfRangeError),
    /// The input was exhausted.
    Interrupted(Interrupted),
    /// The run used up the steps it was allowed.
    StepLimit,
}

/// The mathematical state of an engine.
pub struct Engine {
    /// The cells, first to last.
    pub tape: Seq<u8>,
    /// The index of the current cell.
    pub cursor: int,
    /// The loop control.
    pub state: State,
}

impl Engine {
    /// The cursor points at a cell.
    pub open spec fn wf(self) -> bool {
        0 <= self.cursor < self.tape.len()
    }

    /// The state that every engine starts in: one zero cell, the cursor on it.
    pub open spec fn fresh() -> Engine {
        Engine { tape: seq![0u8], cursor: 0, state: State::Normal }
    }

    /// The value of the current cell.
    pub open spec fn cell(self) -> u8 {
        self.tape[self.cursor]
    }

    /// The same machine with `value` in the current cell.
    pub open spec fn with_cell(self, value: u8) -> Engine {
        Engine { tape: self.tape.update(self.cursor, value), ..self }
    }

    /// The same machine under another loop control.
    pub open spec fn with_state(self, state: State) -> Engine {
        Engine { state, ..self }
    }
}

/// `value + 1`, with 255 followed by 0.
pub open spec fn successor(value: u8) -> u8 {
    if value == 255 {
        0
    } else {
        (value + 1) as u8
    }
}

/// `value - 1`, with 0 followed by 255.
pub open spec fn predecessor(value: u8) -> u8 {
    if value == 0 {
        255
    } else {
        (value - 1) as u8
    }
}

/// The loop control after a loop start, met in `state` with `cell` as guard.
pub open spec fn after_loop_start(state: State, cell: u8) -> State {
    match state {
        State::SkippingForward => State::SkippingForward,
        State::SkippingBackward => State::Normal,
        State::Normal => if cell == 0 {
            State::SkippingForward
        } else {
            State::Normal
        },
    }
}

/// The loop control after a loop end, met in `state` with `cell` as guard.
pub open spec fn after_loop_end(state: State, cell: u8) -> State {
    match state {
        State::SkippingBackward => State::SkippingBackward,
        State::SkippingForward => State::Normal,
        State::Normal => if cell != 0 {
            State::SkippingBackward
        } else {
            State::Normal
        },
    }
}

/// The machine after a cursor move forward: the tape gains a zero cell when
/// the cursor reaches its end.
pub open spec fn moved_forward(m: Engine) -> Engine {
    Engine {
        tape: if m.cursor + 1 >= m.tape.len() {
            m.tape.push(0u8)
        } else {
            m.tape
        },
        cursor: m.cursor + 1,
        state: m.state,
    }
}

/// Whether `symbol`, met by `m`, takes a byte of input.
pub open spec fn wants_input(m: Engine, symbol: Symbol) -> bool {
    symbol == Symbol::GetCharacter && m.state == State::Normal
}

/// The character that `symbol`, met by `m`, writes.
pub open spec fn emitted(m: Engine, symbol: Symbol) -> Option<char> {
    if symbol == Symbol::PutCharacter && m.state == State::Normal {
        Some(m.cell() as char)
    } else {
        None
    }
}

/// What one instruction does to a machine. `input` is the next byte of
/// input, if there is one; it is read only where `wants_input` holds.
pub open spec fn apply(m: Engine, symbol: Symbol, input: Option<u8>) -> Result<
    Engine,
    RunError,
> {
    match symbol {
        Symbol::ForwardJump => Ok(m.with_state(after_loop_start(m.state, m.cell()))),
        Symbol::BackwardJump => Ok(m.with_state(after_loop_end(m.state, m.cell()))),
        _ => if m.state != State::Normal {
            Ok(m)
        } else {
            match symbol {
                Symbol::ValueIncrement => Ok(m.with_cell(successor(m.cell()))),
                Symbol::ValueDecrement => Ok(m.with_cell(predecessor(m.cell()))),
                Symbol::PointerIncrement => Ok(moved_forward(m)),
                Symbol::PointerDecrement => if m.cursor == 0 {
                    Err(RunError::OutOfRange(OutOfRangeError(Bound::Underflow)))
                } else {
                    Ok(Engine { cursor: m.cursor - 1, ..m })
                },
                Symbol::GetCharacter => match input {
                    None => Err(RunError::Interrupted(Interrupted)),
                    Some(byte) => Ok(m.with_cell(byte)),
                },
                _ => Ok(m),
            }
        },
    }
}

/// Where the program counter goes from `index` under `state`: one back
/// while skipping backward, one forward otherwise.
pub open spec fn next_index(state: State, index: int) -> Result<int, OutOfRangeError> {
    if state == State::SkippingBackward {
        if index <= 0 {
            Err(OutOfRangeError(Bound::Underflow))
        } else {
            Ok(index - 1)
        }
    } else {
        if index >= usize::MAX {
            Err(OutOfRangeError(Bound::Overflow))
        } else {
            Ok(index + 1)
        }
    }
}

/// How a run ends.
pub struct Outcome {
    /// The machine as the run left it.
    pub machine: Engine,
    /// The characters written, in order.
    pub output: Seq<char>,
    /// The number of input bytes taken.
    pub consumed: nat,
    /// Success, or the error that ended the run.
    pub result: Result<(), RunError>,
}

impl Outcome {
    /// This outcome, reached after `output` was written and `consumed`
    /// bytes of input were taken.
    pub open spec fn after(self, output: Seq<char>, consumed: nat) -> Outcome {
        Outcome {
            machine: self.machine,
            output: output + self.output,
            consumed: consumed + self.consumed,
            result: self.result,
        }
    }
}

/// The characters of an optional character: one or none.
pub open spec fn written(put: Option<char>) -> Seq<char> {
    match put {
        Some(character) => seq![character],
        None => Seq::empty(),
    }
}

/// The run of `code` from program counter `index` on machine `m`, with
/// `input` still unread and at most `limit` instructions to execute.
///
/// The run ends in success as soon as the program counter is outside the
/// program; a failing instruction leaves the machine as it found it.
pub open spec fn run_from(
    m: Engine,
    code: Seq<Symbol>,
    index: int,
    input: Seq<u8>,
    limit: nat,
) -> Outcome
    decreases limit,
{
    if !(0 <= index < code.len()) {
        Outcome { machine: m, output: Seq::empty(), consumed: 0, result: Ok(()) }
    } else if limit == 0 {
        Outcome { machine: m, output: Seq::empty(), consumed: 0, result: Err(RunError::StepLimit) }
    } else {
        let symbol = code[index];
        let feed = if input.len() > 0 {
            Some(input[0])
        } else {
            None
        };
        match apply(m, symbol, feed) {
            Err(error) => Outcome {
                machine: m,
                output: Seq::empty(),
                consumed: 0,
                result: Err(error),
            },
            Ok(next) => {
                let put = written(emitted(m, symbol));
                let took: nat = if wants_input(m, symbol) {
                    1
                } else {
                    0
                };
                match next_index(next.state, index) {
                    Err(error) => Outcome {
                        machine: next,
                        output: put,
                        consumed: took,
                        result: Err(RunError::OutOfRange(error)),
                    },
                    Ok(target) => run_from(
                        next,
                        code,
                        target,
                        input.skip(took as int),
                        (limit - 1) as nat,
                    ).after(put, took),
                }
            },
        }
    }
}

/// The run of `code` from its first instruction.
pub open spec fn run_spec(m: Engine, code: Seq<Symbol>, input: Seq<u8>, limit: nat) -> Outcome {
    run_from(m, code, 0, input, limit)
}

/// An engine: the tape, the cursor and the loop control.
#[derive(Debug)]
pub struct Interpreter {
    mem: Vec<u8>,
    index: usize,
    state: State,
}

impl View for Interpreter {
    type V = Engine;

    closed spec fn view(&self) -> Engine {
        Engine { tape: self.mem@, cursor: self.index as int, state: self.state }
    }
}

impl Interpreter {
    /// The cursor points at a cell of the tape.
    pub open spec fn wf(&self) -> bool {
        self@.wf()
    }

    /// A fresh engine: one zero cell, the cursor on it, no skip under way.
    pub fn new() -> (vm: Self)
        ensures
            vm@ == Engine::fresh(),
            vm.wf(),
    {
        let mut mem: Vec<u8> = Vec::new();
        mem.push(0u8);
        assert(mem@ =~= seq![0u8]);
        Self { mem, index: 0, state: State::Normal }
    }

    /// The tape.
    pub fn mem(&self) -> (tape: &Vec<u8>)
        ensures
            tape@ == self@.tape,
    {
        &self.mem
    }

    /// The index of the current cell.
    pub fn index(&self) -> (cursor: usize)
        ensures
            cursor == self@.cursor,
    {
        self.index
    }

    /// The loop control.
    pub fn state(&self) -> (state: State)
        ensures
            state == self@.state,
    {
        self.state
    }

    /// Whether `symbol`, executed now, would take a byte of input.
    pub fn wants_input(&self, symbol: Symbol) -> (wants: bool)
        ensures
            wants == wants_input(self@, symbol),
    {
        symbol == Symbol::GetCharacter && self.state == State::Normal
    }

    fn increment_value(&mut self)
        requires
            old(self).wf(),
        ensures
            final(self).wf(),
            Ok::<Engine, RunError>(final(self)@) == apply(
                old(self)@,
                Symbol::ValueIncrement,
                None,
            ),
    {
        if self.state != State::Normal {
            return ;
        }
        let value: u8 = self.mem[self.index].wrapping_add(1);
        self.mem.set(self.index, value);
    }

    fn decrement_value(&mut self)
        requires
            old(self).wf(),
        ensures
            final(self).wf(),
            Ok::<Engine, RunError>(final(self)@) == apply(
                old(self)@,
                Symbol::ValueDecrement,
                None,
            ),
    {
        if self.state != State::Normal {
            return ;
        }
        let value: u8 = self.mem[self.index].wrapping_sub(1);
        self.mem.set(self.index, value);
    }

    fn increment_pointer(&mut self)
        requires
            old(self).wf(),
        ensures
            final(self).wf(),
            Ok::<Engine, RunError>(final(self)@) == apply(
                old(self)@,
                Symbol::PointerIncrement,
                None,
            ),
    {
        if self.state != State::Normal {
            return ;
        }
        let cells: usize = self.mem.len();
        self.index += 1;
        if cells <= self.index {
            self.mem.push(0);
        }
    }

    fn decrement_pointer(&mut self) -> (result: Result<(), OutOfRangeError>)
        requires
            old(self).wf(),
        ensures
            final(self).wf(),
            match apply(old(self)@, Symbol::PointerDecrement, None) {
                Ok(next) => result is Ok && final(self)@ == next,
                Err(error) => final(self)@ == old(self)@ && error == RunError::OutOfRange(
                    OutOfRangeError(Bound::Underflow),
                ) && result == Err::<(), OutOfRangeError>(OutOfRangeError(Bound::Underflow)),
            },
    {
        if self.state != State::Normal {
            return Ok(());
        }
        if self.index == 0 {
            return Err(OutOfRangeError(Bound::Underflow));
        }
        self.index -= 1;
        Ok(())
    }

    fn put_character(&self) -> (put: Option<char>)
        requires
            self.wf(),
        ensures
            put == emitted(self@, Symbol::PutCharacter),
    {
        if self.state != State::Normal {
            return None;
        }
        Some(self.mem[self.index] as char)
    }

    fn get_character(&mut self, input: Option<u8>) -> (result: Result<(), Interrupted>)
        requires
            old(self).wf(),
        ensures
            final(self).wf(),
            match apply(old(self)@, Symbol::GetCharacter, input) {
                Ok(next) => result is Ok && final(self)@ == next,
                Err(error) => final(self)@ == old(self)@ && error == RunError::Interrupted(
                    Interrupted,
                ) && result is Err,
            },
    {
        if self.state != State::Normal {
            return Ok(());
        }
        match input {
            None => Err(Interrupted),
            Some(byte) => {
                self.mem.set(self.index, byte);
                Ok(())
            },
        }
    }

    fn forward_jump(&mut self)
        requires
            old(self).wf(),
        ensures
            final(self).wf(),
            Ok::<Engine, RunError>(final(self)@) == apply(
                old(self)@,
                Symbol::ForwardJump,
                None,
            ),
    {
        match self.state {
            State::SkippingForward => {},
            State::SkippingBackward => {
                self.state = State::Normal;
            },
            State::Normal => {
                if self.mem[self.index] == 0 {
                    self.state = State::SkippingForward;
                }
            },
        }
    }

    fn backward_jump(&mut self)
        requires
            old(self).wf(),
        ensures
            final(self).wf(),
            Ok::<Engine, RunError>(final(self)@) == apply(
                old(self)@,
                Symbol::BackwardJump,
                None,
            ),
    {
        match self.state {
            State::SkippingBackward => {},
            State::SkippingForward => {
                self.state = State::Normal;
            },
            State::Normal => {
                if self.mem[self.index] != 0 {
                    self.state = State::SkippingBackward;
                }
            },
        }
    }

    /// Executes one instruction. `input` is the next byte of input, or
    /// `None` when the input is exhausted; it is looked at only where
    /// `wants_input` holds. On success the result is the character that the
    /// instruction writes, if it writes one. On failure the engine is
    /// unchanged.
    pub fn step(&mut self, symbol: Symbol, input: Option<u8>) -> (result: Result<
        Option<char>,
        RunError,
    >)
        requires
            old(self).wf(),
        ensures
            final(self).wf(),
            final(self)@.tape.len() >= old(self)@.tape.len(),
            match apply(old(self)@, symbol, input) {
                Ok(next) => final(self)@ == next && result == Ok::<Option<char>, RunError>(
                    emitted(old(self)@, symbol),
                ),
                Err(error) => final(self)@ == old(self)@ && result == Err::<
                    Option<char>,
                    RunError,
                >(error),
            },
    {
        match symbol {
            Symbol::ValueIncrement => {
                self.increment_value();
                Ok(None)
            },
            Symbol::ValueDecrement => {
                self.decrement_value();
                Ok(None)
            },
            Symbol::PointerIncrement => {
                self.increment_pointer();
                Ok(None)
            },
            Symbol::PointerDecrement => match self.decrement_pointer() {
                Ok(()) => Ok(None),
                Err(error) => Err(RunError::OutOfRange(error)),
            },
            Symbol::PutCharacter => Ok(self.put_character()),
            Symbol::GetCharacter => match self.get_character(input) {
                Ok(()) => Ok(None),
                Err(error) => Err(RunError::Interrupted(error)),
            },
            Symbol::ForwardJump => {
                self.forward_jump();
                Ok(None)
            },
            Symbol::BackwardJump => {
                self.backward_jump();
                Ok(None)
            },
        }
    }

    /// Moves a program counter by one position, in the direction that the
    /// loop control asks for.
    pub fn advance(&self, index: usize) -> (result: Result<usize, OutOfRangeError>)
        ensures
            match next_index(self@.state, index as int) {
                Ok(target) => result == Ok::<usize, OutOfRangeError>(target as usize) && target
                    <= usize::MAX,
                Err(error) => result == Err::<usize, OutOfRangeError>(error),
            },
    {
        match self.state {
            State::Normal | State::SkippingForward => match index.checked_add(1) {
                None => Err(OutOfRangeError(Bound::Overflow)),
                Some(target) => Ok(target),
            },
            State::SkippingBackward => match index.checked_sub(1) {
                None => Err(OutOfRangeError(Bound::Underflow)),
                Some(target) => Ok(target),
            },
        }
    }

    /// Runs `code` from its first instruction, for at most `limit`
    /// instructions. Input bytes are taken from `input` in order; the
    /// characters written are appended to `output`.
    ///
    /// The result is `Ok` exactly when the program counter leaves the
    /// program at its end within `limit` instructions. An error ends the run
    /// at once and leaves the tape as the run had made it by then.
    pub fn run(
        &mut self,
        code: Vec<Symbol>,
        input: &[u8],
        output: &mut Vec<char>,
        limit: u64,
    ) -> (result: Result<(), RunError>)
        requires
            old(self).wf(),
        ensures
            final(self).wf(),
            final(self)@ == run_spec(old(self)@, code@, input@, limit as nat).machine,
            final(output)@ == old(output)@ + run_spec(
                old(self)@,
                code@,
                input@,
                limit as nat,
            ).output,
            result == run_spec(old(self)@, code@, input@, limit as nat).result,
    {
        let ghost start = self@;
        let ghost before = output@;
        let ghost put: Seq<char> = Seq::empty();
        let mut index: usize = 0;
        let mut taken: usize = 0;
        let mut left: u64 = limit;
        assert(input@.skip(0) =~= input@);
        assert(before + put =~= before);
        while index < code.len()
            invariant
                start == old(self)@,
                before == old(output)@,
                self.wf(),
                taken <= input@.len(),
                output@ == before + put,
                run_spec(start, code@, input@, limit as nat) == run_from(
                    self@,
                    code@,
                    index as int,
                    input@.skip(taken as int),
                    left as nat,
                ).after(put, taken as nat),
            decreases left,
        {
            if left == 0 {
                assert(output@ =~= before + (put + Seq::<char>::empty()));
                return Err(RunError::StepLimit);
            }
            let symbol = code[index];
            let feed = if taken < input.len() {
                Some(input[taken])
            } else {
                None
            };
            let wants = self.wants_input(symbol);
            let ghost unread = input@.skip(taken as int);
            assert(unread.len() > 0 ==> unread[0] == input@[taken as int]);
            match self.step(symbol, feed) {
                Err(error) => {
                    assert(output@ =~= before + (put + Seq::<char>::empty()));
                    return Err(error);
                },
                Ok(character) => {
                    if let Some(c) = character {
                        output.push(c);
                    }
                    if wants {
                        taken = taken + 1;
                    }
                    proof {
                        let took: nat = if wants { 1 } else { 0 };
                        assert(unread.skip(took as int) =~= input@.skip(taken as int));
                        assert(output@ =~= before + (put + written(character)));
                    }
                    match self.advance(index) {
                        Err(error) => {
                            return Err(RunError::OutOfRange(error));
                        },
                        Ok(target) => {
                            proof {
                                let rest = run_from(
                                    self@,
                                    code@,
                                    target as int,
                                    input@.skip(taken as int),
                                    (left - 1) as nat,
                                );
                                assert(put + (written(character) + rest.output) =~= (put + written(
                                    character,
                                )) + rest.output);
                                put = put + written(character);
                            }
                            index = target;
                            left = left - 1;
                        },
                    }
                },
            }
        }
        assert(output@ =~= before + (put + Seq::<char>::empty()));
        Ok(())
    }
}

/// An instruction keeps the cursor on the tape and never shortens the tape.
pub proof fn lemma_apply_keeps_tape(m: Engine, symbol: Symbol, input: Option<u8>)
    requires
        m.wf(),
    ensures
        apply(m, symbol, input) is Ok ==> {
            &&& apply(m, symbol, input)->Ok_0.wf()
            &&& apply(m, symbol, input)->Ok_0.tape.len() >= m.tape.len()
        },
{
}

/// An instruction met while a skip is under way changes nothing but the
/// loop control, takes no input and writes nothing.
pub proof fn lemma_skipped_instruction_is_inert(m: Engine, symbol: Symbol, input: Option<u8>)
    requires
        m.state != State::Normal,
    ensures
        apply(m, symbol, input) is Ok,
        apply(m, symbol, input)->Ok_0.tape == m.tape,
        apply(m, symbol, input)->Ok_0.cursor == m.cursor,
        emitted(m, symbol) is None,
        !wants_input(m, symbol),
{
}

/// A run keeps the cursor on the tape, never shortens the tape, and takes
/// no more input than there is.
pub proof fn lemma_run_keeps_tape(
    m: Engine,
    code: Seq<Symbol>,
    index: int,
    input: Seq<u8>,
    limit: nat,
)
    requires
        m.wf(),
    ensures
        run_from(m, code, index, input, limit).machine.wf(),
        run_from(m, code, index, input, limit).machine.tape.len() >= m.tape.len(),
        run_from(m, code, index, input, limit).consumed <= input.len(),
    decreases limit,
{
    if 0 <= index < code.len() && limit > 0 {
        let symbol = code[index];
        let feed = if input.len() > 0 {
            Some(input[0])
        } else {
            None
        };
        lemma_apply_keeps_tape(m, symbol, feed);
        if let Ok(next) = apply(m, symbol, feed) {
            let took: nat = if wants_input(m, symbol) {
                1
            } else {
                0
            };
            if let Ok(target) = next_index(next.state, index) {
                lemma_run_keeps_tape(next, code, target, input.skip(took as int), (limit - 1) as nat);
            }
        }
    }
}

/// A run that did not end for want of steps ends the same way under every
/// larger limit.
pub proof fn lemma_run_limit_is_neutral(
    m: Engine,
    code: Seq<Symbol>,
    index: int,
    input: Seq<u8>,
    limit: nat,
    more: nat,
)
    requires
        limit <= more,
        run_from(m, code, index, input, limit).result != Err::<(), RunError>(RunError::StepLimit),
    ensures
        run_from(m, code, index, input, more) == run_from(m, code, index, input, limit),
    decreases limit,
{
    if 0 <= index < code.len() && limit > 0 {
        let symbol = code[index];
        let feed = if input.len() > 0 {
            Some(input[0])
        } else {
            None
        };
        if let Ok(next) = apply(m, symbol, feed) {
            let took: nat = if wants_input(m, symbol) {
                1
            } else {
                0
            };
            if let Ok(target) = next_index(next.state, index) {
                lemma_run_limit_is_neutral(
                    next,
                    code,
                    target,
                    input.skip(took as int),
                    (limit - 1) as nat,
                    (more - 1) as nat,
                );
            }
        }
    }
}

/// Output instructions met in the normal state write the current cell's
/// character once each, in order, and change nothing else: the part of a
/// program from `index` on that is made of them alone writes as many
/// copies of the character as it has instructions.
pub proof fn lemma_output_once_per_instruction(
    m: Engine,
    code: Seq<Symbol>,
    index: int,
    input: Seq<u8>,
    limit: nat,
)
    requires
        m.state == State::Normal,
        0 <= index <= code.len() <= usize::MAX,
        forall|at: int| index <= at < code.len() ==> code[at] == Symbol::PutCharacter,
        limit >= code.len() - index,
    ensures
        run_from(m, code, index, input, limit) == (Outcome {
            machine: m,
            output: Seq::new((code.len() - index) as nat, |at: int| m.cell() as char),
            consumed: 0,
            result: Ok(()),
        }),
    decreases code.len() - index,
{
    let copies = Seq::new((code.len() - index) as nat, |at: int| m.cell() as char);
    if index < code.len() {
        assert(input.skip(0) =~= input);
        lemma_output_once_per_instruction(m, code, index + 1, input, (limit - 1) as nat);
        let rest = Seq::new((code.len() - index - 1) as nat, |at: int| m.cell() as char);
        assert(seq![m.cell() as char] + rest =~= copies);
    } else {
        assert(copies =~= Seq::<char>::empty());
    }
}

/// Two runs of one program from one state, on one input and under one
/// limit, end with the same tape, the same output and the same result.
pub proof fn lemma_run_is_deterministic(
    code: Seq<Symbol>,
    input: Seq<u8>,
    limit: nat,
    first: Interpreter,
    second: Interpreter,
    first_outcome: Outcome,
    second_outcome: Outcome,
)
    requires
        first@ == second@,
        first_outcome == run_spec(first@, code, input, limit),
        second_outcome == run_spec(second@, code, input, limit),
    ensures
        first_outcome.machine.tape == second_outcome.machine.tape,
        first_outcome.output == second_outcome.output,
        first_outcome.result == second_outcome.result,
{
}

/// A program that is nothing but a request for input, run in the normal
/// state with no input left, is interrupted and leaves the engine as it was.
pub proof fn lemma_input_exhausted(m: Engine, limit: nat)
    requires
        m.state == State::Normal,
        limit > 0,
    ensures
        run_spec(m, seq![Symbol::GetCharacter], Seq::empty(), limit).result == Err::<(), RunError>(
            RunError::Interrupted(Interrupted),
        ),
        run_spec(m, seq![Symbol::GetCharacter], Seq::empty(), limit).machine == m,
{
}

/// A cursor move backward from the first cell is an underflow.
pub proof fn lemma_backward_from_first_cell(m: Engine, input: Option<u8>)
    requires
        m.state == State::Normal,
        m.cursor == 0,
    ensures
        apply(m, Symbol::PointerDecrement, input) == Err::<Engine, RunError>(
            RunError::OutOfRange(OutOfRangeError(Bound::Underflow)),
        ),
{
}

} // verus!
