//! The engine: a fixed-size tape of wrapping byte cells, a cursor into it,
//! and a dispatcher that runs a token stream one instruction at a time.
use vstd::prelude::*;

use crate::scanner::{scan_source, tokens_of};

verus! {

/// `>`: moves the cursor one cell to the right.
pub const MOVE_RIGHT: u8 = 62;

/// `<`: moves the cursor one cell to the left.
pub const MOVE_LEFT: u8 = 60;

/// `+`: increments the current cell.
pub const INCREMENT: u8 = 43;

/// `-`: decrements the current cell.
pub const DECREMENT: u8 = 45;

/// `[`: opens a block.
pub const OPEN_BLOCK: u8 = 91;

/// `]`: closes a block.
pub const CLOSE_BLOCK: u8 = 93;

/// `.`: emits the current cell.
pub const EMIT: u8 = 46;

/// A space, ignored.
pub const SPACE: u8 = 32;

/// A tab, ignored.
pub const TAB: u8 = 9;

/// A carriage return, ignored.
pub const CARRIAGE_RETURN: u8 = 13;

/// A newline: advances the line counter.
pub const NEWLINE: u8 = 10;

/// Why a run stopped before the end of its token stream.
#[derive(Clone, Copy, Debug, PartialEq, Eq, Structural)]
pub enum InterpretError {
    /// A `[` (or `]`) found no `]` after it (or `[` before it).
    UnterminatedBlock { bracket: u8, line: usize },
    /// A byte that is neither an instruction nor whitespace.
    InvalidToken { token: u8, line: usize },
}

/// What one dispatch did.
#[derive(Clone, Copy, Debug, PartialEq, Eq, Structural)]
pub enum Step {
    /// An instruction ran and produced no output.
    Continue,
    /// An `.` ran and emitted this cell value.
    Output(u8),
    /// The instruction pointer was already past the last token.
    Halt,
    /// The instruction was a fatal error.
    Failed(InterpretError),
}

/// How a bounded run ended.
#[derive(Clone, Copy, Debug, PartialEq, Eq, Structural)]
pub enum End {
    /// The instruction pointer reached the end of the token stream.
    Finished,
    /// A fatal error stopped the run.
    Failed(InterpretError),
    /// The step budget ran out first.
    OutOfSteps,
}

/// What a bounded run emitted, and how it ended.
#[derive(Debug)]
pub struct Run {
    pub output: Vec<u8>,
    pub end: End,
}

/// The engine's state as mathematical values.
pub struct EngineState {
    pub tape: Seq<u8>,
    pub cursor: int,
    pub tokens: Seq<u8>,
    pub ip: int,
    pub line: usize,
    pub debug: bool,
}

impl EngineState {
    /// The cursor names a cell of a non-empty tape, and the instruction
    /// pointer lies within the token stream or just past it.
    pub open spec fn wf(self) -> bool {
        &&& self.tape.len() >= 1
        &&& 0 <= self.cursor < self.tape.len()
        &&& 0 <= self.ip <= self.tokens.len()
    }

    /// The value of the cell under the cursor.
    pub open spec fn cell(self) -> u8 {
        self.tape[self.cursor]
    }
}

/// A cell value plus one, 255 wrapping to 0.
pub open spec fn increment(c: u8) -> u8 {
    if c == 255 {
        0
    } else {
        (c + 1) as u8
    }
}

/// A cell value minus one, 0 wrapping to 255.
pub open spec fn decrement(c: u8) -> u8 {
    if c == 0 {
        255
    } else {
        (c - 1) as u8
    }
}

/// The first position at or after `from` that holds `]`, if any.
pub open spec fn forward_match(t: Seq<u8>, from: int) -> Option<int>
    decreases t.len() - from,
{
    if from < 0 || from >= t.len() {
        None
    } else if t[from] == CLOSE_BLOCK {
        Some(from)
    } else {
        forward_match(t, from + 1)
    }
}

/// The last position before `before` that holds `[`, if any.
pub open spec fn backward_match(t: Seq<u8>, before: int) -> Option<int>
    decreases before,
{
    if before <= 0 || before > t.len() {
        None
    } else if t[before - 1] == OPEN_BLOCK {
        Some(before - 1)
    } else {
        backward_match(t, before - 1)
    }
}

/// The line counter after a newline (it stops at the largest `usize`).
pub open spec fn next_line(line: usize) -> usize {
    if line < usize::MAX {
        (line + 1) as usize
    } else {
        line
    }
}

/// Runs token `tok` on state `s`, whose instruction pointer has already been
/// moved past that token.
pub open spec fn execute(s: EngineState, tok: u8) -> (EngineState, Step) {
    if tok == MOVE_RIGHT {
        let c = if s.cursor + 1 >= s.tape.len() { 0 } else { s.cursor + 1 };
        (EngineState { cursor: c, ..s }, Step::Continue)
    } else if tok == MOVE_LEFT {
        let c = if s.cursor == 0 { s.tape.len() - 1 } else { s.cursor - 1 };
        (EngineState { cursor: c, ..s }, Step::Continue)
    } else if tok == INCREMENT {
        (EngineState { tape: s.tape.update(s.cursor, increment(s.cell())), ..s }, Step::Continue)
    } else if tok == DECREMENT {
        (EngineState { tape: s.tape.update(s.cursor, decrement(s.cell())), ..s }, Step::Continue)
    } else if tok == OPEN_BLOCK {
        if s.cell() == 0 {
            match forward_match(s.tokens, s.ip) {
                Some(j) => (EngineState { ip: j, ..s }, Step::Continue),
                None => (
                    s,
                    Step::Failed(InterpretError::UnterminatedBlock { bracket: OPEN_BLOCK, line: s.line }),
                ),
            }
        } else {
            (s, Step::Continue)
        }
    } else if tok == CLOSE_BLOCK {
        if s.cell() != 0 {
            match backward_match(s.tokens, s.ip - 1) {
                Some(j) => (EngineState { ip: j, ..s }, Step::Continue),
                None => (
                    s,
                    Step::Failed(InterpretError::UnterminatedBlock { bracket: CLOSE_BLOCK, line: s.line }),
                ),
            }
        } else {
            (s, Step::Continue)
        }
    } else if tok == EMIT {
        (s, Step::Output(s.cell()))
    } else if tok == SPACE || tok == TAB || tok == CARRIAGE_RETURN {
        (s, Step::Continue)
    } else if tok == NEWLINE {
        (EngineState { line: next_line(s.line), ..s }, Step::Continue)
    } else {
        (s, Step::Failed(InterpretError::InvalidToken { token: tok, line: s.line }))
    }
}

/// One dispatch: fetch the token under the instruction pointer, move the
/// pointer past it, and run it; `Halt` once no token is left.
pub open spec fn next(s: EngineState) -> (EngineState, Step) {
    if s.ip < 0 || s.ip >= s.tokens.len() {
        (s, Step::Halt)
    } else {
        execute(EngineState { ip: s.ip + 1, ..s }, s.tokens[s.ip])
    }
}

/// At most `fuel` dispatches from `s`: the final state, the bytes emitted,
/// and how the run ended.
pub open spec fn run(s: EngineState, fuel: nat) -> (EngineState, Seq<u8>, End)
    decreases fuel,
{
    if s.ip < 0 || s.ip >= s.tokens.len() {
        (s, Seq::empty(), End::Finished)
    } else if fuel == 0 {
        (s, Seq::empty(), End::OutOfSteps)
    } else {
        let (s1, st) = next(s);
        match st {
            Step::Failed(e) => (s1, Seq::empty(), End::Failed(e)),
            Step::Output(b) => {
                let (s2, out, end) = run(s1, (fuel - 1) as nat);
                (s2, seq![b] + out, end)
            },
            _ => run(s1, (fuel - 1) as nat),
        }
    }
}

/// `s` with the tokens of `source` loaded, the instruction pointer at the
/// start and the line counter at one; tape and cursor are kept.
pub open spec fn loaded(s: EngineState, source: Seq<u8>) -> EngineState {
    EngineState { tokens: tokens_of(source), ip: 0, line: 1, ..s }
}

/// An engine: its tape, cursor, loaded token stream, instruction pointer
/// and line counter.
pub struct Interpreter {
    memory: Vec<u8>,
    current_pointer: usize,
    tokens: Vec<u8>,
    current_token: usize,
    line: usize,
    debug: bool,
}

impl View for Interpreter {
    type V = EngineState;

    closed spec fn view(&self) -> EngineState {
        EngineState {
            tape: self.memory@,
            cursor: self.current_pointer as int,
            tokens: self.tokens@,
            ip: self.current_token as int,
            line: self.line,
            debug: self.debug,
        }
    }
}

impl Interpreter {
    /// The engine's invariant.
    pub open spec fn wf(&self) -> bool {
        self@.wf()
    }

    /// An engine with `memory_size` zeroed cells, the cursor on the first,
    /// no tokens, and the line counter at one.
    pub fn new(memory_size: usize, debug: bool) -> (r: Self)
        requires
            memory_size >= 1,
        ensures
            r.wf(),
            r@.tape == Seq::new(memory_size as nat, |i: int| 0u8),
            r@.cursor == 0,
            r@.tokens == Seq::<u8>::empty(),
            r@.ip == 0,
            r@.line == 1,
            r@.debug == debug,
    {
        let mut memory: Vec<u8> = Vec::new();
        let mut i: usize = 0;
        while i < memory_size
            invariant
                i <= memory_size,
                memory@ == Seq::new(i as nat, |k: int| 0u8),
            decreases memory_size - i,
        {
            memory.push(0);
            i += 1;
            assert(memory@ =~= Seq::new(i as nat, |k: int| 0u8));
        }
        let tokens: Vec<u8> = Vec::new();
        let r = Interpreter { memory, current_pointer: 0, tokens, current_token: 0, line: 1, debug };
        assert(r@.tokens =~= Seq::<u8>::empty());
        r
    }

    /// The first position at or after the instruction pointer that holds
    /// `]`, if any.
    fn match_ending_block(&self) -> (r: Option<usize>)
        requires
            self.wf(),
        ensures
            r matches Some(j) ==> j < self@.tokens.len() && forward_match(self@.tokens, self@.ip)
                == Some(j as int),
            r is None ==> forward_match(self@.tokens, self@.ip) is None,
    {
        let mut i: usize = self.current_token;
        while i < self.tokens.len()
            invariant
                self.wf(),
                self@.ip <= i <= self@.tokens.len(),
                forward_match(self@.tokens, self@.ip) == forward_match(self@.tokens, i as int),
            decreases self@.tokens.len() - i,
        {
            if self.tokens[i] == CLOSE_BLOCK {
                return Some(i);
            }
            i += 1;
        }
        None
    }

    /// The last position before `before` that holds `[`, if any.
    fn match_opening_block(&self, before: usize) -> (r: Option<usize>)
        requires
            self.wf(),
            before <= self@.tokens.len(),
        ensures
            r matches Some(j) ==> j < before && backward_match(self@.tokens, before as int) == Some(
                j as int,
            ),
            r is None ==> backward_match(self@.tokens, before as int) is None,
    {
        let mut i: usize = before;
        while i > 0
            invariant
                self.wf(),
                i <= before <= self@.tokens.len(),
                backward_match(self@.tokens, before as int) == backward_match(self@.tokens, i as int),
            decreases i,
        {
            if self.tokens[i - 1] == OPEN_BLOCK {
                return Some(i - 1);
            }
            i -= 1;
        }
        None
    }

    /// The token under the instruction pointer, moving the pointer past it;
    /// `None` once no token is left.
    fn next_token(&mut self) -> (r: Option<u8>)
        requires
            old(self).wf(),
        ensures
            final(self).wf(),
            old(self)@.ip < old(self)@.tokens.len() ==> r == Some(old(self)@.tokens[old(self)@.ip])
                && final(self)@ == (EngineState { ip: old(self)@.ip + 1, ..old(self)@ }),
            old(self)@.ip >= old(self)@.tokens.len() ==> r is None && final(self)@ == old(self)@,
    {
        if self.current_token < self.tokens.len() {
            let token = self.tokens[self.current_token];
            self.current_token += 1;
            Some(token)
        } else {
            None
        }
    }

    /// Runs one token, the instruction pointer having been moved past it.
    fn interpret_token(&mut self, token: u8) -> (r: Step)
        requires
            old(self).wf(),
            old(self)@.ip >= 1,
        ensures
            final(self).wf(),
            (final(self)@, r) == execute(old(self)@, token),
    {
        let cell = self.memory[self.current_pointer];
        if token == MOVE_RIGHT {
            if self.current_pointer >= self.memory.len() - 1 {
                self.current_pointer = 0;
            } else {
                self.current_pointer += 1;
            }
            Step::Continue
        } else if token == MOVE_LEFT {
            if self.current_pointer == 0 {
                self.current_pointer = self.memory.len() - 1;
            } else {
                self.current_pointer -= 1;
            }
            Step::Continue
        } else if token == INCREMENT {
            let v: u8 = if cell == 255 { 0 } else { cell + 1 };
            self.memory.set(self.current_pointer, v);
            Step::Continue
        } else if token == DECREMENT {
            let v: u8 = if cell == 0 { 255 } else { cell - 1 };
            self.memory.set(self.current_pointer, v);
            Step::Continue
        } else if token == OPEN_BLOCK {
            if cell == 0 {
                match self.match_ending_block() {
                    Some(j) => {
                        self.current_token = j;
                        Step::Continue
                    },
                    None => Step::Failed(
                        InterpretError::UnterminatedBlock { bracket: OPEN_BLOCK, line: self.line },
                    ),
                }
            } else {
                Step::Continue
            }
        } else if token == CLOSE_BLOCK {
            if cell != 0 {
                match self.match_opening_block(self.current_token - 1) {
                    Some(j) => {
                        self.current_token = j;
                        Step::Continue
                    },
                    None => Step::Failed(
                        InterpretError::UnterminatedBlock { bracket: CLOSE_BLOCK, line: self.line },
                    ),
                }
            } else {
                Step::Continue
            }
        } else if token == EMIT {
            Step::Output(cell)
        } else if token == SPACE || token == TAB || token == CARRIAGE_RETURN {
            Step::Continue
        } else if token == NEWLINE {
            if self.line < usize::MAX {
                self.line += 1;
            }
            Step::Continue
        } else {
            Step::Failed(InterpretError::InvalidToken { token, line: self.line })
        }
    }

    /// One dispatch: runs the token under the instruction pointer, or
    /// reports `Halt` when none is left.
    pub fn step(&mut self) -> (r: Step)
        requires
            old(self).wf(),
        ensures
            final(self).wf(),
            (final(self)@, r) == next(old(self)@),
    {
        match self.next_token() {
            Some(token) => self.interpret_token(token),
            None => Step::Halt,
        }
    }

    /// Loads the tokens of `source`, putting the instruction pointer at the
    /// start and the line counter at one; tape and cursor are kept.
    pub fn load(&mut self, source: &[u8])
        requires
            old(self).wf(),
        ensures
            final(self).wf(),
            final(self)@ == loaded(old(self)@, source@),
    {
        self.tokens = scan_source(source);
        self.current_token = 0;
        self.line = 1;
    }

    /// Loads `source` and runs it for at most `max_steps` dispatches,
    /// collecting the emitted bytes. Stops at the end of the token stream,
    /// at the first fatal error, or when the budget runs out.
    pub fn interpret(&mut self, source: &[u8], max_steps: usize) -> (r: Run)
        requires
            old(self).wf(),
        ensures
            final(self).wf(),
            ({
                let (s, out, end) = run(loaded(old(self)@, source@), max_steps as nat);
                final(self)@ == s && r.output@ == out && r.end == end
            }),
    {
        self.load(source);
        let ghost start = self@;
        let mut output: Vec<u8> = Vec::new();
        let mut fuel: usize = max_steps;
        loop
            invariant
                self.wf(),
                fuel <= max_steps,
                start == loaded(old(self)@, source@),
                run(start, max_steps as nat) == ({
                    let (s, out, end) = run(self@, fuel as nat);
                    (s, output@ + out, end)
                }),
            decreases fuel,
        {
            if self.current_token >= self.tokens.len() {
                assert(run(self@, fuel as nat) == (self@, Seq::<u8>::empty(), End::Finished));
                assert(output@ + Seq::<u8>::empty() =~= output@);
                return Run { output, end: End::Finished };
            }
            if fuel == 0 {
                assert(run(self@, fuel as nat) == (self@, Seq::<u8>::empty(), End::OutOfSteps));
                assert(output@ + Seq::<u8>::empty() =~= output@);
                return Run { output, end: End::OutOfSteps };
            }
            let ghost before = self@;
            let st = self.step();
            fuel -= 1;
            match st {
                Step::Output(b) => {
                    let ghost rest = run(self@, fuel as nat).1;
                    assert(output@ + (seq![b] + rest) =~= output@.push(b) + rest);
                    output.push(b);
                },
                Step::Failed(e) => {
                    assert(run(before, (fuel + 1) as nat) == (self@, Seq::<u8>::empty(), End::Failed(e)));
                    assert(output@ + Seq::<u8>::empty() =~= output@);
                    return Run { output, end: End::Failed(e) };
                },
                _ => {},
            }
        }
    }

    /// The tape.
    pub fn memory(&self) -> (r: &Vec<u8>)
        ensures
            r@ == self@.tape,
    {
        &self.memory
    }

    /// The cursor.
    pub fn cursor(&self) -> (r: usize)
        ensures
            r == self@.cursor,
    {
        self.current_pointer
    }

    /// The loaded token stream.
    pub fn tokens(&self) -> (r: &Vec<u8>)
        ensures
            r@ == self@.tokens,
    {
        &self.tokens
    }

    /// The instruction pointer: the position of the next token to run.
    pub fn position(&self) -> (r: usize)
        ensures
            r == self@.ip,
    {
        self.current_token
    }

    /// The line counter.
    pub fn line(&self) -> (r: usize)
        ensures
            r == self@.line,
    {
        self.line
    }

    /// Whether a trace line is wanted before each dispatch.
    pub fn debug(&self) -> (r: bool)
        ensures
            r == self@.debug,
    {
        self.debug
    }
}

} // verus!
