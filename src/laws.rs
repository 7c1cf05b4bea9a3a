//! Facts about the engine that hold for every state and every program.
use vstd::prelude::*;

use crate::engine::{
    backward_match, forward_match, loaded, next, run, EngineState, InterpretError, Step,
    CARRIAGE_RETURN, CLOSE_BLOCK, MOVE_LEFT, MOVE_RIGHT, NEWLINE, OPEN_BLOCK, SPACE, TAB,
};
use crate::scanner::{lemma_scan_ignores_case, same_ignoring_case};

verus! {

/// The forward scan finds the nearest `]` at or after `from`.
pub proof fn lemma_forward_match_nearest(t: Seq<u8>, from: int, j: int)
    requires
        0 <= from <= j < t.len(),
        t[j] == CLOSE_BLOCK,
        forall|k: int| from <= k < j ==> t[k] != CLOSE_BLOCK,
    ensures
        forward_match(t, from) == Some(j),
    decreases j - from,
{
    if from < j {
        lemma_forward_match_nearest(t, from + 1, j);
    }
}

/// The forward scan finds nothing when no `]` lies at or after `from`.
pub proof fn lemma_forward_match_none(t: Seq<u8>, from: int)
    requires
        0 <= from,
        forall|k: int| from <= k < t.len() ==> t[k] != CLOSE_BLOCK,
    ensures
        forward_match(t, from) is None,
    decreases t.len() - from,
{
    if from < t.len() {
        lemma_forward_match_none(t, from + 1);
    }
}

/// The backward scan finds the nearest `[` before `before`.
pub proof fn lemma_backward_match_nearest(t: Seq<u8>, before: int, j: int)
    requires
        0 <= j < before <= t.len(),
        t[j] == OPEN_BLOCK,
        forall|k: int| j < k < before ==> t[k] != OPEN_BLOCK,
    ensures
        backward_match(t, before) == Some(j),
    decreases before - j,
{
    if j < before - 1 {
        lemma_backward_match_nearest(t, before - 1, j);
    }
}

/// The backward scan finds nothing when no `[` lies before `before`.
pub proof fn lemma_backward_match_none(t: Seq<u8>, before: int)
    requires
        before <= t.len(),
        forall|k: int| 0 <= k < before ==> t[k] != OPEN_BLOCK,
    ensures
        backward_match(t, before) is None,
    decreases before,
{
    if before > 0 {
        lemma_backward_match_none(t, before - 1);
    }
}

/// The cursor wraps: `<` on the first cell moves it to the last cell, and
/// `>` on the last cell moves it to the first.
pub proof fn lemma_cursor_wraps(s: EngineState)
    requires
        s.wf(),
        s.ip < s.tokens.len(),
    ensures
        s.tokens[s.ip] == MOVE_LEFT && s.cursor == 0 ==> next(s).0.cursor == s.tape.len() - 1,
        s.tokens[s.ip] == MOVE_RIGHT && s.cursor == s.tape.len() - 1 ==> next(s).0.cursor == 0,
{
}

/// Whitespace and newlines leave the tape, the cursor and the tokens as they
/// are and move the instruction pointer one place on; space, tab and carriage
/// return change nothing else either.
pub proof fn lemma_blank_is_no_op(s: EngineState)
    requires
        s.wf(),
        s.ip < s.tokens.len(),
        s.tokens[s.ip] == SPACE || s.tokens[s.ip] == TAB || s.tokens[s.ip] == CARRIAGE_RETURN
            || s.tokens[s.ip] == NEWLINE,
    ensures
        next(s).1 == Step::Continue,
        next(s).0.tape == s.tape,
        next(s).0.cursor == s.cursor,
        next(s).0.tokens == s.tokens,
        next(s).0.ip == s.ip + 1,
        s.tokens[s.ip] != NEWLINE ==> next(s).0 == (EngineState { ip: s.ip + 1, ..s }),
{
}

/// A `[` on a zero cell moves the instruction pointer to the nearest `]`
/// after it, skipping the block, and changes nothing else.
pub proof fn lemma_loop_skip(s: EngineState, j: int)
    requires
        s.wf(),
        s.ip < j < s.tokens.len(),
        s.tokens[s.ip] == OPEN_BLOCK,
        s.cell() == 0,
        s.tokens[j] == CLOSE_BLOCK,
        forall|k: int| s.ip < k < j ==> s.tokens[k] != CLOSE_BLOCK,
    ensures
        next(s) == (EngineState { ip: j, ..s }, Step::Continue),
{
    lemma_forward_match_nearest(s.tokens, s.ip + 1, j);
}

/// A `[` on a zero cell with no `]` after it is an unterminated block.
pub proof fn lemma_loop_skip_unterminated(s: EngineState)
    requires
        s.wf(),
        s.ip < s.tokens.len(),
        s.tokens[s.ip] == OPEN_BLOCK,
        s.cell() == 0,
        forall|k: int| s.ip < k < s.tokens.len() ==> s.tokens[k] != CLOSE_BLOCK,
    ensures
        next(s).1 == Step::Failed(
            InterpretError::UnterminatedBlock { bracket: OPEN_BLOCK, line: s.line },
        ),
{
    lemma_forward_match_none(s.tokens, s.ip + 1);
}

/// A `]` on a nonzero cell moves the instruction pointer to the nearest `[`
/// before it, re-entering the block, and changes nothing else.
pub proof fn lemma_loop_reentry(s: EngineState, j: int)
    requires
        s.wf(),
        0 <= j < s.ip < s.tokens.len(),
        s.tokens[s.ip] == CLOSE_BLOCK,
        s.cell() != 0,
        s.tokens[j] == OPEN_BLOCK,
        forall|k: int| j < k < s.ip ==> s.tokens[k] != OPEN_BLOCK,
    ensures
        next(s) == (EngineState { ip: j, ..s }, Step::Continue),
{
    lemma_backward_match_nearest(s.tokens, s.ip, j);
}

/// A `]` on a nonzero cell with no `[` before it is an unterminated block.
pub proof fn lemma_loop_reentry_unterminated(s: EngineState)
    requires
        s.wf(),
        s.ip < s.tokens.len(),
        s.tokens[s.ip] == CLOSE_BLOCK,
        s.cell() != 0,
        forall|k: int| 0 <= k < s.ip ==> s.tokens[k] != OPEN_BLOCK,
    ensures
        next(s).1 == Step::Failed(
            InterpretError::UnterminatedBlock { bracket: CLOSE_BLOCK, line: s.line },
        ),
{
    lemma_backward_match_none(s.tokens, s.ip);
}

/// Two sources that differ only in ASCII case run alike: from the same
/// engine state, with the same budget, they reach the same state, emit the
/// same bytes and end the same way.
pub proof fn lemma_case_insensitive(s: EngineState, a: Seq<u8>, b: Seq<u8>, fuel: nat)
    requires
        same_ignoring_case(a, b),
    ensures
        loaded(s, a) == loaded(s, b),
        run(loaded(s, a), fuel) == run(loaded(s, b), fuel),
{
    lemma_scan_ignores_case(a, b);
}

} // verus!
