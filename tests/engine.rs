use brainfuck::engine::{CLOSE_BLOCK, OPEN_BLOCK};
use brainfuck::scan_source;
use brainfuck::{End, InterpretError, Interpreter, Step};

fn run_source(size: usize, source: &[u8]) -> (Interpreter, brainfuck::Run) {
    let mut e = Interpreter::new(size, false);
    let r = e.interpret(source, 10_000);
    (e, r)
}

#[test]
fn new_engine_is_zeroed() {
    let e = Interpreter::new(4, true);
    assert_eq!(e.memory().as_slice(), &[0u8, 0, 0, 0]);
    assert_eq!(e.cursor(), 0);
    assert_eq!(e.position(), 0);
    assert_eq!(e.line(), 1);
    assert!(e.debug());
    assert!(e.tokens().is_empty());
}

#[test]
fn scan_folds_case_and_keeps_whitespace() {
    assert_eq!(scan_source(b"AbZ [x]\n\t"), b"abz [x]\n\t".to_vec());
    assert_eq!(scan_source(b""), Vec::<u8>::new());
    assert_eq!(scan_source(b"@[`{"), b"@[`{".to_vec());
}

#[test]
fn cursor_wraps_left_from_first_cell() {
    let (e, r) = run_source(5, b"<");
    assert_eq!(r.end, End::Finished);
    assert_eq!(e.cursor(), 4);
}

#[test]
fn cursor_wraps_right_from_last_cell() {
    let (e, r) = run_source(3, b">>>");
    assert_eq!(r.end, End::Finished);
    assert_eq!(e.cursor(), 0);
    let (e, _) = run_source(3, b">>");
    assert_eq!(e.cursor(), 2);
}

#[test]
fn cursor_on_single_cell_tape_stays() {
    let (e, _) = run_source(1, b"><");
    assert_eq!(e.cursor(), 0);
}

#[test]
fn cell_wraps_up_from_255() {
    let source = vec![b'+'; 256];
    let (e, r) = run_source(1, &source);
    assert_eq!(r.end, End::Finished);
    assert_eq!(e.memory()[0], 0);
}

#[test]
fn cell_wraps_down_from_0() {
    let (e, r) = run_source(1, b"-.");
    assert_eq!(r.end, End::Finished);
    assert_eq!(e.memory()[0], 255);
    assert_eq!(r.output, vec![255u8]);
}

#[test]
fn blanks_change_nothing_but_the_position() {
    let mut e = Interpreter::new(2, false);
    e.load(b"+> \t\r");
    assert_eq!(e.step(), Step::Continue);
    assert_eq!(e.step(), Step::Continue);
    for expected in 3..6 {
        assert_eq!(e.step(), Step::Continue);
        assert_eq!(e.position(), expected);
        assert_eq!(e.cursor(), 1);
        assert_eq!(e.memory().as_slice(), &[1u8, 0]);
        assert_eq!(e.line(), 1);
    }
    assert_eq!(e.step(), Step::Halt);
}

#[test]
fn newline_advances_the_line_only() {
    let mut e = Interpreter::new(1, false);
    e.load(b"\n\n");
    assert_eq!(e.step(), Step::Continue);
    assert_eq!(e.line(), 2);
    assert_eq!(e.step(), Step::Continue);
    assert_eq!(e.line(), 3);
    assert_eq!(e.position(), 2);
    assert_eq!(e.memory().as_slice(), &[0u8]);
}

#[test]
fn open_block_on_zero_skips_to_nearest_close() {
    let mut e = Interpreter::new(1, false);
    e.load(b"[+]+]");
    assert_eq!(e.step(), Step::Continue);
    assert_eq!(e.position(), 2);
    assert_eq!(e.tokens()[2], CLOSE_BLOCK);
    assert_eq!(e.memory()[0], 0);
}

#[test]
fn open_block_on_nonzero_enters_the_body() {
    let mut e = Interpreter::new(1, false);
    e.load(b"+[-]");
    e.step();
    assert_eq!(e.step(), Step::Continue);
    assert_eq!(e.position(), 2);
}

#[test]
fn close_block_on_nonzero_returns_to_nearest_open() {
    let mut e = Interpreter::new(1, false);
    e.load(b"[[+]");
    e.step();
    assert_eq!(e.position(), 3);
    let mut e = Interpreter::new(1, false);
    e.load(b"+[[]");
    for _ in 0..4 {
        e.step();
    }
    assert_eq!(e.position(), 2);
    assert_eq!(e.tokens()[2], OPEN_BLOCK);
}

#[test]
fn close_block_on_zero_falls_through() {
    let (e, r) = run_source(1, b"]");
    assert_eq!(r.end, End::Finished);
    assert_eq!(e.position(), 1);
}

#[test]
fn close_block_without_open_is_unterminated() {
    let (_, r) = run_source(1, b"+\n]");
    assert_eq!(
        r.end,
        End::Failed(InterpretError::UnterminatedBlock { bracket: CLOSE_BLOCK, line: 2 })
    );
}

#[test]
fn mixed_case_sources_run_alike() {
    let mut a = Interpreter::new(3, false);
    let mut b = Interpreter::new(3, false);
    let ra = a.interpret(b"++.X", 100);
    let rb = b.interpret(b"++.x", 100);
    assert_eq!(ra.output, rb.output);
    assert_eq!(ra.end, rb.end);
    assert_eq!(a.memory(), b.memory());
    assert_eq!(a.position(), b.position());
    assert_eq!(a.tokens(), b.tokens());
}

#[test]
fn emits_three_and_finishes() {
    let (_, r) = run_source(1, b"+++.");
    assert_eq!(r.output, vec![3u8]);
    assert_eq!(r.end, End::Finished);
}

#[test]
fn decrement_loop_runs_once_and_finishes_silently() {
    let mut e = Interpreter::new(1, false);
    e.load(b"+[-]");
    let mut steps = 0;
    loop {
        match e.step() {
            Step::Halt => break,
            Step::Continue => steps += 1,
            other => panic!("unexpected {:?}", other),
        }
    }
    assert_eq!(steps, 4);
    assert_eq!(e.memory()[0], 0);
    let (_, r) = run_source(1, b"+[-]");
    assert!(r.output.is_empty());
    assert_eq!(r.end, End::Finished);
}

#[test]
fn open_without_close_is_unterminated() {
    let (_, r) = run_source(4, b"[+");
    assert_eq!(
        r.end,
        End::Failed(InterpretError::UnterminatedBlock { bracket: OPEN_BLOCK, line: 1 })
    );
    let (_, r) = run_source(4, b"]\n[");
    assert_eq!(
        r.end,
        End::Failed(InterpretError::UnterminatedBlock { bracket: OPEN_BLOCK, line: 2 })
    );
}

#[test]
fn invalid_token_names_byte_and_line() {
    let (_, r) = run_source(1, b"+\n\n+x+");
    assert_eq!(
        r.end,
        End::Failed(InterpretError::InvalidToken { token: b'x', line: 3 })
    );
    let (_, r) = run_source(1, b"X");
    assert_eq!(
        r.end,
        End::Failed(InterpretError::InvalidToken { token: b'x', line: 1 })
    );
}

#[test]
fn nul_byte_is_an_invalid_token() {
    let (_, r) = run_source(1, b"+\0.");
    assert_eq!(
        r.end,
        End::Failed(InterpretError::InvalidToken { token: 0, line: 1 })
    );
    assert!(r.output.is_empty());
}

#[test]
fn endless_loop_runs_out_of_steps() {
    let mut e = Interpreter::new(1, false);
    let r = e.interpret(b"+[]", 50);
    assert_eq!(r.end, End::OutOfSteps);
    assert!(r.output.is_empty());
}

#[test]
fn output_comes_in_program_order() {
    let (_, r) = run_source(2, b"+.>++.<.");
    assert_eq!(r.output, vec![1u8, 2, 1]);
}

#[test]
fn load_keeps_tape_and_cursor() {
    let mut e = Interpreter::new(2, false);
    e.interpret(b"+>+++", 100);
    e.load(b".");
    assert_eq!(e.cursor(), 1);
    assert_eq!(e.position(), 0);
    assert_eq!(e.line(), 1);
    assert_eq!(e.step(), Step::Output(3));
}

#[test]
fn step_at_end_halts() {
    let mut e = Interpreter::new(1, false);
    assert_eq!(e.step(), Step::Halt);
    assert_eq!(e.position(), 0);
}
