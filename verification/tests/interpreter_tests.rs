use tape_machine::interpreter::{
    Bound, Interpreter, Interrupted, OutOfRangeError, RunError, State,
};
use tape_machine::parser::{parse, Symbol};

const LIMIT: u64 = 100_000;

fn run_source(
    source: &str,
    input: &[u8],
    limit: u64,
) -> (Interpreter, Vec<char>, Result<(), RunError>) {
    let code = parse(source.as_bytes()).unwrap();
    let mut vm = Interpreter::new();
    let mut output: Vec<char> = Vec::new();
    let result = vm.run(code, input, &mut output, limit);
    (vm, output, result)
}

#[test]
fn it_runs() {
    let code = parse("+++[-]>++<++".as_bytes());
    assert!(code.is_ok());

    let mut vm = Interpreter::new();
    let mut output: Vec<char> = Vec::new();
    let result = vm.run(code.unwrap(), &[], &mut output, LIMIT);
    assert!(result.is_ok());
    assert_eq!(*vm.mem(), vec![2, 2]);
}

#[test]
fn fresh_engine_has_one_zero_cell() {
    let vm = Interpreter::new();
    assert_eq!(*vm.mem(), vec![0]);
    assert_eq!(vm.index(), 0);
    assert_eq!(vm.state(), State::Normal);
}

#[test]
fn empty_program_succeeds_at_once() {
    let (vm, output, result) = run_source("", &[], 0);
    assert_eq!(result, Ok(()));
    assert_eq!(*vm.mem(), vec![0]);
    assert!(output.is_empty());
}

#[test]
fn moves_and_increments() {
    let (vm, output, result) = run_source("++>++<++", &[], LIMIT);
    assert_eq!(result, Ok(()));
    assert_eq!(*vm.mem(), vec![4, 2]);
    assert_eq!(vm.index(), 0);
    assert!(output.is_empty());
}

#[test]
fn two_cells_of_two() {
    let (vm, _, result) = run_source("++>++<", &[], LIMIT);
    assert_eq!(result, Ok(()));
    assert_eq!(*vm.mem(), vec![2, 2]);
    assert_eq!(vm.index(), 0);
}

#[test]
fn loop_counts_down_to_zero() {
    let (vm, _, result) = run_source("+++[-]", &[], LIMIT);
    assert_eq!(result, Ok(()));
    assert_eq!(*vm.mem(), vec![0]);
    assert_eq!(vm.state(), State::Normal);
}

#[test]
fn loop_with_zero_guard_is_skipped() {
    let (vm, output, result) = run_source("[+>.,<]+", &[], LIMIT);
    assert_eq!(result, Ok(()));
    assert_eq!(*vm.mem(), vec![1]);
    assert!(output.is_empty());
}

#[test]
fn backward_from_first_cell_underflows() {
    let (vm, _, result) = run_source("<", &[], LIMIT);
    assert_eq!(
        result,
        Err(RunError::OutOfRange(OutOfRangeError(Bound::Underflow)))
    );
    assert_eq!(*vm.mem(), vec![0]);
    assert_eq!(vm.index(), 0);
}

#[test]
fn unmatched_loop_end_walks_off_the_front() {
    let (vm, _, result) = run_source("+]", &[], LIMIT);
    assert_eq!(
        result,
        Err(RunError::OutOfRange(OutOfRangeError(Bound::Underflow)))
    );
    assert_eq!(*vm.mem(), vec![1]);
    assert_eq!(vm.state(), State::SkippingBackward);
}

#[test]
fn input_on_exhausted_source_is_interrupted() {
    let (vm, output, result) = run_source(",", &[], LIMIT);
    assert_eq!(result, Err(RunError::Interrupted(Interrupted)));
    assert_eq!(*vm.mem(), vec![0]);
    assert!(output.is_empty());
}

#[test]
fn interruption_keeps_the_tape_reached_so_far() {
    let (vm, _, result) = run_source("+>,>,", &[7], LIMIT);
    assert_eq!(result, Err(RunError::Interrupted(Interrupted)));
    assert_eq!(*vm.mem(), vec![1, 7, 0]);
    assert_eq!(vm.index(), 2);
}

#[test]
fn input_is_stored_and_echoed() {
    let (vm, output, result) = run_source(",.>,.", b"ok", LIMIT);
    assert_eq!(result, Ok(()));
    assert_eq!(*vm.mem(), vec![b'o', b'k']);
    assert_eq!(output, vec!['o', 'k']);
}

#[test]
fn output_writes_each_character_once_in_order() {
    let mut source = String::new();
    for _ in 0..72 {
        source.push('+');
    }
    source.push_str(".+.");
    let (vm, output, result) = run_source(&source, &[], LIMIT);
    assert_eq!(result, Ok(()));
    assert_eq!(output.iter().collect::<String>(), "HI");
    assert_eq!(*vm.mem(), vec![73]);
}

#[test]
fn output_is_appended_to_what_the_sink_holds() {
    let code = parse(b"+.").unwrap();
    let mut vm = Interpreter::new();
    let mut output: Vec<char> = vec!['>'];
    let result = vm.run(code, &[], &mut output, LIMIT);
    assert_eq!(result, Ok(()));
    assert_eq!(output, vec!['>', '\u{1}']);
}

#[test]
fn output_of_a_high_cell_is_its_code_point() {
    let (_, output, result) = run_source("-.", &[], LIMIT);
    assert_eq!(result, Ok(()));
    assert_eq!(output, vec!['\u{ff}']);
}

#[test]
fn cells_wrap_around() {
    let (vm, _, result) = run_source("->+", &[], LIMIT);
    assert_eq!(result, Ok(()));
    assert_eq!(*vm.mem(), vec![255, 1]);
    let mut source = String::new();
    for _ in 0..256 {
        source.push('+');
    }
    let (vm, _, result) = run_source(&source, &[], LIMIT);
    assert_eq!(result, Ok(()));
    assert_eq!(*vm.mem(), vec![0]);
}

#[test]
fn tape_grows_by_one_cell_per_new_position() {
    let (vm, _, result) = run_source(">>><<>>>", &[], LIMIT);
    assert_eq!(result, Ok(()));
    assert_eq!(*vm.mem(), vec![0, 0, 0, 0, 0]);
    assert_eq!(vm.index(), 4);
}

#[test]
fn skip_ends_at_the_first_bracket_of_its_kind() {
    // The skip that the outer `[` starts ends at the inner `]`, so the `+`
    // after it acts and the outer `]` then loops back.
    let (vm, _, result) = run_source("[[-]+]", &[], 6);
    assert_eq!(*vm.mem(), vec![1]);
    assert_eq!(vm.state(), State::SkippingBackward);
    assert_eq!(result, Err(RunError::StepLimit));
    // With a zero guard and no inner loop the body is passed over whole.
    let (vm, _, result) = run_source("[>+<]>", &[], LIMIT);
    assert_eq!(result, Ok(()));
    assert_eq!(*vm.mem(), vec![0, 0]);
}

#[test]
fn backward_skip_reenters_at_the_inner_loop_start() {
    // The outer `]` skips back to the nearest `[`, which is the inner one,
    // so the inner body runs once more with the cursor on the first cell.
    let (vm, _, result) = run_source("++[>++[>+<-]<-]", &[], LIMIT);
    assert_eq!(
        result,
        Err(RunError::OutOfRange(OutOfRangeError(Bound::Underflow)))
    );
    assert_eq!(*vm.mem(), vec![0, 1, 2]);
    assert_eq!(vm.index(), 0);
}

#[test]
fn loop_moves_a_cell() {
    let (vm, _, result) = run_source("+++[->++<]", &[], LIMIT);
    assert_eq!(result, Ok(()));
    assert_eq!(*vm.mem(), vec![0, 6]);
    assert_eq!(vm.index(), 0);
}

#[test]
fn endless_loop_stops_at_the_limit() {
    let (vm, _, result) = run_source("+[]", &[], 1000);
    assert_eq!(result, Err(RunError::StepLimit));
    assert_eq!(*vm.mem(), vec![1]);
}

#[test]
fn limit_counts_instructions() {
    let (vm, _, result) = run_source("+++", &[], 2);
    assert_eq!(result, Err(RunError::StepLimit));
    assert_eq!(*vm.mem(), vec![2]);
    let (vm, _, result) = run_source("+++", &[], 3);
    assert_eq!(result, Ok(()));
    assert_eq!(*vm.mem(), vec![3]);
    let (vm, _, result) = run_source("+++", &[], 4);
    assert_eq!(result, Ok(()));
    assert_eq!(*vm.mem(), vec![3]);
}

#[test]
fn two_fresh_engines_agree() {
    let source = ",[.-]>,.<+";
    let (first, first_output, first_result) = run_source(source, b"\x05A", LIMIT);
    let (second, second_output, second_result) = run_source(source, b"\x05A", LIMIT);
    assert_eq!(first_result, Ok(()));
    assert_eq!(first_result, second_result);
    assert_eq!(*first.mem(), *second.mem());
    assert_eq!(*first.mem(), vec![1, b'A']);
    assert_eq!(first_output, second_output);
    assert_eq!(first_output, vec!['\u{5}', '\u{4}', '\u{3}', '\u{2}', '\u{1}', 'A']);
}

#[test]
fn step_executes_one_instruction() {
    let mut vm = Interpreter::new();
    assert_eq!(vm.step(Symbol::ValueIncrement, None), Ok(None));
    assert_eq!(vm.step(Symbol::PutCharacter, None), Ok(Some('\u{1}')));
    assert!(vm.wants_input(Symbol::GetCharacter));
    assert!(!vm.wants_input(Symbol::PutCharacter));
    assert_eq!(vm.step(Symbol::GetCharacter, Some(b'z')), Ok(None));
    assert_eq!(*vm.mem(), vec![b'z']);
    assert_eq!(
        vm.step(Symbol::GetCharacter, None),
        Err(RunError::Interrupted(Interrupted))
    );
    assert_eq!(*vm.mem(), vec![b'z']);
    assert_eq!(
        vm.step(Symbol::PointerDecrement, None),
        Err(RunError::OutOfRange(OutOfRangeError(Bound::Underflow)))
    );
    assert_eq!(vm.step(Symbol::PointerIncrement, None), Ok(None));
    assert_eq!(*vm.mem(), vec![b'z', 0]);
    assert_eq!(vm.index(), 1);
}

#[test]
fn step_follows_the_loop_control_table() {
    let mut vm = Interpreter::new();
    // Normal, zero guard: a loop start begins a forward skip.
    assert_eq!(vm.step(Symbol::ForwardJump, None), Ok(None));
    assert_eq!(vm.state(), State::SkippingForward);
    // While skipping forward nothing acts, and a loop start changes nothing.
    assert!(!vm.wants_input(Symbol::GetCharacter));
    assert_eq!(vm.step(Symbol::ValueIncrement, None), Ok(None));
    assert_eq!(vm.step(Symbol::PointerDecrement, None), Ok(None));
    assert_eq!(vm.step(Symbol::GetCharacter, None), Ok(None));
    assert_eq!(vm.step(Symbol::PutCharacter, None), Ok(None));
    assert_eq!(vm.step(Symbol::ForwardJump, None), Ok(None));
    assert_eq!(vm.state(), State::SkippingForward);
    assert_eq!(*vm.mem(), vec![0]);
    // A loop end ends the forward skip.
    assert_eq!(vm.step(Symbol::BackwardJump, None), Ok(None));
    assert_eq!(vm.state(), State::Normal);
    // Normal, zero guard: a loop end falls through.
    assert_eq!(vm.step(Symbol::BackwardJump, None), Ok(None));
    assert_eq!(vm.state(), State::Normal);
    // Normal, guard not zero: a loop start enters, a loop end skips back.
    assert_eq!(vm.step(Symbol::ValueIncrement, None), Ok(None));
    assert_eq!(vm.step(Symbol::ForwardJump, None), Ok(None));
    assert_eq!(vm.state(), State::Normal);
    assert_eq!(vm.step(Symbol::BackwardJump, None), Ok(None));
    assert_eq!(vm.state(), State::SkippingBackward);
    assert_eq!(vm.step(Symbol::BackwardJump, None), Ok(None));
    assert_eq!(vm.state(), State::SkippingBackward);
    assert_eq!(vm.step(Symbol::ValueDecrement, None), Ok(None));
    assert_eq!(*vm.mem(), vec![1]);
    // A loop start ends the backward skip.
    assert_eq!(vm.step(Symbol::ForwardJump, None), Ok(None));
    assert_eq!(vm.state(), State::Normal);
}

#[test]
fn advance_moves_by_one_in_the_direction_of_the_state() {
    let mut vm = Interpreter::new();
    assert_eq!(vm.advance(0), Ok(1));
    assert_eq!(vm.advance(41), Ok(42));
    assert_eq!(
        vm.advance(usize::MAX),
        Err(OutOfRangeError(Bound::Overflow))
    );
    assert_eq!(vm.step(Symbol::ForwardJump, None), Ok(None));
    assert_eq!(vm.state(), State::SkippingForward);
    assert_eq!(vm.advance(3), Ok(4));
    assert_eq!(vm.step(Symbol::BackwardJump, None), Ok(None));
    assert_eq!(vm.step(Symbol::ValueIncrement, None), Ok(None));
    assert_eq!(vm.step(Symbol::BackwardJump, None), Ok(None));
    assert_eq!(vm.state(), State::SkippingBackward);
    assert_eq!(vm.advance(3), Ok(2));
    assert_eq!(vm.advance(0), Err(OutOfRangeError(Bound::Underflow)));
}
