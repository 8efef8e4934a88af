use rpn_calc::error::EvalError;
use rpn_calc::lexer::tokenize;
use rpn_calc::rpn_calculator::RpnCalculator;
use rpn_calc::trace::TraceStep;

#[test]
fn test_ok() {
    let calc = RpnCalculator::new(false);
    assert_eq!(calc.eval("5").ok(), Some(5));
    assert_eq!(calc.eval("50").ok(), Some(50));
    assert_eq!(calc.eval("-50").ok(), Some(-50));

    assert_eq!(calc.eval("2 3 +").ok(), Some(5));
    assert_eq!(calc.eval("2 3 *").ok(), Some(6));
    assert_eq!(calc.eval("2 3 -").ok(), Some(-1));
    assert_eq!(calc.eval("2 3 /").ok(), Some(0));
    assert_eq!(calc.eval("2 3 %").ok(), Some(2));
}

#[test]
fn test_ng() {
    let calc = RpnCalculator::new(false);
    assert_eq!(calc.eval("1 1 ^").ok(), None);
}

#[test]
fn single_operands_evaluate_to_themselves() {
    let calc = RpnCalculator::new(false);
    for v in [0, 1, -1, 5, 50, -50, 12345, i32::MAX, i32::MIN] {
        assert_eq!(calc.eval(&format!("{}", v)), Ok(v));
    }
    assert_eq!(calc.eval("007"), Ok(7));
    assert_eq!(calc.eval("-0"), Ok(0));
    assert_eq!(calc.eval("  42\t"), Ok(42));
}

#[test]
fn binary_expressions_give_exact_values() {
    let calc = RpnCalculator::new(false);
    assert_eq!(calc.eval("2 3 +"), Ok(5));
    assert_eq!(calc.eval("2 3 *"), Ok(6));
    assert_eq!(calc.eval("2 3 -"), Ok(-1));
    assert_eq!(calc.eval("2 3 /"), Ok(0));
    assert_eq!(calc.eval("2 3 %"), Ok(2));
}

#[test]
fn left_operand_is_the_lower_one() {
    let calc = RpnCalculator::new(false);
    assert_eq!(calc.eval("10 4 -"), Ok(6));
    assert_eq!(calc.eval("10 4 /"), Ok(2));
    assert_eq!(calc.eval("10 4 %"), Ok(2));
    assert_eq!(calc.eval("4 10 -"), Ok(-6));
}

#[test]
fn longer_expressions() {
    let calc = RpnCalculator::new(false);
    assert_eq!(calc.eval("1 2 + 3 4 + *"), Ok(21));
    assert_eq!(calc.eval("5 1 2 + 4 * + 3 -"), Ok(14));
    assert_eq!(calc.eval("100 7 % 2 -"), Ok(0));
    assert_eq!(calc.eval("1 2 3 4 5 + + + +"), Ok(15));
}

#[test]
fn division_rounds_toward_zero() {
    let calc = RpnCalculator::new(false);
    assert_eq!(calc.eval("7 2 /"), Ok(3));
    assert_eq!(calc.eval("-7 2 /"), Ok(-3));
    assert_eq!(calc.eval("7 -2 /"), Ok(-3));
    assert_eq!(calc.eval("-7 -2 /"), Ok(3));
    assert_eq!(calc.eval("0 5 /"), Ok(0));
}

#[test]
fn remainder_takes_the_sign_of_the_dividend() {
    let calc = RpnCalculator::new(false);
    assert_eq!(calc.eval("7 2 %"), Ok(1));
    assert_eq!(calc.eval("-7 2 %"), Ok(-1));
    assert_eq!(calc.eval("7 -2 %"), Ok(1));
    assert_eq!(calc.eval("-7 -2 %"), Ok(-1));
    assert_eq!(calc.eval("6 3 %"), Ok(0));
}

#[test]
fn arithmetic_agrees_with_the_machine_integers() {
    let calc = RpnCalculator::new(false);
    let samples = [i32::MIN, i32::MIN + 1, -1000, -7, -2, -1, 0, 1, 2, 3, 7, 1000, i32::MAX - 1, i32::MAX];
    for x in samples {
        for y in samples {
            let line = |op: &str| format!("{} {} {}", x, y, op);
            let want = |v: Option<i32>| match v {
                Some(v) => Ok(v),
                None => Err(EvalError::Overflow(3)),
            };
            assert_eq!(calc.eval(&line("+")), want(x.checked_add(y)));
            assert_eq!(calc.eval(&line("-")), want(x.checked_sub(y)));
            assert_eq!(calc.eval(&line("*")), want(x.checked_mul(y)));
            if y == 0 {
                assert_eq!(calc.eval(&line("/")), Err(EvalError::DivisionByZero(3)));
                assert_eq!(calc.eval(&line("%")), Err(EvalError::DivisionByZero(3)));
            } else {
                assert_eq!(calc.eval(&line("/")), want(x.checked_div(y)));
                assert_eq!(calc.eval(&line("%")), want(x.checked_rem(y)));
            }
        }
    }
}

#[test]
fn unknown_operator_is_an_invalid_token_at_its_position() {
    let calc = RpnCalculator::new(false);
    assert_eq!(calc.eval("1 1 ^"), Err(EvalError::InvalidToken(3)));
    assert_eq!(calc.eval("1 2 3 foo"), Err(EvalError::InvalidToken(4)));
    assert_eq!(calc.eval("1 2 ++"), Err(EvalError::InvalidToken(3)));
    assert_eq!(calc.eval("1 2 1.5"), Err(EvalError::InvalidToken(3)));
}

#[test]
fn dangling_operator_is_invalid_syntax_at_its_position() {
    let calc = RpnCalculator::new(false);
    assert_eq!(calc.eval("1 +"), Err(EvalError::InvalidSyntaxAt(2)));
    assert_eq!(calc.eval("+"), Err(EvalError::InvalidSyntaxAt(1)));
    assert_eq!(calc.eval("1 2 + *"), Err(EvalError::InvalidSyntaxAt(4)));
}

#[test]
fn too_few_operands_is_reported_before_an_unknown_token() {
    let calc = RpnCalculator::new(false);
    assert_eq!(calc.eval("^"), Err(EvalError::InvalidSyntaxAt(1)));
    assert_eq!(calc.eval("1 ^"), Err(EvalError::InvalidSyntaxAt(2)));
    assert_eq!(calc.eval("abc 1 2 +"), Err(EvalError::InvalidSyntaxAt(1)));
}

#[test]
fn leftover_operands_are_invalid_syntax_without_position() {
    let calc = RpnCalculator::new(false);
    assert_eq!(calc.eval("1 2"), Err(EvalError::InvalidSyntax));
    assert_eq!(calc.eval("1 2 3 +"), Err(EvalError::InvalidSyntax));
    assert_eq!(EvalError::InvalidSyntax.position(), None);
}

#[test]
fn blank_lines_are_invalid_syntax() {
    let calc = RpnCalculator::new(false);
    assert_eq!(calc.eval(""), Err(EvalError::InvalidSyntax));
    assert_eq!(calc.eval(" "), Err(EvalError::InvalidSyntax));
    assert_eq!(calc.eval(" \t \r\n"), Err(EvalError::InvalidSyntax));
    assert_eq!(calc.eval("\u{3000}\u{a0}"), Err(EvalError::InvalidSyntax));
}

#[test]
fn first_failure_wins() {
    let calc = RpnCalculator::new(false);
    assert_eq!(calc.eval("1 + 2 ^"), Err(EvalError::InvalidSyntaxAt(2)));
    assert_eq!(calc.eval("1 2 ^ +"), Err(EvalError::InvalidToken(3)));
    assert_eq!(calc.eval("1 0 / 2 ^ ^"), Err(EvalError::DivisionByZero(3)));
}

#[test]
fn division_by_zero_is_an_error_of_its_own() {
    let calc = RpnCalculator::new(false);
    assert_eq!(calc.eval("1 0 /"), Err(EvalError::DivisionByZero(3)));
    assert_eq!(calc.eval("1 0 %"), Err(EvalError::DivisionByZero(3)));
    assert_eq!(calc.eval("4 2 2 - /"), Err(EvalError::DivisionByZero(5)));
    assert_eq!(calc.eval("0 0 /"), Err(EvalError::DivisionByZero(3)));
}

#[test]
fn overflow_is_an_error_of_its_own() {
    let calc = RpnCalculator::new(false);
    assert_eq!(calc.eval("2147483647 1 +"), Err(EvalError::Overflow(3)));
    assert_eq!(calc.eval("-2147483648 1 -"), Err(EvalError::Overflow(3)));
    assert_eq!(calc.eval("65536 65536 *"), Err(EvalError::Overflow(3)));
    assert_eq!(calc.eval("-2147483648 -1 /"), Err(EvalError::Overflow(3)));
    assert_eq!(calc.eval("-2147483648 -1 %"), Err(EvalError::Overflow(3)));
    assert_eq!(calc.eval("2147483647 1 + 5 ^"), Err(EvalError::Overflow(3)));
    assert_eq!(calc.eval("-2147483648 1 /"), Ok(i32::MIN));
    assert_eq!(calc.eval("-2147483648 2 %"), Ok(0));
}

#[test]
fn literals_out_of_range_are_no_operands() {
    let calc = RpnCalculator::new(false);
    assert_eq!(calc.eval("2147483648"), Err(EvalError::InvalidSyntaxAt(1)));
    assert_eq!(calc.eval("-2147483649"), Err(EvalError::InvalidSyntaxAt(1)));
    assert_eq!(calc.eval("1 2 2147483648"), Err(EvalError::InvalidToken(3)));
    assert_eq!(calc.eval("1 2 99999999999999999999999999"), Err(EvalError::InvalidToken(3)));
}

#[test]
fn same_line_twice_gives_the_same_result() {
    let calc = RpnCalculator::new(false);
    for line in ["1 2 +", "1 +", "1 2", "", "1 1 ^", "7 0 /", "3 4 * 5 -"] {
        let first = calc.eval(line);
        let other = calc.eval("9 9 9");
        assert_eq!(other, Err(EvalError::InvalidSyntax));
        let second = calc.eval(line);
        assert_eq!(first, second);
    }
}

#[test]
fn verbosity_does_not_change_the_result() {
    let quiet = RpnCalculator::new(false);
    let verbose = RpnCalculator::new(true);
    assert!(!quiet.verbose());
    assert!(verbose.verbose());
    for line in ["1 2 +", "1 +", "1 2", "", "1 1 ^", "7 0 /", "3 4 * 5 -", "2147483647 1 +"] {
        assert_eq!(quiet.eval(line), verbose.eval(line));
        let tokens = tokenize(line);
        assert_eq!(quiet.eval_inner(&tokens).0, verbose.eval_inner(&tokens).0);
        assert_eq!(quiet.eval_inner(&tokens).0, quiet.eval(line));
    }
}

#[test]
fn quiet_calculator_records_no_trace() {
    let quiet = RpnCalculator::new(false);
    let (result, trace) = quiet.eval_inner(&tokenize("1 2 + 3 *"));
    assert_eq!(result, Ok(9));
    assert_eq!(trace, Vec::<TraceStep>::new());
}

#[test]
fn verbose_calculator_records_the_stack_after_each_token() {
    let verbose = RpnCalculator::new(true);
    let (result, trace) = verbose.eval_inner(&tokenize("1 2 + 3 *"));
    assert_eq!(result, Ok(9));
    assert_eq!(
        trace,
        vec![
            TraceStep { position: 1, stack: vec![1] },
            TraceStep { position: 2, stack: vec![1, 2] },
            TraceStep { position: 3, stack: vec![3] },
            TraceStep { position: 4, stack: vec![3, 3] },
            TraceStep { position: 5, stack: vec![9] },
        ]
    );
}

#[test]
fn trace_stops_before_the_failing_token() {
    let verbose = RpnCalculator::new(true);
    let (result, trace) = verbose.eval_inner(&tokenize("4 5 ^ 6"));
    assert_eq!(result, Err(EvalError::InvalidToken(3)));
    assert_eq!(
        trace,
        vec![
            TraceStep { position: 1, stack: vec![4] },
            TraceStep { position: 2, stack: vec![4, 5] },
        ]
    );
    let (result, trace) = verbose.eval_inner(&tokenize("+"));
    assert_eq!(result, Err(EvalError::InvalidSyntaxAt(1)));
    assert_eq!(trace, Vec::<TraceStep>::new());
}

#[test]
fn trace_is_complete_where_only_the_end_fails() {
    let verbose = RpnCalculator::new(true);
    let (result, trace) = verbose.eval_inner(&tokenize("1 2"));
    assert_eq!(result, Err(EvalError::InvalidSyntax));
    assert_eq!(
        trace,
        vec![
            TraceStep { position: 1, stack: vec![1] },
            TraceStep { position: 2, stack: vec![1, 2] },
        ]
    );
    let (result, trace) = verbose.eval_inner(&tokenize(""));
    assert_eq!(result, Err(EvalError::InvalidSyntax));
    assert_eq!(trace, Vec::<TraceStep>::new());
}

#[test]
fn error_positions() {
    assert_eq!(EvalError::InvalidToken(3).position(), Some(3));
    assert_eq!(EvalError::InvalidSyntaxAt(2).position(), Some(2));
    assert_eq!(EvalError::InvalidSyntax.position(), None);
    assert_eq!(EvalError::DivisionByZero(7).position(), Some(7));
    assert_eq!(EvalError::Overflow(9).position(), Some(9));
}
