use equation_solver::builder::{build, find_split};
use equation_solver::equation::Equation;
use equation_solver::error::CalcError;
use equation_solver::evaluate::{check_symbols, evaluate, is_supported};
use equation_solver::literal::parse_literal;
use equation_solver::operator::{is_operator, operator_from_char, Operator};

fn chars(s: &str) -> Vec<char> {
    s.chars().collect()
}

fn line(s: &str) -> Result<String, CalcError> {
    evaluate(chars(s)).map(|v| format!("{}={}", s, v))
}

#[test]
fn sum_of_two_literals() {
    assert_eq!(line("3+4"), Ok("3+4=7".to_string()));
}

#[test]
fn first_operator_splits_without_precedence() {
    // The split is at `+`, the first operator: 3 + (4 * 2).
    let e = build(chars("3+4*2")).unwrap();
    match &e {
        Equation::Expression { op, left, right } => {
            assert_eq!(*op, Operator::Plus);
            assert!(matches!(**left, Equation::Value(3)));
            assert!(matches!(**right, Equation::Expression { op: Operator::Multiplication, .. }));
        }
        Equation::Value(_) => panic!("expected an operator node"),
    }
    assert_eq!(line("3+4*2"), Ok("3+4*2=11".to_string()));
}

#[test]
fn group_then_product() {
    assert_eq!(line("(3+4)*2"), Ok("(3+4)*2=14".to_string()));
}

#[test]
fn chain_nests_to_the_right() {
    assert_eq!(line("10-3-2"), Ok("10-3-2=9".to_string()));
}

#[test]
fn invalid_character_is_rejected() {
    assert_eq!(evaluate(chars("3$4")), Err(CalcError::InvalidCharacter));
    assert_eq!(evaluate(chars("$")), Err(CalcError::InvalidCharacter));
    assert!(!check_symbols(&chars("1 + 2")));
    assert!(check_symbols(&chars("(1+2)x3-4*5")));
    assert!(!is_supported('y'));
    assert!(is_supported('x'));
}

#[test]
fn outer_parentheses_are_stripped() {
    assert_eq!(evaluate(chars("(3+4)")), Ok(7));
    let wrapped = build(chars("(3+4)")).unwrap();
    let bare = build(chars("3+4")).unwrap();
    assert!(matches!(wrapped, Equation::Expression { op: Operator::Plus, .. }));
    assert!(matches!(bare, Equation::Expression { op: Operator::Plus, .. }));
    assert_eq!(wrapped.solve(), bare.solve());
}

#[test]
fn literal_round_trip() {
    assert_eq!(evaluate(chars("42")), Ok(42));
    assert_eq!(evaluate(chars("0")), Ok(0));
    assert_eq!(evaluate(chars("007")), Ok(7));
    assert_eq!(evaluate(chars("2147483647")), Ok(i32::MAX));
    assert!(matches!(build(chars("123")), Ok(Equation::Value(123))));
}

#[test]
fn literal_too_large_is_malformed() {
    assert_eq!(evaluate(chars("2147483648")), Err(CalcError::MalformedExpression));
    assert_eq!(parse_literal(&chars("99999999999")), None);
}

#[test]
fn parse_literal_reads_digits() {
    assert_eq!(parse_literal(&chars("1234")), Some(1234));
    assert_eq!(parse_literal(&chars("")), None);
    assert_eq!(parse_literal(&chars("12a")), None);
    assert_eq!(parse_literal(&chars("(1")), None);
}

#[test]
fn evaluation_is_repeatable() {
    let first = evaluate(chars("(3+4)*2-5"));
    let second = evaluate(chars("(3+4)*2-5"));
    assert_eq!(first, second);
    // (3+4) * (2-5)
    assert_eq!(first, Ok(-21));
}

#[test]
fn malformed_inputs() {
    assert_eq!(evaluate(chars("")), Err(CalcError::MalformedExpression));
    assert_eq!(evaluate(chars("3+")), Err(CalcError::MalformedExpression));
    assert_eq!(evaluate(chars("+3")), Err(CalcError::MalformedExpression));
    assert_eq!(evaluate(chars("-3")), Err(CalcError::MalformedExpression));
    assert_eq!(evaluate(chars("()")), Err(CalcError::MalformedExpression));
    assert_eq!(evaluate(chars("(1)2")), Err(CalcError::MalformedExpression));
    assert!(build(chars("3+")).is_err());
}

#[test]
fn nested_groups_match_the_first_close() {
    // The group opened at the front ends at the first `)`, so the split is at `+`.
    assert_eq!(evaluate(chars("((1)+2)*3")), Err(CalcError::MalformedExpression));
    assert_eq!(evaluate(chars("((1+2)+3)")), Ok(6));
}

#[test]
fn unclosed_group_is_scanned_through() {
    // No `)` follows the `(`, so the `+` after it is the split point.
    assert_eq!(find_split(&chars("(1+2")), Some(2));
    assert_eq!(evaluate(chars("(1+2")), Err(CalcError::MalformedExpression));
}

#[test]
fn split_skips_groups() {
    assert_eq!(find_split(&chars("(1+2)*3")), Some(5));
    assert_eq!(find_split(&chars("12")), None);
    assert_eq!(find_split(&chars("1-2")), Some(1));
}

#[test]
fn x_denotes_multiplication() {
    assert_eq!(evaluate(chars("6x7")), Ok(42));
    assert_eq!(evaluate(chars("6*7")), Ok(42));
}

#[test]
fn overflow_is_reported() {
    assert_eq!(evaluate(chars("2147483647+1")), Err(CalcError::ArithmeticOverflow));
    assert_eq!(evaluate(chars("65536*65536")), Err(CalcError::ArithmeticOverflow));
    assert_eq!(evaluate(chars("0-2147483647-1")), Ok(-2147483646));
    assert_eq!(evaluate(chars("(0-2147483647)-1")), Ok(i32::MIN));
    assert_eq!(evaluate(chars("(0-2147483647)-2")), Err(CalcError::ArithmeticOverflow));
}

#[test]
fn operator_glyphs() {
    assert_eq!(operator_from_char(&'+'), Operator::Plus);
    assert_eq!(operator_from_char(&'-'), Operator::Minus);
    assert_eq!(operator_from_char(&'*'), Operator::Multiplication);
    assert_eq!(operator_from_char(&'x'), Operator::Multiplication);
    assert!(is_operator('x'));
    assert!(!is_operator('('));
}

#[test]
fn solve_hand_built_tree() {
    let e = Equation::Expression {
        op: Operator::Minus,
        left: Box::new(Equation::Value(10)),
        right: Box::new(Equation::Expression {
            op: Operator::Multiplication,
            left: Box::new(Equation::Value(-3)),
            right: Box::new(Equation::Value(4)),
        }),
    };
    assert_eq!(e.solve(), Ok(22));
    assert_eq!(Equation::Value(-5).solve(), Ok(-5));
}
