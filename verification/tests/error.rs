use lox::error::{check_number_operands, check_string_operands, LoxError, RuntimeError, SyntaxError};
use lox::number::Number;
use lox::object::Object;
use lox::token::{Token, TokenType};

fn plus_on_line(line: usize) -> Token {
    Token::new(TokenType::Plus, "+", None, line)
}

fn one() -> Object {
    Object::Num(Number::from_bits(1.0f64.to_bits()))
}

#[test]
fn a_syntax_error_keeps_its_line_and_message() {
    let error = SyntaxError::new(12, "Unexpected character".to_string());
    assert_eq!(error.line(), 12);
    assert_eq!(error.message(), "Unexpected character");
    let copy = error.clone();
    assert_eq!((copy.line(), copy.message()), (12, "Unexpected character"));
}

#[test]
fn a_syntax_error_as_text() {
    let error = SyntaxError::new(12, "Unexpected character".to_string());
    assert_eq!(error.to_string(), "Syntax error: [line 12] Unexpected character.");
    assert_eq!(error.report(""), "[line 12] Error: Unexpected character");
    assert_eq!(error.report(" at end"), "[line 12] Error at end: Unexpected character");
    assert_eq!(
        SyntaxError::new(0, String::new()).to_string(),
        "Syntax error: [line 0] ."
    );
}

#[test]
fn line_numbers_are_written_in_decimal() {
    for line in [0usize, 1, 9, 10, 11, 99, 100, 101, 1234567890, usize::MAX] {
        let error = SyntaxError::new(line, "m".to_string());
        assert_eq!(error.to_string(), format!("Syntax error: [line {line}] m."));
        assert_eq!(error.report(""), format!("[line {line}] Error: m"));
    }
}

#[test]
fn a_runtime_error_keeps_its_operator_and_message() {
    let error = RuntimeError::new(plus_on_line(3), "Operands must be numbers.".to_string());
    assert_eq!(error.token().typ, TokenType::Plus);
    assert_eq!(error.token().lexeme, "+");
    assert_eq!(error.token().line, 3);
    assert_eq!(error.message(), "Operands must be numbers.");
    assert_eq!(error.to_string(), "Runtime error: [line 3] Operands must be numbers..");
}

#[test]
fn either_error_as_text() {
    let syntax = LoxError::Syntax(SyntaxError::new(2, "Unterminated string".to_string()));
    assert_eq!(syntax.to_string(), "Syntax error: [line 2] Unterminated string.");
    let runtime = LoxError::Runtime(RuntimeError::new(plus_on_line(40), "bad".to_string()));
    assert_eq!(runtime.to_string(), "Runtime error: [line 40] bad.");
}

#[test]
fn number_operands() {
    let text = Object::Str("1".to_string());
    let operator = plus_on_line(5);
    assert!(check_number_operands(&operator, &[]).is_ok());
    assert!(check_number_operands(&operator, &[&one()]).is_ok());
    assert!(check_number_operands(&operator, &[&one(), &one(), &one()]).is_ok());
    for operands in [
        vec![&text],
        vec![&one(), &text],
        vec![&text, &one()],
        vec![&Object::Nil, &one()],
        vec![&one(), &Object::True],
        vec![&one(), &one(), &Object::False],
    ] {
        let error = check_number_operands(&operator, &operands).unwrap_err();
        assert_eq!(error.message(), "Operands must be numbers.");
        assert_eq!(error.token().typ, TokenType::Plus);
        assert_eq!(error.token().line, 5);
    }
}

#[test]
fn string_operands() {
    let text = Object::Str("1".to_string());
    let operator = plus_on_line(6);
    assert!(check_string_operands(&operator, &[]).is_ok());
    assert!(check_string_operands(&operator, &[&text]).is_ok());
    assert!(check_string_operands(&operator, &[&text, &text]).is_ok());
    for operands in [
        vec![&one()],
        vec![&one(), &text],
        vec![&text, &one()],
        vec![&Object::Nil, &text],
        vec![&text, &text, &Object::True],
    ] {
        let error = check_string_operands(&operator, &operands).unwrap_err();
        assert_eq!(error.message(), "Operands must be strings.");
        assert_eq!(error.token().typ, TokenType::Plus);
        assert_eq!(error.token().line, 6);
    }
}
