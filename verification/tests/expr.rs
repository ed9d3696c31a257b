use lox::error::RuntimeError;
use lox::expr::{BinaryExpr, Expr, GroupingExpr, LiteralExpr, UnaryExpr, Verdict};
use lox::semantics::ArithOp;
use lox::number::Number;
use lox::object::Object;
use lox::parser::Parser;
use lox::scanner::Scanner;
use lox::token::{Token, TokenType};

fn num(x: f64) -> Number {
    Number::from_bits(x.to_bits())
}

fn value(n: Number) -> f64 {
    f64::from_bits(n.to_bits())
}

fn read_number(text: String) -> Number {
    num(text.parse::<f64>().unwrap())
}

fn compute(op: ArithOp, a: Number, b: Number) -> Number {
    let (x, y) = (value(a), value(b));
    num(match op {
        ArithOp::Add => x + y,
        ArithOp::Subtract => x - y,
        ArithOp::Multiply => x * y,
        ArithOp::Divide => x / y,
    })
}

fn write_number(n: Number) -> String {
    format!("{}", value(n))
}

fn tree_of(source: &str) -> Box<Expr> {
    let mut scanner = Scanner::new(source.chars().collect());
    let tokens = scanner.scan_tokens(&read_number).unwrap().clone();
    Parser::new(tokens).parse().unwrap()
}

fn run(source: &str) -> Result<Object, RuntimeError> {
    tree_of(source).eval(&compute)
}

fn result_text(source: &str) -> String {
    run(source).unwrap().to_string(&write_number)
}

fn create_binary() -> Box<Expr> {
    BinaryExpr::new(
        UnaryExpr::new(
            Token::new(TokenType::Minus, "-", None, 1),
            LiteralExpr::new(Object::Num(num(123 as f64))),
        ),
        Token::new(TokenType::Star, "*", None, 1),
        GroupingExpr::new(LiteralExpr::new(Object::Num(num(45.67)))),
    )
}

#[test]
fn print_ast() {
    println!("{}", create_binary().to_string(&write_number))
}

#[test]
fn test_eval() {
    let result = create_binary().eval(&compute);
    assert!(result.is_ok());
    println!("{}", result.ok().unwrap().to_string(&write_number))
}

#[test]
fn the_sample_tree_renders_and_evaluates() {
    assert_eq!(create_binary().to_string(&write_number), "( * ( - 123 ) ( 45.67 ) )");
    assert_eq!(create_binary().eval(&compute).unwrap(), Object::Num(num(-123.0 * 45.67)));
}

#[test]
fn rendering_round_trips() {
    assert_eq!(tree_of("2").to_string(&write_number), "2");
    assert_eq!(
        tree_of("-123 * (45.67)").to_string(&write_number),
        "( * ( - 123 ) ( 45.67 ) )"
    );
}

#[test]
fn a_chain_of_sums_adds_up_from_the_left() {
    assert_eq!(run("1 + 2 + 3").unwrap(), Object::Num(num(6.0)));
    assert_eq!(result_text("1 + 2 + 3"), "6");
    assert_eq!(run("10 - 4 - 3").unwrap(), Object::Num(num(3.0)));
    assert_eq!(run("64 / 4 / 2").unwrap(), Object::Num(num(8.0)));
    assert_eq!(run("0.1 + 0.2 + 0.3").unwrap(), Object::Num(num((0.1 + 0.2) + 0.3)));
    assert_ne!(run("0.1 + 0.2 + 0.3").unwrap(), Object::Num(num(0.1 + (0.2 + 0.3))));
}

#[test]
fn arithmetic_is_that_of_doubles() {
    assert_eq!(run("1 / 0").unwrap(), Object::Num(num(f64::INFINITY)));
    assert_eq!(run("-1 / 0").unwrap(), Object::Num(num(f64::NEG_INFINITY)));
    assert!(run("0 / 0").unwrap().num().is_nan());
    assert_eq!(result_text("1 / 0"), "inf");
    assert_eq!(result_text("0.1 + 0.2"), "0.30000000000000004");
    assert_eq!(result_text("7 * 6"), "42");
    assert_eq!(result_text("1 / 3"), "0.3333333333333333");
    assert_eq!(result_text("2 - 5"), "-3");
    assert_eq!(result_text("(1 + 2) * 3 - 4 / 8"), "8.5");
    assert_eq!(result_text("-0"), "-0");
}

#[test]
fn the_operands_reach_the_arithmetic_in_the_order_written() {
    let asked = std::cell::RefCell::new(Vec::new());
    let record = |op: ArithOp, a: Number, b: Number| {
        asked.borrow_mut().push((op, value(a), value(b)));
        compute(op, a, b)
    };
    assert_eq!(tree_of("8 - 2 * 3 + 4 / 2").eval(&record).unwrap(), Object::Num(num(4.0)));
    assert_eq!(
        *asked.borrow(),
        vec![
            (ArithOp::Multiply, 2.0, 3.0),
            (ArithOp::Subtract, 8.0, 6.0),
            (ArithOp::Divide, 4.0, 2.0),
            (ArithOp::Add, 2.0, 2.0),
        ]
    );
}

#[test]
fn comparisons_take_numbers() {
    assert_eq!(run("1 < 2").unwrap(), Object::True);
    assert_eq!(run("2 < 2").unwrap(), Object::False);
    assert_eq!(run("2 <= 2").unwrap(), Object::True);
    assert_eq!(run("3 <= 2").unwrap(), Object::False);
    assert_eq!(run("3 > 2").unwrap(), Object::True);
    assert_eq!(run("2 > 2").unwrap(), Object::False);
    assert_eq!(run("2 >= 2").unwrap(), Object::True);
    assert_eq!(run("1 >= 2").unwrap(), Object::False);
    assert_eq!(run("-1 < 0").unwrap(), Object::True);
    assert_eq!(run("-2 < -1").unwrap(), Object::True);
    assert_eq!(run("0 / 0 < 1").unwrap(), Object::False);
    assert_eq!(run("0 / 0 >= 1").unwrap(), Object::False);
    assert_eq!(run("-0 >= 0").unwrap(), Object::True);
    for source in ["1 < \"2\"", "\"a\" < \"b\"", "nil > 1", "true >= false", "1 <= nil"] {
        let error = run(source).unwrap_err();
        assert_eq!(error.message(), "Operands must be numbers.", "{source}");
    }
}

#[test]
fn arithmetic_takes_numbers() {
    for source in ["1 - \"2\"", "\"a\" * 2", "nil / 1", "true - false", "\"a\" - \"b\""] {
        let error = run(source).unwrap_err();
        assert_eq!(error.message(), "Operands must be numbers.", "{source}");
        assert_eq!(error.token().line, 1);
    }
    assert_eq!(
        run("1 -\n\"2\"").unwrap_err().to_string(),
        "Runtime error: [line 1] Operands must be numbers.."
    );
}

#[test]
fn plus_adds_numbers_and_joins_strings() {
    assert_eq!(run("\"2\" + \"3\"").unwrap(), Object::Str("23".to_string()));
    assert_eq!(run("\"\" + \"\"").unwrap(), Object::Str(String::new()));
    assert_eq!(run("\"a\" + \"b\" + \"c\"").unwrap(), Object::Str("abc".to_string()));
    assert_eq!(run("2 + 3").unwrap(), Object::Num(num(5.0)));
    for source in ["2 + \"3\"", "\"2\" + 3", "nil + nil", "true + 1", "\"a\" + nil"] {
        let error = run(source).unwrap_err();
        assert_eq!(error.message(), "Operands must be numbers or strings.", "{source}");
        assert_eq!(error.token().typ, TokenType::Plus);
        assert_eq!(error.token().lexeme, "+");
    }
}

#[test]
fn the_error_names_its_operator_and_line() {
    let error = run("1 +\n2 *\n\"x\"").unwrap_err();
    assert_eq!(error.token().typ, TokenType::Star);
    assert_eq!(error.token().lexeme, "*");
    assert_eq!(error.token().line, 2);
    assert_eq!(error.to_string(), "Runtime error: [line 2] Operands must be numbers..");
}

#[test]
fn the_first_failure_is_the_result() {
    let error = run("(1 - nil) + (2 * \"x\")").unwrap_err();
    assert_eq!(error.token().typ, TokenType::Minus);
    let error = run("1 + (2 * \"x\") - (nil / 3)").unwrap_err();
    assert_eq!(error.token().typ, TokenType::Star);
    let error = run("-(nil) + (\"a\" < 1)").unwrap_err();
    assert_eq!(error.token().typ, TokenType::Minus);
}

#[test]
fn negation_takes_a_number() {
    assert_eq!(run("-3").unwrap(), Object::Num(num(-3.0)));
    assert_eq!(run("--3").unwrap(), Object::Num(num(3.0)));
    assert_eq!(run("-0").unwrap(), Object::Num(num(-0.0)));
    assert_eq!(run("-0").unwrap().num().to_bits(), (-0.0f64).to_bits());
    for source in ["-\"3\"", "-nil", "-true", "-(1 == 1)"] {
        let error = run(source).unwrap_err();
        assert_eq!(error.message(), "Operands must be numbers.", "{source}");
        assert_eq!(error.token().typ, TokenType::Minus);
    }
}

#[test]
fn truthiness() {
    assert_eq!(run("!nil").unwrap(), Object::True);
    assert_eq!(run("!0").unwrap(), Object::False);
    assert_eq!(run("!\"\"").unwrap(), Object::False);
    assert_eq!(run("!false").unwrap(), Object::True);
    assert_eq!(run("!true").unwrap(), Object::False);
    assert_eq!(run("!\"false\"").unwrap(), Object::False);
    assert_eq!(run("!!nil").unwrap(), Object::False);
    assert_eq!(run("!(0 / 0)").unwrap(), Object::False);
}

#[test]
fn equality_is_type_aware_and_never_fails() {
    assert_eq!(run("1 == \"1\"").unwrap(), Object::False);
    assert_eq!(run("1 != \"1\"").unwrap(), Object::True);
    assert_eq!(run("nil == false").unwrap(), Object::False);
    assert_eq!(run("0 == false").unwrap(), Object::False);
    assert_eq!(run("\"\" == nil").unwrap(), Object::False);
    assert_eq!(run("true == 1").unwrap(), Object::False);
    assert_eq!(run("nil == nil").unwrap(), Object::True);
    assert_eq!(run("true == true").unwrap(), Object::True);
    assert_eq!(run("true != false").unwrap(), Object::True);
    assert_eq!(run("1 == 1").unwrap(), Object::True);
    assert_eq!(run("1 == 2").unwrap(), Object::False);
    assert_eq!(run("\"a\" == \"a\"").unwrap(), Object::True);
    assert_eq!(run("\"a\" != \"b\"").unwrap(), Object::True);
    assert_eq!(run("0 == -0").unwrap(), Object::True);
    assert_eq!(run("0 / 0 == 0 / 0").unwrap(), Object::False);
    assert_eq!(run("0 / 0 != 0 / 0").unwrap(), Object::True);
    assert_eq!(run("1 + 1 == 2").unwrap(), Object::True);
}

#[test]
fn literals_and_groupings_yield_their_values() {
    assert_eq!(run("\"text\"").unwrap(), Object::Str("text".to_string()));
    assert_eq!(run("((nil))").unwrap(), Object::Nil);
    assert_eq!(run("(true)").unwrap(), Object::True);
    assert_eq!(run("12.5").unwrap(), Object::Num(num(12.5)));
}

#[test]
fn a_token_that_is_no_operator_yields_nil() {
    let comma = Token::new(TokenType::Comma, ",", None, 1);
    let one = || LiteralExpr::new(Object::Num(num(1.0)));
    assert_eq!(BinaryExpr::new(one(), comma.clone(), one()).eval(&compute).unwrap(), Object::Nil);
    assert_eq!(UnaryExpr::new(comma, one()).eval(&compute).unwrap(), Object::Nil);
    let bang = Token::new(TokenType::Bang, "!", None, 1);
    assert_eq!(BinaryExpr::new(one(), bang, one()).eval(&compute).unwrap(), Object::Nil);
    let star = Token::new(TokenType::Star, "*", None, 1);
    assert_eq!(UnaryExpr::new(star, one()).eval(&compute).unwrap(), Object::Nil);
}

#[test]
fn a_verdict_is_a_result_or_an_operation_to_carry_out() {
    let op = |typ, lexeme| Token::new(typ, lexeme, None, 1);
    let two = Object::Num(num(2.0));
    let three = Object::Num(num(3.0));
    let text = Object::Str("x".to_string());
    let cases = [
        (TokenType::Plus, "+", ArithOp::Add),
        (TokenType::Minus, "-", ArithOp::Subtract),
        (TokenType::Star, "*", ArithOp::Multiply),
        (TokenType::Slash, "/", ArithOp::Divide),
    ];
    for (typ, lexeme, kind) in cases {
        match BinaryExpr::apply(&op(typ, lexeme), &two, &three) {
            Verdict::Compute(k, a, b) => assert_eq!((k, a, b), (kind, num(2.0), num(3.0))),
            Verdict::Done(_) => panic!("{lexeme} on numbers is arithmetic"),
        }
        match BinaryExpr::apply(&op(typ, lexeme), &two, &text) {
            Verdict::Done(Err(_)) => {}
            _ => panic!("{lexeme} on a number and a string fails"),
        }
    }
    match BinaryExpr::apply(&op(TokenType::Less, "<"), &two, &three) {
        Verdict::Done(Ok(v)) => assert_eq!(v, Object::True),
        _ => panic!("a comparison is decided at once"),
    }
    match UnaryExpr::apply(&op(TokenType::Minus, "-"), &three) {
        Ok(v) => assert_eq!(v, Object::Num(num(-3.0))),
        Err(_) => panic!("a number can be negated"),
    }
}

#[test]
fn nodes_render_in_prefix_form() {
    let one = || LiteralExpr::new(Object::Num(num(1.0)));
    let text = || LiteralExpr::new(Object::Str("a b".to_string()));
    let plus = Token::new(TokenType::Plus, "+", None, 1);
    let bang = Token::new(TokenType::Bang, "!", None, 1);
    assert_eq!(one().to_string(&write_number), "1");
    assert_eq!(text().to_string(&write_number), "\"a b\"");
    assert_eq!(GroupingExpr::new(one()).to_string(&write_number), "( 1 )");
    assert_eq!(UnaryExpr::new(bang, text()).to_string(&write_number), "( ! \"a b\" )");
    assert_eq!(BinaryExpr::new(one(), plus, text()).to_string(&write_number), "( + 1 \"a b\" )");
    assert_eq!(LiteralExpr::new(Object::Nil).to_string(&write_number), "nil");
}
