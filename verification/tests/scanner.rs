use lox::error::SyntaxError;
use lox::number::Number;
use lox::object::Object;
use lox::lexical::CharClass;
use lox::scanner::Scanner;
use lox::token::{Token, TokenType};

fn numeral_value(text: String) -> Number {
    Number::from_bits(text.parse::<f64>().unwrap().to_bits())
}

fn scan_all(source: &str) -> (Vec<Token>, Option<SyntaxError>) {
    let mut scanner = Scanner::new(source.chars().collect());
    let error = scanner.scan_tokens(&numeral_value).err();
    (scanner.scanned().clone(), error)
}

fn kinds(source: &str) -> Vec<TokenType> {
    scan_all(source).0.iter().map(|t| t.typ).collect()
}

fn lexemes(source: &str) -> Vec<String> {
    scan_all(source).0.iter().map(|t| t.lexeme.clone()).collect()
}

fn lines(source: &str) -> Vec<usize> {
    scan_all(source).0.iter().map(|t| t.line).collect()
}

#[test]
fn an_empty_source_yields_the_end_marker_alone() {
    let (tokens, error) = scan_all("");
    assert!(error.is_none());
    assert_eq!(tokens.len(), 1);
    assert_eq!(tokens[0].typ, TokenType::Eof);
    assert_eq!(tokens[0].lexeme, "");
    assert!(tokens[0].literal.is_none());
    assert_eq!(tokens[0].line, 1);
}

#[test]
fn single_character_tokens() {
    assert_eq!(
        kinds("(){},.-+;*/"),
        vec![
            TokenType::LeftParen,
            TokenType::RightParen,
            TokenType::LeftBrace,
            TokenType::RightBrace,
            TokenType::Comma,
            TokenType::Dot,
            TokenType::Minus,
            TokenType::Plus,
            TokenType::SemiColon,
            TokenType::Star,
            TokenType::Slash,
            TokenType::Eof,
        ]
    );
    assert_eq!(
        lexemes("(){},.-+;*/"),
        vec!["(", ")", "{", "}", ",", ".", "-", "+", ";", "*", "/", ""]
    );
}

#[test]
fn one_and_two_character_operators() {
    assert_eq!(
        kinds("! != = == > >= < <="),
        vec![
            TokenType::Bang,
            TokenType::BangEqual,
            TokenType::Equal,
            TokenType::EqualEqual,
            TokenType::Greater,
            TokenType::GreaterEqual,
            TokenType::Less,
            TokenType::LessEqual,
            TokenType::Eof,
        ]
    );
    assert_eq!(
        lexemes("! != = == > >= < <="),
        vec!["!", "!=", "=", "==", ">", ">=", "<", "<=", ""]
    );
}

#[test]
fn the_longest_operator_wins() {
    assert_eq!(
        kinds("!==<=="),
        vec![
            TokenType::BangEqual,
            TokenType::Equal,
            TokenType::LessEqual,
            TokenType::Equal,
            TokenType::Eof,
        ]
    );
    assert_eq!(kinds("==="), vec![TokenType::EqualEqual, TokenType::Equal, TokenType::Eof]);
    assert_eq!(kinds("!"), vec![TokenType::Bang, TokenType::Eof]);
}

#[test]
fn a_comment_runs_to_the_end_of_its_line() {
    assert_eq!(
        kinds("1 // two three\n4"),
        vec![TokenType::Number, TokenType::Number, TokenType::Eof]
    );
    assert_eq!(lines("1 // two three\n4"), vec![1, 2, 2]);
    assert_eq!(kinds("// nothing but a comment"), vec![TokenType::Eof]);
    assert_eq!(kinds("/ /"), vec![TokenType::Slash, TokenType::Slash, TokenType::Eof]);
}

#[test]
fn white_space_is_skipped_and_line_feeds_are_counted() {
    assert_eq!(kinds(" \r\t\n"), vec![TokenType::Eof]);
    assert_eq!(lines(" \r\t\n"), vec![2]);
    assert_eq!(lines("a\nb\n\nc"), vec![1, 2, 4, 4]);
}

#[test]
fn a_string_carries_the_text_between_its_quotes() {
    let (tokens, error) = scan_all("\"hello world\"");
    assert!(error.is_none());
    assert_eq!(tokens.len(), 2);
    assert_eq!(tokens[0].typ, TokenType::String);
    assert_eq!(tokens[0].lexeme, "\"hello world\"");
    assert_eq!(tokens[0].literal, Some(Object::Str("hello world".to_string())));
    assert_eq!(tokens[0].line, 1);
}

#[test]
fn an_empty_string_and_a_string_without_escapes() {
    let (tokens, _) = scan_all("\"\" \"a\\nb\"");
    assert_eq!(tokens[0].literal, Some(Object::Str(String::new())));
    assert_eq!(tokens[0].lexeme, "\"\"");
    assert_eq!(tokens[1].literal, Some(Object::Str("a\\nb".to_string())));
}

#[test]
fn a_string_may_span_lines_and_stands_on_the_line_it_starts_on() {
    let (tokens, error) = scan_all("1 \"a\nb\nc\" 2");
    assert!(error.is_none());
    assert_eq!(tokens[1].typ, TokenType::String);
    assert_eq!(tokens[1].literal, Some(Object::Str("a\nb\nc".to_string())));
    assert_eq!(lines("1 \"a\nb\nc\" 2"), vec![1, 1, 3, 3]);
}

#[test]
fn an_unterminated_string_is_an_error_on_the_line_it_starts_on() {
    let (tokens, error) = scan_all("1\n\"abc\ndef");
    let error = error.unwrap();
    assert_eq!(error.message(), "Unterminated string");
    assert_eq!(error.line(), 2);
    assert_eq!(
        tokens.iter().map(|t| t.typ).collect::<Vec<_>>(),
        vec![TokenType::Number, TokenType::Eof]
    );
    assert_eq!(tokens[1].line, 3);
}

#[test]
fn numbers_with_and_without_a_fraction() {
    let (tokens, error) = scan_all("123 45.67 0.5 7");
    assert!(error.is_none());
    let values: Vec<Option<Object>> = tokens.iter().map(|t| t.literal.clone()).collect();
    assert_eq!(
        values,
        vec![
            Some(Object::Num(Number::from_bits(123.0f64.to_bits()))),
            Some(Object::Num(Number::from_bits(45.67f64.to_bits()))),
            Some(Object::Num(Number::from_bits(0.5f64.to_bits()))),
            Some(Object::Num(Number::from_bits(7.0f64.to_bits()))),
            None,
        ]
    );
    assert_eq!(lexemes("123 45.67 0.5 7"), vec!["123", "45.67", "0.5", "7", ""]);
}

#[test]
fn a_dot_without_a_digit_behind_it_is_no_part_of_a_number() {
    assert_eq!(kinds("12."), vec![TokenType::Number, TokenType::Dot, TokenType::Eof]);
    assert_eq!(lexemes("12."), vec!["12", ".", ""]);
    assert_eq!(
        kinds("1.2.3"),
        vec![TokenType::Number, TokenType::Dot, TokenType::Number, TokenType::Eof]
    );
    assert_eq!(lexemes("1.2.3"), vec!["1.2", ".", "3", ""]);
    assert_eq!(kinds(".5"), vec![TokenType::Dot, TokenType::Number, TokenType::Eof]);
    assert_eq!(
        kinds("1.a"),
        vec![TokenType::Number, TokenType::Dot, TokenType::Identifier, TokenType::Eof]
    );
}

#[test]
fn the_converter_is_asked_about_numerals_only() {
    let asked = std::cell::RefCell::new(Vec::new());
    let record = |text: String| {
        asked.borrow_mut().push(text.clone());
        numeral_value(text)
    };
    let mut scanner = Scanner::new("x1 12 \"3\" 4.5. 6.x // 7\n8".chars().collect());
    assert!(scanner.scan_tokens(&record).is_ok());
    assert_eq!(*asked.borrow(), vec!["12", "4.5", "6", "8"]);
}

#[test]
fn every_keyword_has_its_kind() {
    assert_eq!(
        kinds(
            "and class else false for fun if nil or print return super this true var while"
        ),
        vec![
            TokenType::And,
            TokenType::Class,
            TokenType::Else,
            TokenType::False,
            TokenType::For,
            TokenType::Fun,
            TokenType::If,
            TokenType::Nil,
            TokenType::Or,
            TokenType::Print,
            TokenType::Return,
            TokenType::Super,
            TokenType::This,
            TokenType::True,
            TokenType::Var,
            TokenType::While,
            TokenType::Eof,
        ]
    );
}

#[test]
fn words_that_are_no_keywords_are_identifiers() {
    assert_eq!(
        kinds("andy _x x_1 And nil2 orchid _"),
        vec![
            TokenType::Identifier,
            TokenType::Identifier,
            TokenType::Identifier,
            TokenType::Identifier,
            TokenType::Identifier,
            TokenType::Identifier,
            TokenType::Identifier,
            TokenType::Eof,
        ]
    );
    assert_eq!(
        lexemes("andy _x x_1 And nil2 orchid _"),
        vec!["andy", "_x", "x_1", "And", "nil2", "orchid", "_", ""]
    );
    assert!(scan_all("while1").0[0].literal.is_none());
}

#[test]
fn an_unexpected_character_is_an_error_on_its_line() {
    let (tokens, error) = scan_all("1\n@ 2");
    let error = error.unwrap();
    assert_eq!(error.message(), "Unexpected character");
    assert_eq!(error.line(), 2);
    assert_eq!(
        tokens.iter().map(|t| t.typ).collect::<Vec<_>>(),
        vec![TokenType::Number, TokenType::Number, TokenType::Eof]
    );
}

#[test]
fn the_scan_goes_on_after_an_error_and_reports_the_last_one() {
    let (tokens, error) = scan_all("#\n1 $\n\n2 %");
    let error = error.unwrap();
    assert_eq!(error.message(), "Unexpected character");
    assert_eq!(error.line(), 4);
    assert_eq!(tokens.len(), 3);
    assert_eq!(tokens[1].lexeme, "2");

    let (_, error) = scan_all("? \"open\n");
    let error = error.unwrap();
    assert_eq!(error.message(), "Unterminated string");
    assert_eq!(error.line(), 1);
}

#[test]
fn characters_outside_ascii_are_unexpected_outside_strings() {
    let (tokens, error) = scan_all("é");
    assert_eq!(error.unwrap().message(), "Unexpected character");
    assert_eq!(tokens.len(), 1);
    let (tokens, error) = scan_all("\"é✓\"");
    assert!(error.is_none());
    assert_eq!(tokens[0].literal, Some(Object::Str("é✓".to_string())));
    assert_eq!(tokens[0].lexeme, "\"é✓\"");
}

#[test]
fn the_end_marker_is_last_and_lines_never_decrease() {
    let sources = [
        "",
        "1 + 2",
        "\n\n\n",
        "a\n\"b\nc\"\nd // e\n\nf",
        "(1 + 2) * 3 == 9\n!nil",
        "@ # \n $",
        "\"never closed\n\n",
    ];
    for source in sources {
        let (tokens, _) = scan_all(source);
        assert_eq!(tokens.last().unwrap().typ, TokenType::Eof, "{source:?}");
        assert_eq!(
            tokens.iter().filter(|t| t.typ == TokenType::Eof).count(),
            1,
            "{source:?}"
        );
        for pair in tokens.windows(2) {
            assert!(pair[0].line <= pair[1].line, "{source:?}");
        }
        let newlines = source.chars().filter(|c| *c == '\n').count();
        assert_eq!(tokens.last().unwrap().line, 1 + newlines, "{source:?}");
    }
}

#[test]
fn a_successful_scan_hands_out_the_tokens_it_holds() {
    let mut scanner = Scanner::new("1 + 2".chars().collect());
    let handed: Vec<Token> = scanner.scan_tokens(&numeral_value).unwrap().clone();
    assert_eq!(handed.len(), 4);
    assert_eq!(handed.len(), scanner.scanned().len());
    for (a, b) in handed.iter().zip(scanner.scanned().iter()) {
        assert_eq!(a.typ, b.typ);
        assert_eq!(a.lexeme, b.lexeme);
        assert_eq!(a.literal, b.literal);
        assert_eq!(a.line, b.line);
    }
}

#[test]
fn a_second_scan_adds_one_more_end_marker() {
    let mut scanner = Scanner::new("1".chars().collect());
    assert!(scanner.scan_tokens(&numeral_value).is_ok());
    assert!(scanner.scan_tokens(&numeral_value).is_ok());
    let found: Vec<TokenType> = scanner.scanned().iter().map(|t| t.typ).collect();
    assert_eq!(found, vec![TokenType::Number, TokenType::Eof, TokenType::Eof]);
}

#[test]
fn character_classes() {
    assert!(CharClass::Digit.contains('0') && CharClass::Digit.contains('9'));
    assert!(!CharClass::Digit.contains('a') && !CharClass::Digit.contains('/'));
    assert!(!CharClass::Digit.contains(':') && !CharClass::Digit.contains('٣'));
    for c in ['a', 'z', 'A', 'Z', '_', '0', '9'] {
        assert!(CharClass::Word.contains(c));
    }
    for c in ['`', '{', '@', '[', ' ', '-', 'é'] {
        assert!(!CharClass::Word.contains(c));
    }
    assert!(CharClass::InLine.contains('"') && !CharClass::InLine.contains('\n'));
    assert!(CharClass::InString.contains('\n') && !CharClass::InString.contains('"'));
}
