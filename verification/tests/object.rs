use lox::number::Number;
use lox::object::Object;
use lox::object::Object::{Num, Str};

fn number(x: f64) -> Number {
    Number::from_bits(x.to_bits())
}

fn show_number(n: Number) -> String {
    format!("{}", f64::from_bits(n.to_bits()))
}

#[test]
fn test_equal() {
    let x = &1f64;
    let y = &1f64;
    assert_eq!(*x, *y);
    assert_eq!(x, y);
    println!("{} {}", x, y);

    let x = &"123".to_string();
    let y = &"123".to_string();
    assert_eq!(*x, *y);
    assert_eq!(x, y);
    println!("{} {}", x, y);

    let x = &Num(number(1.0f64));
    let y = &Num(number(1f64));
    assert_eq!(*x, *y);
    assert_eq!(x, y);
    println!("{} {}", x.to_string(&show_number), y.to_string(&show_number));

    let x = &Str("hello".to_string());
    let y = &Str("hello".to_string());
    assert_eq!(*x, *y);
    assert_eq!(x, y);
    println!("{} {}", x.to_string(&show_number), y.to_string(&show_number));

    let x = &Str("hello".to_string());
    let y = &Str("hello ".to_string());
    assert_ne!(*x, *y);
    assert_ne!(x, y);
    println!("{} {}", x.to_string(&show_number), y.to_string(&show_number));
}

#[test]
fn values_of_different_kinds_are_never_equal() {
    let values = vec![
        Num(number(1.0)),
        Str("1".to_string()),
        Object::Nil,
        Object::True,
        Object::False,
    ];
    for (i, a) in values.iter().enumerate() {
        for (j, b) in values.iter().enumerate() {
            assert_eq!(a == b, i == j);
        }
    }
    assert_ne!(Num(number(0.0)), Object::False);
    assert_ne!(Str(String::new()), Object::Nil);
}

#[test]
fn numbers_are_equal_as_doubles_are() {
    let samples = [
        0.0,
        -0.0,
        1.0,
        -1.0,
        0.1,
        45.67,
        -123.0,
        f64::MIN_POSITIVE,
        5e-324,
        -5e-324,
        f64::MAX,
        f64::MIN,
        f64::INFINITY,
        f64::NEG_INFINITY,
        f64::NAN,
        -f64::NAN,
    ];
    for a in samples {
        for b in samples {
            assert_eq!(Num(number(a)) == Num(number(b)), a == b, "{a} == {b}");
        }
    }
}

#[test]
fn only_nil_and_false_are_falsy() {
    assert!(!Object::Nil.is_true());
    assert!(!Object::False.is_true());
    assert!(Object::True.is_true());
    assert!(Num(number(0.0)).is_true());
    assert!(Num(number(f64::NAN)).is_true());
    assert!(Str(String::new()).is_true());
    assert!(Str("false".to_string()).is_true());
}

#[test]
fn accessors_fall_back_to_zero_and_to_the_empty_text() {
    assert_eq!(Num(number(2.5)).num(), number(2.5));
    assert_eq!(Str("2.5".to_string()).num(), number(0.0));
    assert_eq!(Object::Nil.num().to_bits(), 0);
    assert_eq!(Str("abc".to_string()).str(), "abc");
    assert_eq!(Num(number(2.5)).str(), "");
    assert_eq!(Object::True.str(), "");
    assert!(Num(number(2.5)).is_num());
    assert!(!Str("2.5".to_string()).is_num());
    assert!(Str("2.5".to_string()).is_str());
    assert!(!Object::Nil.is_str());
}

#[test]
fn new_bool_gives_the_two_truth_values() {
    assert_eq!(Object::new_bool(true), Object::True);
    assert_eq!(Object::new_bool(false), Object::False);
}

#[test]
fn values_are_written_as_the_language_writes_them() {
    assert_eq!(Num(number(2.0)).to_string(&show_number), "2");
    assert_eq!(Num(number(45.67)).to_string(&show_number), "45.67");
    assert_eq!(Str("hi".to_string()).to_string(&show_number), "\"hi\"");
    assert_eq!(Str(String::new()).to_string(&show_number), "\"\"");
    assert_eq!(Object::Nil.to_string(&show_number), "nil");
    assert_eq!(Object::True.to_string(&show_number), "true");
    assert_eq!(Object::False.to_string(&show_number), "false");
}

#[test]
fn a_clone_equals_the_value_it_was_made_from() {
    let values = vec![
        Num(number(-3.5)),
        Str("text".to_string()),
        Object::Nil,
        Object::True,
        Object::False,
    ];
    for v in values.iter() {
        assert_eq!(&v.clone(), v);
    }
}
