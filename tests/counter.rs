use evil_counter::counter::{Counter, INITIAL_VALUE};
use evil_counter::decimal::decimal_string;
use evil_counter::message::{classify, counter_message, display_string, message_string, Level};
use evil_counter::operations::{
    button_operations, decrement_value, divide_value, increment_value, multiply_value, Operation,
};
use evil_counter::theme::{ColorToken, BRIGHT_RED, COOL_BLUE, TEXT_MUTED};

const HIGH_PREFIX: &str = "\u{1F525} Count is HIGH! ";
const NEGATIVE_PREFIX: &str = "\u{2744}\u{FE0F} Count is NEGATIVE! ";
const ZERO_TEXT: &str = "\u{1F634} Count is ZERO! Reset complete!";
const NORMAL_TEXT: &str = "Count is normal (1-49)";

#[test]
fn divide_truncates_toward_zero() {
    assert_eq!(divide_value(1), 0);
    assert_eq!(divide_value(-1), 0);
    assert_eq!(divide_value(4), 2);
    assert_eq!(divide_value(5), 2);
    assert_eq!(divide_value(-5), -2);
    assert_eq!(divide_value(i32::MIN), -1073741824);
    assert_eq!(divide_value(i32::MAX), 1073741823);
}

#[test]
fn reset_is_idempotent() {
    for v in [-7, 0, 1, 50, 51, i32::MIN, i32::MAX] {
        let once = Operation::Reset.apply(v);
        assert_eq!(once, 0);
        assert_eq!(Operation::Reset.apply(once), once);
    }
    let mut c = Counter::new(42);
    c.reset();
    c.reset();
    assert_eq!(c.value(), 0);
    assert_eq!(c.display(), "Count: 0");
}

#[test]
fn classification_boundaries() {
    assert_eq!(classify(50), Level::Normal);
    assert_eq!(classify(51), Level::High);
    assert_eq!(classify(0), Level::Zero);
    assert_eq!(classify(-1), Level::Negative);
    assert_eq!(classify(1), Level::Normal);
    assert_eq!(classify(i32::MIN), Level::Negative);
    assert_eq!(classify(i32::MAX), Level::High);
    assert_eq!(message_string(50), NORMAL_TEXT);
    assert_eq!(message_string(51), format!("{}51 is above 50!", HIGH_PREFIX));
    assert_eq!(message_string(0), ZERO_TEXT);
    assert_eq!(message_string(-1), format!("{}-1 is below zero!", NEGATIVE_PREFIX));
}

#[test]
fn classification_is_exclusive_over_a_range() {
    for v in -200..=200 {
        let expected = if v > 50 {
            Level::High
        } else if v < 0 {
            Level::Negative
        } else if v == 0 {
            Level::Zero
        } else {
            Level::Normal
        };
        assert_eq!(classify(v), expected);
    }
}

#[test]
fn message_colors() {
    assert_eq!(counter_message(51).color, ColorToken::Bright);
    assert_eq!(counter_message(-3).color, ColorToken::Cool);
    assert_eq!(counter_message(0).color, ColorToken::Muted);
    assert_eq!(counter_message(7).color, ColorToken::Muted);
    assert_eq!(ColorToken::Bright.hex(), BRIGHT_RED);
    assert_eq!(ColorToken::Cool.hex(), COOL_BLUE);
    assert_eq!(ColorToken::Muted.hex(), TEXT_MUTED);
    assert_eq!(Level::High.color().hex(), "#ff1744");
    assert_eq!(Level::Negative.color().hex(), "#6bb6ff");
}

#[test]
fn scenario_increment_five_times() {
    let mut c = Counter::new(0);
    for _ in 0..5 {
        c.increment();
    }
    assert_eq!(c.value(), 5);
    assert_eq!(c.display(), "Count: 5");
    assert_eq!(c.message().text, NORMAL_TEXT);
}

#[test]
fn scenario_decrement_once() {
    let mut c = Counter::new(0);
    c.decrement();
    assert_eq!(c.value(), -1);
    assert_eq!(c.display(), "Count: -1");
    assert_eq!(
        c.message().text,
        "\u{2744}\u{FE0F} Count is NEGATIVE! -1 is below zero!"
    );
    assert_eq!(c.message().color, ColorToken::Cool);
}

#[test]
fn scenario_halve_hundred() {
    let mut c = Counter::new(100);
    c.divide();
    assert_eq!(c.value(), 50);
    assert_eq!(c.display(), "Count: 50");
    assert_eq!(c.message().text, NORMAL_TEXT);
}

#[test]
fn scenario_double_twice() {
    let mut c = Counter::new(25);
    c.multiply();
    assert_eq!(c.value(), 50);
    assert_eq!(c.message().text, NORMAL_TEXT);
    c.multiply();
    assert_eq!(c.value(), 100);
    assert_eq!(c.display(), "Count: 100");
    assert_eq!(c.message().text, "\u{1F525} Count is HIGH! 100 is above 50!");
    assert_eq!(c.message().color, ColorToken::Bright);
}

#[test]
fn handlers_match_pure_operations() {
    let ops = vec![
        Operation::Increment,
        Operation::Multiply,
        Operation::Multiply,
        Operation::Decrement,
        Operation::Divide,
        Operation::Increment,
        Operation::Reset,
        Operation::Decrement,
        Operation::Multiply,
    ];
    for start in [-9, 0, 13, 1000] {
        let mut expected = start;
        for op in ops.iter() {
            expected = op.apply(expected);
        }
        let mut c = Counter::new(start);
        c.run(&ops);
        assert_eq!(c.value(), expected);
        let mut d = Counter::new(start);
        for op in ops.iter() {
            d.handle(*op);
        }
        assert_eq!(d.value(), expected);
    }
    let mut c = Counter::new(3);
    c.run(&vec![Operation::Increment, Operation::Multiply, Operation::Divide]);
    assert_eq!(c.value(), 4);
}

#[test]
fn texts_follow_every_handler() {
    let mut c = Counter::default();
    assert_eq!(c.value(), INITIAL_VALUE);
    assert_eq!(c.display(), "Count: 0");
    assert_eq!(c.message().text, ZERO_TEXT);
    for op in [
        Operation::Increment,
        Operation::Multiply,
        Operation::Multiply,
        Operation::Multiply,
        Operation::Multiply,
        Operation::Multiply,
        Operation::Multiply,
        Operation::Divide,
        Operation::Reset,
        Operation::Decrement,
    ] {
        c.handle(op);
        assert_eq!(c.display(), display_string(c.value()));
        assert_eq!(c.message().text, message_string(c.value()));
        assert_eq!(c.message().color, classify(c.value()).color());
    }
    assert_eq!(c.value(), -1);
}

#[test]
fn overflow_wraps() {
    assert_eq!(increment_value(i32::MAX), i32::MIN);
    assert_eq!(decrement_value(i32::MIN), i32::MAX);
    assert_eq!(multiply_value(i32::MAX), -2);
    assert_eq!(multiply_value(i32::MIN), 0);
    assert_eq!(multiply_value(1 << 30), i32::MIN);
    assert_eq!(multiply_value(-7), -14);
    let mut c = Counter::new(i32::MAX);
    c.increment();
    assert_eq!(c.value(), i32::MIN);
    assert_eq!(c.display(), "Count: -2147483648");
}

#[test]
fn decimal_text_of_integers() {
    assert_eq!(decimal_string(0), "0");
    assert_eq!(decimal_string(7), "7");
    assert_eq!(decimal_string(10), "10");
    assert_eq!(decimal_string(-305), "-305");
    assert_eq!(decimal_string(i32::MAX), "2147483647");
    assert_eq!(decimal_string(i32::MIN), "-2147483648");
    assert_eq!(display_string(42), "Count: 42");
}

#[test]
fn buttons_in_order_with_labels() {
    let ops = button_operations();
    let labels: Vec<&str> = ops.iter().map(|op| op.label()).collect();
    assert_eq!(labels, vec!["-1", "+1", "Reset", "\u{D7}2", "\u{F7}2"]);
    assert_eq!(
        ops,
        vec![
            Operation::Decrement,
            Operation::Increment,
            Operation::Reset,
            Operation::Multiply,
            Operation::Divide,
        ]
    );
}
