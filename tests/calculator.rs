use std::cell::RefCell;
use std::rc::Rc;

use toycalc::decimal::decimal_string;
use toycalc::{Calculator, DisplayListener, Operation, MAX_DIGITS};

fn press_digits(calc: &mut Calculator, digits: &[i8]) {
    for d in digits {
        calc.press_digit(*d);
    }
}

struct Recorder {
    name: &'static str,
    seen: Rc<RefCell<Vec<String>>>,
}

impl DisplayListener for Recorder {
    fn display_changed(&self, text: String) {
        self.seen.borrow_mut().push(format!("{}:{}", self.name, text));
    }
}

#[test]
fn test_press_digit() {
    let mut calc = Calculator::new();
    calc.press_digit(0);
    calc.press_digit(0);
    calc.press_digit(1);
    calc.press_digit(5);
    calc.press_digit(3);
    calc.press_digit(8);
    calc.press_digit(9);
    calc.press_digit(2);
    calc.press_digit(7);
    calc.press_digit(4);
    assert_eq!("15389274", calc.get_display_string());
}

#[test]
fn test_press_digit_overflow() {
    let mut calc = Calculator::new();
    let mut expected_long = 0i64;

    for i in 1..MAX_DIGITS {
        expected_long = expected_long * 10i64 + (i as i64)
    }

    let expected_string = expected_long.to_string();

    for i in 1..MAX_DIGITS {
        calc.press_digit((i % 10) as i8)
    }

    assert_eq!(expected_string, calc.get_display_string());
}

#[test]
fn test_operations() {
    let mut calc = Calculator::new();

    calc.press_digit(5);
    assert_eq!("5", calc.get_display_string());

    calc.press_operation(Operation::Add);
    assert_eq!("5", calc.get_display_string());

    calc.press_digit(6);
    assert_eq!("6", calc.get_display_string());

    calc.press_operation(Operation::Subtract);
    assert_eq!("11", calc.get_display_string());

    calc.press_digit(3);
    assert_eq!("3", calc.get_display_string());

    calc.press_equals();
    assert_eq!("8", calc.get_display_string());

    calc.press_operation(Operation::Multiply);
    assert_eq!("8", calc.get_display_string());

    calc.press_digit(3);
    assert_eq!("3", calc.get_display_string());

    calc.press_operation(Operation::Divide);
    assert_eq!("24", calc.get_display_string());

    calc.press_digit(2);
    assert_eq!("2", calc.get_display_string());

    calc.press_equals();
    assert_eq!("12", calc.get_display_string());

    calc.press_equals();
    assert_eq!("6", calc.get_display_string());

    calc.press_equals();
    assert_eq!("3", calc.get_display_string());
}

#[test]
fn test_get_display_string() {
    let mut calc = Calculator::new();
    calc.press_digit(2);
    calc.press_digit(3);
    calc.press_digit(4);
    assert_eq!("234", calc.get_display_string());
    calc.press_operation(Operation::Add);
    assert_eq!("234", calc.get_display_string());
    calc.press_digit(5);
    calc.press_digit(6);
    calc.press_digit(7);
    assert_eq!("567", calc.get_display_string());
}

#[test]
fn fresh_calculator_shows_zero() {
    let calc = Calculator::new();
    assert_eq!("0", calc.get_display_string());
}

#[test]
fn digit_entry_spells_numeral() {
    let mut calc = Calculator::new();
    press_digits(&mut calc, &[4, 0, 7]);
    assert_eq!("407", calc.get_display_string());
}

#[test]
fn leading_zeros_are_dropped() {
    let mut calc = Calculator::new();
    press_digits(&mut calc, &[0, 0, 0]);
    assert_eq!("0", calc.get_display_string());
    calc.press_digit(3);
    assert_eq!("3", calc.get_display_string());
}

#[test]
fn eighth_digit_is_taken_ninth_is_ignored() {
    let mut calc = Calculator::new();
    press_digits(&mut calc, &[1, 2, 3, 4, 5, 6, 7]);
    assert_eq!("1234567", calc.get_display_string());
    calc.press_digit(8);
    assert_eq!("12345678", calc.get_display_string());
    calc.press_digit(9);
    assert_eq!("12345678", calc.get_display_string());
    calc.press_digit(0);
    assert_eq!("12345678", calc.get_display_string());
}

#[test]
fn operation_then_equals_uses_zero_entry() {
    let mut calc = Calculator::new();
    calc.press_digit(5);
    calc.press_operation(Operation::Add);
    calc.press_equals();
    assert_eq!("5", calc.get_display_string());

    let mut calc = Calculator::new();
    calc.press_digit(5);
    calc.press_operation(Operation::Multiply);
    calc.press_equals();
    assert_eq!("0", calc.get_display_string());
}

#[test]
fn repeat_equals_reapplies_last_operation() {
    let mut calc = Calculator::new();
    press_digits(&mut calc, &[5]);
    calc.press_operation(Operation::Add);
    calc.press_digit(6);
    calc.press_operation(Operation::Subtract);
    calc.press_digit(3);
    calc.press_equals();
    assert_eq!("8", calc.get_display_string());
    calc.press_equals();
    assert_eq!("5", calc.get_display_string());
    calc.press_equals();
    assert_eq!("2", calc.get_display_string());
}

#[test]
fn repeat_equals_multiplies_again() {
    let mut calc = Calculator::new();
    calc.press_digit(2);
    calc.press_operation(Operation::Multiply);
    calc.press_digit(3);
    calc.press_equals();
    assert_eq!("6", calc.get_display_string());
    calc.press_equals();
    assert_eq!("18", calc.get_display_string());
    calc.press_equals();
    assert_eq!("54", calc.get_display_string());
}

#[test]
fn chained_operators_finalize_previous_step() {
    let mut calc = Calculator::new();
    calc.press_digit(8);
    calc.press_operation(Operation::Multiply);
    calc.press_digit(3);
    calc.press_operation(Operation::Divide);
    assert_eq!("24", calc.get_display_string());
    calc.press_digit(2);
    calc.press_equals();
    assert_eq!("12", calc.get_display_string());
}

#[test]
fn divide_by_zero_shows_error_then_digit_resets() {
    let mut calc = Calculator::new();
    calc.press_digit(5);
    calc.press_operation(Operation::Divide);
    calc.press_digit(0);
    calc.press_equals();
    assert_eq!("error", calc.get_display_string());
    calc.press_digit(7);
    assert_eq!("7", calc.get_display_string());
    calc.press_operation(Operation::Add);
    calc.press_digit(1);
    calc.press_equals();
    assert_eq!("8", calc.get_display_string());
}

#[test]
fn error_persists_through_operation_keys() {
    let mut calc = Calculator::new();
    calc.press_digit(5);
    calc.press_operation(Operation::Divide);
    calc.press_equals();
    assert_eq!("error", calc.get_display_string());
    calc.press_operation(Operation::Add);
    assert_eq!("error", calc.get_display_string());
    calc.press_equals();
    assert_eq!("error", calc.get_display_string());
}

#[test]
fn overflow_on_large_sum() {
    let mut calc = Calculator::new();
    press_digits(&mut calc, &[9, 9, 9, 9, 9, 9, 9, 9]);
    calc.press_operation(Operation::Add);
    calc.press_digit(1);
    calc.press_equals();
    assert_eq!("overflow", calc.get_display_string());
    calc.press_digit(4);
    assert_eq!("4", calc.get_display_string());
}

#[test]
fn largest_result_still_fits() {
    let mut calc = Calculator::new();
    press_digits(&mut calc, &[9, 9, 9, 9, 9, 9, 9, 8]);
    calc.press_operation(Operation::Add);
    calc.press_digit(1);
    calc.press_equals();
    assert_eq!("99999999", calc.get_display_string());
}

#[test]
fn overflow_on_large_negative_result() {
    let mut calc = Calculator::new();
    calc.press_digit(0);
    calc.press_operation(Operation::Subtract);
    press_digits(&mut calc, &[9, 9, 9, 9, 9, 9, 9, 9]);
    calc.press_equals();
    assert_eq!("-99999999", calc.get_display_string());
    calc.press_equals();
    assert_eq!("overflow", calc.get_display_string());
}

#[test]
fn overflow_on_product_shown_by_operation_key() {
    let mut calc = Calculator::new();
    press_digits(&mut calc, &[5, 0, 0, 0, 0]);
    calc.press_operation(Operation::Multiply);
    press_digits(&mut calc, &[5, 0, 0, 0, 0]);
    calc.press_operation(Operation::Add);
    assert_eq!("overflow", calc.get_display_string());
}

#[test]
fn repeated_products_past_overflow_stay_overflow() {
    let mut calc = Calculator::new();
    press_digits(&mut calc, &[9, 9, 9, 9, 9, 9, 9, 9]);
    calc.press_operation(Operation::Multiply);
    press_digits(&mut calc, &[9, 9, 9, 9, 9, 9, 9, 9]);
    for _ in 0..6 {
        calc.press_equals();
        assert_eq!("overflow", calc.get_display_string());
    }
}

#[test]
fn negative_results_display_with_sign() {
    let mut calc = Calculator::new();
    calc.press_digit(3);
    calc.press_operation(Operation::Subtract);
    calc.press_digit(5);
    calc.press_equals();
    assert_eq!("-2", calc.get_display_string());
}

#[test]
fn division_truncates_toward_zero() {
    let mut calc = Calculator::new();
    calc.press_digit(7);
    calc.press_operation(Operation::Divide);
    calc.press_digit(2);
    calc.press_equals();
    assert_eq!("3", calc.get_display_string());

    let mut calc = Calculator::new();
    calc.press_digit(0);
    calc.press_operation(Operation::Subtract);
    calc.press_digit(7);
    calc.press_operation(Operation::Divide);
    calc.press_digit(2);
    calc.press_equals();
    assert_eq!("-3", calc.get_display_string());
}

#[test]
fn digit_after_equals_starts_fresh() {
    let mut calc = Calculator::new();
    calc.press_digit(4);
    calc.press_operation(Operation::Add);
    calc.press_digit(4);
    calc.press_equals();
    assert_eq!("8", calc.get_display_string());
    calc.press_digit(2);
    assert_eq!("2", calc.get_display_string());
    calc.press_equals();
    assert_eq!("2", calc.get_display_string());
}

#[test]
fn operation_labels() {
    assert_eq!("", Operation::NoOp.to_str());
    assert_eq!("+", Operation::Add.to_str());
    assert_eq!("-", Operation::Subtract.to_str());
    assert_eq!("*", Operation::Multiply.to_str());
    assert_eq!("/", Operation::Divide.to_str());
}

#[test]
fn perform_operation_applies_pending_operation() {
    let mut calc = Calculator::new();
    calc.press_digit(6);
    calc.perform_operation();
    calc.press_operation(Operation::Add);
    assert_eq!("6", calc.get_display_string());
}

#[test]
fn listeners_receive_each_display_in_order() {
    let seen = Rc::new(RefCell::new(Vec::new()));
    let mut calc = Calculator::new();
    calc.add_display_listener(Box::new(Recorder { name: "a", seen: seen.clone() }));
    calc.add_display_listener(Box::new(Recorder { name: "b", seen: seen.clone() }));
    calc.press_digit(1);
    calc.press_operation(Operation::Add);
    calc.press_digit(2);
    calc.press_equals();
    let expected: Vec<String> = vec![
        "a:1", "b:1", "a:1", "b:1", "a:2", "b:2", "a:3", "b:3",
    ]
    .into_iter()
    .map(|s| s.to_string())
    .collect();
    assert_eq!(expected, *seen.borrow());
}

#[test]
fn listeners_see_error_text() {
    let seen = Rc::new(RefCell::new(Vec::new()));
    let mut calc = Calculator::new();
    calc.add_display_listener(Box::new(Recorder { name: "x", seen: seen.clone() }));
    calc.press_digit(1);
    calc.press_operation(Operation::Divide);
    calc.press_equals();
    assert_eq!(Some(&"x:error".to_string()), seen.borrow().last());
}

#[test]
fn decimal_string_of_edge_values() {
    assert_eq!("0", decimal_string(0));
    assert_eq!("7", decimal_string(7));
    assert_eq!("-5", decimal_string(-5));
    assert_eq!("100", decimal_string(100));
    assert_eq!("9223372036854775807", decimal_string(i64::MAX));
    assert_eq!("-9223372036854775808", decimal_string(i64::MIN));
}
