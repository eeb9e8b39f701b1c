use vstd::prelude::*;

use crate::decimal::decimal;
use crate::model::{
    combine, divide_message, entry_bound, out_of_range, overflow_message, pow10, CalcState,
    DisplaySource, MAX_DIGITS,
};
use crate::operation::Operation;

verus! {

/// Whether every entry of `ds` is a decimal digit.
pub open spec fn all_digits(ds: Seq<int>) -> bool {
    forall|i: int| 0 <= i < ds.len() ==> 0 <= #[trigger] ds[i] <= 9
}

/// The number that the digits `ds` spell, most significant first.
pub open spec fn numeral_value(ds: Seq<int>) -> int
    decreases ds.len(),
{
    if ds.len() == 0 {
        0
    } else {
        numeral_value(ds.drop_last()) * 10 + ds.last()
    }
}

/// The state after the digits `ds` are pressed one after another, starting from `s`.
pub open spec fn enter_digits(s: CalcState, ds: Seq<int>) -> CalcState
    decreases ds.len(),
{
    if ds.len() == 0 {
        s
    } else {
        enter_digits(s, ds.drop_last()).press_digit(ds.last())
    }
}

proof fn lemma_pow10_monotone(a: nat, b: nat)
    requires
        a <= b,
    ensures
        1 <= pow10(a) <= pow10(b),
    decreases b,
{
    if b > 0 {
        if a < b {
            lemma_pow10_monotone(a, (b - 1) as nat);
        } else {
            lemma_pow10_monotone((b - 1) as nat, (b - 1) as nat);
        }
    }
}

proof fn lemma_enter_fresh(ds: Seq<int>)
    requires
        ds.len() <= MAX_DIGITS,
        all_digits(ds),
    ensures
        enter_digits(CalcState::initial(), ds) == (CalcState {
            input: numeral_value(ds),
            ..CalcState::initial()
        }),
        0 <= numeral_value(ds) < pow10(ds.len()),
    decreases ds.len(),
{
    if ds.len() > 0 {
        let p = ds.drop_last();
        let d = ds.last();
        assert(all_digits(p)) by {
            assert forall|i: int| 0 <= i < p.len() implies 0 <= #[trigger] p[i] <= 9 by {
                assert(p[i] == ds[i]);
            }
        }
        assert(0 <= ds[ds.len() - 1] <= 9);
        lemma_enter_fresh(p);
        crate::model::lemma_bounds_are_powers();
        lemma_pow10_monotone(p.len(), (MAX_DIGITS - 1) as nat);
        let v = numeral_value(p);
        assert(v * 10 + d < 10 * pow10(p.len())) by (nonlinear_arith)
            requires
                0 <= v < pow10(p.len()),
                0 <= d <= 9,
        ;
        assert(pow10(ds.len()) == 10 * pow10(p.len()));
    }
}

/// Digits typed into a fresh calculator, up to `MAX_DIGITS` of them, are displayed as the
/// decimal numeral they spell: leading zeros are dropped, every other digit is appended.
pub proof fn lemma_digit_entry_display(ds: Seq<int>)
    requires
        ds.len() <= MAX_DIGITS,
        all_digits(ds),
    ensures
        enter_digits(CalcState::initial(), ds).input == numeral_value(ds),
        enter_digits(CalcState::initial(), ds).display_string() == decimal(numeral_value(ds)),
{
    lemma_enter_fresh(ds);
}

/// Once the entry holds `MAX_DIGITS` digits, further digit presses leave it unchanged.
pub proof fn lemma_digit_entry_capped(s: CalcState, ds: Seq<int>)
    requires
        s.wf(),
        !s.equals_pressed,
        !s.error,
        s.input >= entry_bound(),
        all_digits(ds),
    ensures
        enter_digits(s, ds).input == s.input,
        !enter_digits(s, ds).error,
        !enter_digits(s, ds).equals_pressed,
    decreases ds.len(),
{
    if ds.len() > 0 {
        let p = ds.drop_last();
        assert(all_digits(p)) by {
            assert forall|i: int| 0 <= i < p.len() implies 0 <= #[trigger] p[i] <= 9 by {
                assert(p[i] == ds[i]);
            }
        }
        lemma_digit_entry_capped(s, p);
    }
}

/// While no error is shown, the accumulator and the entry have at most `MAX_DIGITS`
/// digits, so the arithmetic is exact: the bounds of `i64` that `combine` keeps to are
/// reached only after an overflow has already been shown.
pub proof fn lemma_exact_arithmetic(s: CalcState)
    requires
        s.wf(),
        !s.error,
    ensures
        combine(Operation::Add, s.accumulator, s.input) == s.accumulator + s.input,
        combine(Operation::Subtract, s.accumulator, s.input) == s.accumulator - s.input,
        combine(Operation::Multiply, s.accumulator, s.input) == s.accumulator * s.input,
{
    let a = s.accumulator;
    let b = s.input;
    assert(-10_000_000_000_000_000 < a * b < 10_000_000_000_000_000) by (nonlinear_arith)
        requires
            -100_000_000 < a < 100_000_000,
            0 <= b < 100_000_000,
    ;
}

/// An operation followed at once by equals combines the accumulator with an entry of zero.
pub proof fn lemma_operation_then_equals(s: CalcState, op: Operation)
    requires
        s.wf(),
    ensures
        s.press_operation(op).input == 0,
        s.press_operation(op).press_equals().accumulator == combine(
            op,
            s.press_operation(op).accumulator,
            0,
        ),
        s.press_operation(op).press_equals().display == DisplaySource::Accumulator,
        s.press_operation(op).press_equals().error == (s.press_operation(op).error || op
            == Operation::Divide || out_of_range(combine(op, s.press_operation(op).accumulator, 0))),
{
}

/// Equals pressed again applies the last operation, with the last operand, to the result
/// of the previous equals, and keeps both for the next repetition.
pub proof fn lemma_repeat_equals(s: CalcState)
    requires
        s.wf(),
        s.equals_pressed,
    ensures
        s.press_equals().accumulator == combine(
            s.stored_operation,
            s.accumulator,
            s.stored_operand,
        ),
        s.press_equals().stored_operation == s.stored_operation,
        s.press_equals().stored_operand == s.stored_operand,
        s.press_equals().equals_pressed,
{
}

/// An operation key, unless it follows equals, first applies the pending operation to the
/// accumulator and the entry, and shows the result.
pub proof fn lemma_chained_operation(s: CalcState, op: Operation)
    requires
        s.wf(),
        !s.equals_pressed,
    ensures
        s.press_operation(op).accumulator == combine(
            s.current_operation,
            s.accumulator,
            s.input,
        ),
        s.press_operation(op).current_operation == op,
        s.press_operation(op).shown_value() == s.press_operation(op).accumulator,
{
}

/// Dividing by an empty or zero entry shows "error"; the next digit starts afresh and
/// shows that digit.
pub proof fn lemma_divide_by_zero(s: CalcState, d: int)
    requires
        s.wf(),
        !s.error,
        s.current_operation == Operation::Divide,
        s.input == 0,
        !s.equals_pressed,
        0 <= d <= 9,
    ensures
        s.press_equals().display_string() == divide_message(),
        s.press_equals().press_digit(d).display_string() == decimal(d),
        s.press_equals().press_digit(d) == (CalcState {
            input: d,
            message: divide_message(),
            ..CalcState::initial()
        }),
{
}

/// Whenever the accumulator holds more than `MAX_DIGITS` digits, in particular right
/// after a key press that produced such a result, the display shows "overflow".
pub proof fn lemma_overflow_shown(s: CalcState, op: Operation)
    requires
        s.wf(),
    ensures
        out_of_range(s.accumulator) ==> s.display_string() == overflow_message(),
        out_of_range(s.press_equals().accumulator) ==> s.press_equals().display_string()
            == overflow_message(),
        out_of_range(s.press_operation(op).accumulator) ==> s.press_operation(op).display_string()
            == overflow_message(),
{
}

} // verus!
