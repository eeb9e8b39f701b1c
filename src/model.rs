use vstd::prelude::*;

use crate::decimal::decimal;
use crate::operation::Operation;

verus! {

/// Largest number of decimal digits an entry or a result may have.
pub const MAX_DIGITS: u32 = 8;

/// Which number the display shows.
#[derive(Clone, Copy, PartialEq, Eq, Structural, Debug)]
pub enum DisplaySource {
    Input,
    Accumulator,
}

/// Ten to the power `n`.
pub open spec fn pow10(n: nat) -> int
    decreases n,
{
    if n == 0 {
        1
    } else {
        10 * pow10((n - 1) as nat)
    }
}

/// Magnitude at which a result no longer fits the display.
pub open spec fn result_bound() -> int {
    100_000_000
}

/// An entry below this bound still takes one more digit.
pub open spec fn entry_bound() -> int {
    10_000_000
}

/// The two bounds are ten to the powers `MAX_DIGITS` and `MAX_DIGITS - 1`.
pub proof fn lemma_bounds_are_powers()
    ensures
        result_bound() == pow10(MAX_DIGITS as nat),
        entry_bound() == pow10((MAX_DIGITS - 1) as nat),
{
    reveal_with_fuel(pow10, 9);
}

/// Keeps `v` within the range of `i64`.
pub open spec fn clamp(v: int) -> int {
    if v > i64::MAX {
        i64::MAX as int
    } else if v < i64::MIN {
        i64::MIN as int
    } else {
        v
    }
}

/// Integer division rounded toward zero, for a positive divisor.
pub open spec fn trunc_div(a: int, b: int) -> int
    recommends
        b > 0,
{
    if a >= 0 {
        a / b
    } else {
        -((-a) / b)
    }
}

/// The accumulator after `op` combines it with `operand`. A division by zero leaves it
/// as it was. Results are held within `i64`; a result that needs more is far past
/// `result_bound()` and is shown as an overflow in any case.
pub open spec fn combine(op: Operation, acc: int, operand: int) -> int {
    match op {
        Operation::NoOp => operand,
        Operation::Add => clamp(acc + operand),
        Operation::Subtract => clamp(acc - operand),
        Operation::Multiply => clamp(acc * operand),
        Operation::Divide => if operand == 0 {
            acc
        } else {
            trunc_div(acc, operand)
        },
    }
}

/// Whether `v` has more digits than the display holds.
pub open spec fn out_of_range(v: int) -> bool {
    v >= result_bound() || v <= -result_bound()
}

/// The message shown after a division by zero.
pub open spec fn divide_message() -> Seq<char> {
    seq!['e', 'r', 'r', 'o', 'r']
}

/// The message shown after a result out of range.
pub open spec fn overflow_message() -> Seq<char> {
    seq!['o', 'v', 'e', 'r', 'f', 'l', 'o', 'w']
}

/// The abstract state of a calculator.
pub struct CalcState {
    pub accumulator: int,
    pub input: int,
    pub stored_operand: int,
    pub current_operation: Operation,
    pub stored_operation: Operation,
    pub display: DisplaySource,
    pub equals_pressed: bool,
    pub error: bool,
    pub message: Seq<char>,
}

impl CalcState {
    /// The state of a fresh calculator.
    pub open spec fn initial() -> CalcState {
        CalcState {
            accumulator: 0,
            input: 0,
            stored_operand: 0,
            current_operation: Operation::NoOp,
            stored_operation: Operation::NoOp,
            display: DisplaySource::Input,
            equals_pressed: false,
            error: false,
            message: seq![],
        }
    }

    /// The invariant that every reachable state keeps.
    pub open spec fn wf(self) -> bool {
        &&& 0 <= self.input < result_bound()
        &&& 0 <= self.stored_operand < result_bound()
        &&& i64::MIN <= self.accumulator <= i64::MAX
        &&& self.equals_pressed ==> self.input == 0
        &&& out_of_range(self.accumulator) ==> self.error && self.message == overflow_message()
    }

    /// Clears all numbers, operations and the error; the last message is kept but not
    /// shown.
    pub open spec fn reset(self) -> CalcState {
        CalcState { message: self.message, ..CalcState::initial() }
    }

    /// The entry after digit `d` is typed: a zero entry is replaced, a full one is kept.
    pub open spec fn typed(input: int, d: int) -> int {
        if input == 0 {
            d
        } else if input < entry_bound() {
            input * 10 + d
        } else {
            input
        }
    }

    pub open spec fn press_digit(self, d: int) -> CalcState {
        let s = if self.equals_pressed || self.error {
            self.reset()
        } else {
            self
        };
        CalcState { input: CalcState::typed(s.input, d), display: DisplaySource::Input, ..s }
    }

    /// Applies the pending operation to the accumulator and the entry.
    pub open spec fn perform(self) -> CalcState {
        let acc = combine(self.current_operation, self.accumulator, self.input);
        let by_zero = self.current_operation == Operation::Divide && self.input == 0;
        let over = out_of_range(acc);
        CalcState {
            accumulator: acc,
            error: self.error || by_zero || over,
            message: if over {
                overflow_message()
            } else if by_zero {
                divide_message()
            } else {
                self.message
            },
            ..self
        }
    }

    pub open spec fn press_operation(self, op: Operation) -> CalcState {
        let s = if !self.equals_pressed {
            CalcState { input: 0, ..self.perform() }
        } else {
            self
        };
        CalcState {
            display: DisplaySource::Accumulator,
            current_operation: op,
            equals_pressed: false,
            ..s
        }
    }

    pub open spec fn press_equals(self) -> CalcState {
        let s = if self.equals_pressed {
            CalcState {
                input: self.stored_operand,
                current_operation: self.stored_operation,
                ..self
            }
        } else {
            self
        };
        let p = s.perform();
        CalcState {
            stored_operation: p.current_operation,
            current_operation: Operation::NoOp,
            stored_operand: p.input,
            equals_pressed: true,
            display: DisplaySource::Accumulator,
            input: 0,
            ..p
        }
    }

    /// The number the display selects.
    pub open spec fn shown_value(self) -> int {
        match self.display {
            DisplaySource::Input => self.input,
            DisplaySource::Accumulator => self.accumulator,
        }
    }

    /// The text on the display.
    pub open spec fn display_string(self) -> Seq<char> {
        if self.error {
            self.message
        } else {
            decimal(self.shown_value())
        }
    }
}

} // verus!
