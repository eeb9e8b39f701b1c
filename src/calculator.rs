use vstd::prelude::*;

use crate::decimal::decimal_string;
use crate::model::{clamp, combine, result_bound, trunc_div, CalcState, DisplaySource};
use crate::operation::Operation;

verus! {

/// An entry below this value still takes one more digit: ten to the power
/// `MAX_DIGITS - 1`.
const ENTRY_BOUND: i64 = 10_000_000;

/// A result of this magnitude or more overflows: ten to the power `MAX_DIGITS`.
const RESULT_BOUND: i64 = 100_000_000;

/// Receives the display text each time a key press changes the calculator.
pub trait DisplayListener {
    fn display_changed(&self, text: String);
}

/// A four-function calculator: digit, operation and equals keys in, display text out.
pub struct Calculator {
    display_listeners: Vec<Box<dyn DisplayListener>>,
    accumulator: i64,
    input: i64,
    stored_operand: i64,
    current_operation: Operation,
    stored_operation: Operation,
    current_display: DisplaySource,
    equals_pressed: bool,
    error: bool,
    error_string: String,
}

impl View for Calculator {
    type V = CalcState;

    closed spec fn view(&self) -> CalcState {
        CalcState {
            accumulator: self.accumulator as int,
            input: self.input as int,
            stored_operand: self.stored_operand as int,
            current_operation: self.current_operation,
            stored_operation: self.stored_operation,
            display: self.current_display,
            equals_pressed: self.equals_pressed,
            error: self.error,
            message: self.error_string@,
        }
    }
}

fn clamp_i64(v: i128) -> (r: i64)
    ensures
        r == clamp(v as int),
{
    if v > i64::MAX as i128 {
        i64::MAX
    } else if v < i64::MIN as i128 {
        i64::MIN
    } else {
        v as i64
    }
}

impl Calculator {
    /// The listeners, in the order they were added.
    pub closed spec fn listeners(&self) -> Seq<Box<dyn DisplayListener>> {
        self.display_listeners@
    }

    pub open spec fn wf(&self) -> bool {
        self@.wf()
    }

    pub fn new() -> (r: Calculator)
        ensures
            r.wf(),
            r@ == CalcState::initial(),
            r.listeners().len() == 0,
    {
        Calculator {
            display_listeners: Vec::new(),
            accumulator: 0,
            input: 0,
            stored_operand: 0,
            current_operation: Operation::NoOp,
            stored_operation: Operation::NoOp,
            current_display: DisplaySource::Input,
            equals_pressed: false,
            error: false,
            error_string: String::new(),
        }
    }

    /// Types digit `digit`; after an equals or an error the calculator starts afresh.
    pub fn press_digit(&mut self, digit: i8)
        requires
            old(self).wf(),
            0 <= digit <= 9,
        ensures
            final(self).wf(),
            final(self)@ == old(self)@.press_digit(digit as int),
            final(self).listeners() == old(self).listeners(),
    {
        if self.equals_pressed || self.error {
            self.reset();
        }
        self.current_display = DisplaySource::Input;
        if self.input == 0 {
            self.input = digit as i64;
        } else if self.input < ENTRY_BOUND {
            self.input = self.input * 10 + digit as i64;
        }
        self.update_display();
    }

    /// Finishes the pending step, unless equals was just pressed, and queues `operation`.
    pub fn press_operation(&mut self, operation: Operation)
        requires
            old(self).wf(),
        ensures
            final(self).wf(),
            final(self)@ == old(self)@.press_operation(operation),
            final(self).listeners() == old(self).listeners(),
    {
        if !self.equals_pressed {
            self.perform_operation();
            self.input = 0;
        }
        self.current_display = DisplaySource::Accumulator;
        self.current_operation = operation;
        self.equals_pressed = false;
        self.update_display();
    }

    /// Evaluates the pending operation; pressed again, repeats the last one on the result.
    pub fn press_equals(&mut self)
        requires
            old(self).wf(),
        ensures
            final(self).wf(),
            final(self)@ == old(self)@.press_equals(),
            final(self).listeners() == old(self).listeners(),
    {
        if self.equals_pressed {
            self.input = self.stored_operand;
            self.current_operation = self.stored_operation;
        }
        self.perform_operation();
        self.stored_operation = self.current_operation;
        self.current_operation = Operation::NoOp;
        self.stored_operand = self.input;
        self.equals_pressed = true;
        self.current_display = DisplaySource::Accumulator;
        self.input = 0;
        self.update_display();
    }

    /// Applies the pending operation to the accumulator and the entry.
    pub fn perform_operation(&mut self)
        requires
            0 <= old(self)@.input < result_bound(),
        ensures
            final(self)@ == old(self)@.perform(),
            final(self).listeners() == old(self).listeners(),
    {
        let acc = self.accumulator as i128;
        let operand = self.input as i128;
        match self.current_operation {
            Operation::NoOp => self.accumulator = self.input,
            Operation::Add => self.accumulator = clamp_i64(acc + operand),
            Operation::Subtract => self.accumulator = clamp_i64(acc - operand),
            Operation::Multiply => {
                assert(i64::MIN * RESULT_BOUND <= acc * operand <= i64::MAX * RESULT_BOUND)
                    by (nonlinear_arith)
                    requires
                        i64::MIN <= acc <= i64::MAX,
                        0 <= operand < RESULT_BOUND,
                ;
                self.accumulator = clamp_i64(acc * operand);
            },
            Operation::Divide => if self.input == 0 {
                self.error = true;
                self.error_string = String::from_str("error");
            } else {
                self.accumulator = self.accumulator / self.input;
                assert(self.accumulator == trunc_div(acc as int, operand as int));
            },
        }
        if self.accumulator >= RESULT_BOUND || self.accumulator <= -RESULT_BOUND {
            self.error = true;
            self.error_string = String::from_str("overflow");
        }
        proof {
            reveal_strlit("error");
            reveal_strlit("overflow");
        }
        assert(self.accumulator == combine(self.current_operation, acc as int, operand as int));
        assert(self.error_string@ == old(self)@.perform().message);
    }

    /// Adds a listener; it is called after every key press, after those added before it.
    pub fn add_display_listener(&mut self, listener: Box<dyn DisplayListener>)
        ensures
            final(self)@ == old(self)@,
            final(self).listeners() == old(self).listeners().push(listener),
    {
        self.display_listeners.push(listener);
    }

    /// The text on the display: the error message, or the number shown.
    pub fn get_display_string(&self) -> (r: String)
        ensures
            r@ == self@.display_string(),
    {
        if self.error {
            self.error_string.clone()
        } else {
            decimal_string(self.get_display_value())
        }
    }

    fn reset(&mut self)
        ensures
            final(self)@ == old(self)@.reset(),
            final(self).listeners() == old(self).listeners(),
    {
        self.accumulator = 0;
        self.input = 0;
        self.stored_operand = 0;
        self.current_operation = Operation::NoOp;
        self.stored_operation = Operation::NoOp;
        self.current_display = DisplaySource::Input;
        self.equals_pressed = false;
        self.error = false;
    }

    fn get_display_value(&self) -> (r: i64)
        ensures
            r == self@.shown_value(),
    {
        match self.current_display {
            DisplaySource::Accumulator => self.accumulator,
            DisplaySource::Input => self.input,
        }
    }

    fn update_display(&self) {
        let mut i: usize = 0;
        while i < self.display_listeners.len()
            decreases self.display_listeners.len() - i,
        {
            self.display_listeners[i].display_changed(self.get_display_string());
            i = i + 1;
        }
    }
}

} // verus!
