use vstd::prelude::*;

verus! {

/// One of the four arithmetic keys, or no pending operation.
#[derive(Clone, Copy, PartialEq, Eq, Structural, Debug)]
pub enum Operation {
    NoOp,
    Add,
    Subtract,
    Multiply,
    Divide,
}

impl Operation {
    /// The key label of the operation; empty for `NoOp`.
    pub open spec fn label(self) -> Seq<char> {
        match self {
            Operation::NoOp => seq![],
            Operation::Add => seq!['+'],
            Operation::Subtract => seq!['-'],
            Operation::Multiply => seq!['*'],
            Operation::Divide => seq!['/'],
        }
    }

    pub fn to_str(&self) -> (r: &'static str)
        ensures
            r@ == self.label(),
    {
        proof {
            reveal_strlit("");
            reveal_strlit("+");
            reveal_strlit("-");
            reveal_strlit("*");
            reveal_strlit("/");
        }
        match self {
            Operation::NoOp => "",
            Operation::Add => "+",
            Operation::Subtract => "-",
            Operation::Multiply => "*",
            Operation::Divide => "/",
        }
    }
}

} // verus!
