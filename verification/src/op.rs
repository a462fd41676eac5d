use vstd::prelude::*;

verus! {

/// The arithmetic operation a user can select.
#[derive(Clone, Copy, Debug, PartialEq, Eq, Structural)]
pub enum Operation {
    Add,
    Subtract,
    Multiply,
    Divide,
}

impl Operation {
    /// The glyph a user interface shows for this operation.
    pub open spec fn glyph_spec(self) -> Seq<char> {
        match self {
            Operation::Add => "+"@,
            Operation::Subtract => "-"@,
            Operation::Multiply => "*"@,
            Operation::Divide => "/"@,
        }
    }

    /// The display glyph of this operation.
    pub fn glyph(self) -> (r: &'static str)
        ensures
            r@ == self.glyph_spec(),
    {
        match self {
            Operation::Add => "+",
            Operation::Subtract => "-",
            Operation::Multiply => "*",
            Operation::Divide => "/",
        }
    }
}

} // verus!
