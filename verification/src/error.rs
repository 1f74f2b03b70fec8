use vstd::prelude::*;

verus! {

/// Why an operation on a schema was refused.
#[derive(Debug)]
pub enum ArrowError {
    /// An argument did not meet what the operation asks of it; the text says why.
    InvalidArgumentError(String),
}

impl ArrowError {
    /// The text that says why the operation was refused.
    pub open spec fn message(self) -> Seq<char> {
        match self {
            ArrowError::InvalidArgumentError(m) => m@,
        }
    }

    /// The text that says why the operation was refused.
    pub fn message_str(&self) -> (r: &str)
        ensures
            r@ == self.message(),
    {
        match self {
            ArrowError::InvalidArgumentError(m) => m.as_str(),
        }
    }
}

} // verus!
