use vstd::prelude::*;

verus! {

/// The ways in which one step of the interpreter can fail.
#[derive(Debug, Clone, Copy, PartialEq, Eq, Structural)]
pub enum ChipError {
    /// An address, or a 16-bit register that holds one, left its valid range.
    AddressBoundaryError,
    /// The instruction word, or one of its operands, matches no instruction.
    InvalidOpcode,
    /// A return was executed while the call stack was empty.
    StackUnderflow,
    /// A call was executed while the call stack already held sixteen entries.
    StackOverflow,
}

impl ChipError {
    /// The text that describes this error to a user.
    pub open spec fn message_text(self) -> Seq<char> {
        match self {
            ChipError::AddressBoundaryError => "Address of out memory boundary"@,
            ChipError::InvalidOpcode => "Invalid Opcode operand"@,
            ChipError::StackUnderflow => "Return with an empty call stack"@,
            ChipError::StackOverflow => "Call with a full call stack"@,
        }
    }

    /// Renders the error as text.
    pub fn message(&self) -> (text: String)
        ensures
            text@ == self.message_text(),
    {
        match self {
            ChipError::AddressBoundaryError => "Address of out memory boundary".to_string(),
            ChipError::InvalidOpcode => "Invalid Opcode operand".to_string(),
            ChipError::StackUnderflow => "Return with an empty call stack".to_string(),
            ChipError::StackOverflow => "Call with a full call stack".to_string(),
        }
    }
}

} // verus!
