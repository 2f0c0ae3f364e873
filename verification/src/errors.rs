//! What can go wrong while an image is shifted out.

use vstd::prelude::*;

verus! {

/// The three things the driver asks of a GPIO line.
#[derive(Clone, Copy, Debug, PartialEq, Eq, Structural)]
pub enum LineOperation {
    /// Claim the line for this process.
    Reserve,
    /// Configure the line as an output.
    SetDirection,
    /// Drive the line low or high.
    SetValue,
}

/// Failure of the hardware under the driver.
#[derive(Clone, Copy, Debug, PartialEq, Eq, Structural)]
pub enum TestToolError {
    /// A line operation was refused: which one, and on which line.
    GpioError { operation: LineOperation, line: u64 },
}

impl TestToolError {
    /// The line operation that failed.
    pub fn operation(&self) -> (operation: LineOperation)
        ensures
            operation == self->operation,
    {
        match self {
            TestToolError::GpioError { operation, .. } => *operation,
        }
    }

    /// The number of the line on which the operation failed.
    pub fn line(&self) -> (line: u64)
        ensures
            line == self->line,
    {
        match self {
            TestToolError::GpioError { line, .. } => *line,
        }
    }
}

} // verus!
