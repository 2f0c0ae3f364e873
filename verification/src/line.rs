//! Single operations on numbered GPIO lines.
//!
//! The driver never touches a line itself. It names the operation to
//! perform; whoever owns the hardware performs it and reports how it went.

use crate::errors::{LineOperation, TestToolError};
use vstd::prelude::*;

verus! {

/// One operation on one GPIO line.
#[derive(Clone, Copy, Debug, PartialEq, Eq, Structural)]
pub enum LineAction {
    /// Claim `line` for this process.
    Reserve { line: u64 },
    /// Configure `line` as an output.
    SetDirectionOutput { line: u64 },
    /// Drive `line` low (`value` 0) or high (`value` 1).
    SetValue { line: u64, value: u8 },
}

impl LineAction {
    /// The line that the action works on.
    pub open spec fn spec_line(self) -> u64 {
        match self {
            LineAction::Reserve { line } => line,
            LineAction::SetDirectionOutput { line } => line,
            LineAction::SetValue { line, .. } => line,
        }
    }

    /// The kind of operation that the action performs.
    pub open spec fn spec_operation(self) -> LineOperation {
        match self {
            LineAction::Reserve { .. } => LineOperation::Reserve,
            LineAction::SetDirectionOutput { .. } => LineOperation::SetDirection,
            LineAction::SetValue { .. } => LineOperation::SetValue,
        }
    }

    /// The error that a failure of the action is reported as.
    pub open spec fn spec_failure(self) -> TestToolError {
        TestToolError::GpioError { operation: self.spec_operation(), line: self.spec_line() }
    }

    /// The line that the action works on.
    #[verifier::when_used_as_spec(spec_line)]
    pub fn line(self) -> (line: u64)
        ensures
            line == self.spec_line(),
    {
        match self {
            LineAction::Reserve { line } => line,
            LineAction::SetDirectionOutput { line } => line,
            LineAction::SetValue { line, .. } => line,
        }
    }

    /// The kind of operation that the action performs.
    #[verifier::when_used_as_spec(spec_operation)]
    pub fn operation(self) -> (operation: LineOperation)
        ensures
            operation == self.spec_operation(),
    {
        match self {
            LineAction::Reserve { .. } => LineOperation::Reserve,
            LineAction::SetDirectionOutput { .. } => LineOperation::SetDirection,
            LineAction::SetValue { .. } => LineOperation::SetValue,
        }
    }

    /// The error that a failure of the action is reported as: it names the
    /// operation and the line.
    #[verifier::when_used_as_spec(spec_failure)]
    pub fn failure(self) -> (error: TestToolError)
        ensures
            error == self.spec_failure(),
    {
        TestToolError::GpioError { operation: self.operation(), line: self.line() }
    }
}

} // verus!
