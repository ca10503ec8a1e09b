use vstd::prelude::*;

pub mod address;
pub mod identity;
pub mod instruction;
pub mod processor;
pub mod reward;
pub mod state;

verus! {

/// The mathematical model of an operation's result: the value's view on
/// success, the error unchanged on failure.
pub open spec fn view_result<T: View>(r: Result<T, FarmError>) -> Result<T::V, FarmError> {
    match r {
        Ok(v) => Ok(v@),
        Err(e) => Err(e),
    }
}

/// Errors an engine operation can report. Every failure aborts the whole
/// invocation; no partial record writes are observable.
#[derive(Debug, Clone, Copy, PartialEq, Eq, Structural)]
pub enum FarmError {
    /// Bad opcode or malformed instruction payload.
    InvalidInput,
    /// Bad flag byte or truncated record buffer.
    InvalidRecordData,
    /// The registry was already initialized once.
    AlreadyInitialized,
    /// A caller-supplied account does not match its required derivation.
    AddressMismatch,
    /// A counter or reward computation would exceed its bounds.
    ArithmeticOverflow,
    /// A counter decrement or time subtraction would go below zero.
    ArithmeticUnderflow,
}

} // verus!
