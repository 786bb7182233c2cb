use vstd::prelude::*;

verus! {

/// Broad class of a failure.
#[derive(Debug, Clone, Copy, PartialEq, Eq, Structural)]
pub enum ErrorType {
    Telegramm,
    Unexpected,
    Parse,
    Service,
    Database,
    Validation,
}

/// A failure with a human-readable message.
#[derive(Debug)]
pub struct ErrorHandler {
    pub msg: String,
    pub ty: ErrorType,
}

impl ErrorHandler {
    /// Service and storage failures stop the whole bot; the others fail one event.
    pub fn is_critical(&self) -> (r: bool)
        ensures
            r <==> (self.ty == ErrorType::Service || self.ty == ErrorType::Database),
    {
        match self.ty {
            ErrorType::Service | ErrorType::Database => true,
            _ => false,
        }
    }
}

} // verus!
