use vstd::prelude::*;

verus! {

/// The class of a failure, without its text.
#[derive(Clone, Copy, Debug, PartialEq, Eq, Structural)]
pub enum ErrorKind {
    Validation,
    ArithmeticOverflow,
    ArithmeticUnderflow,
    UnsupportedToken,
    NotImplemented,
    UnknownCorrelationId,
    DuplicateCorrelationId,
    Exchange,
}

/// Every failure is fatal to the request that met it.
#[derive(Debug, PartialEq, Eq)]
pub enum ContractError {
    /// Malformed input, such as an unrecognized play identifier.
    ValidationError { reason: String },
    /// A result does not fit its width, or a quotient has no value.
    ArithmeticOverflow,
    /// A subtraction would go below zero.
    ArithmeticUnderflow,
    /// A native denomination was asked of a contract-issued token.
    UnsupportedToken,
    /// The play does not support this combination of tokens.
    NotImplemented { reason: String },
    /// A reply arrived for an id with no pending continuation.
    UnknownCorrelationId { id: u64 },
    /// A continuation is already pending under this id.
    DuplicateCorrelationId { id: u64 },
    /// A failure reported by the exchange, carried verbatim.
    Std { msg: String },
}

impl ContractError {
    pub open spec fn kind(&self) -> ErrorKind {
        match self {
            ContractError::ValidationError { .. } => ErrorKind::Validation,
            ContractError::ArithmeticOverflow => ErrorKind::ArithmeticOverflow,
            ContractError::ArithmeticUnderflow => ErrorKind::ArithmeticUnderflow,
            ContractError::UnsupportedToken => ErrorKind::UnsupportedToken,
            ContractError::NotImplemented { .. } => ErrorKind::NotImplemented,
            ContractError::UnknownCorrelationId { .. } => ErrorKind::UnknownCorrelationId,
            ContractError::DuplicateCorrelationId { .. } => ErrorKind::DuplicateCorrelationId,
            ContractError::Std { .. } => ErrorKind::Exchange,
        }
    }

    /// The class of this failure.
    pub fn error_kind(&self) -> (k: ErrorKind)
        ensures
            k == self.kind(),
    {
        match self {
            ContractError::ValidationError { .. } => ErrorKind::Validation,
            ContractError::ArithmeticOverflow => ErrorKind::ArithmeticOverflow,
            ContractError::ArithmeticUnderflow => ErrorKind::ArithmeticUnderflow,
            ContractError::UnsupportedToken => ErrorKind::UnsupportedToken,
            ContractError::NotImplemented { .. } => ErrorKind::NotImplemented,
            ContractError::UnknownCorrelationId { .. } => ErrorKind::UnknownCorrelationId,
            ContractError::DuplicateCorrelationId { .. } => ErrorKind::DuplicateCorrelationId,
            ContractError::Std { .. } => ErrorKind::Exchange,
        }
    }
}

} // verus!
