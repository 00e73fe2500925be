use vstd::prelude::*;

verus! {

/// Why an operation on a market was refused. Every refusal leaves the market as it was.
#[derive(Clone, Copy, Debug, PartialEq, Eq, Structural)]
pub enum PredictionMarketError {
    /// The statement is empty.
    EmptyStatement,
    /// The statement is longer than `MAX_STATEMENT_LEN` bytes.
    StatementTooLong,
    /// The close time is not strictly after the current time.
    InvalidCloseTime,
    /// The fee rate is above 10000 basis points.
    InvalidFee,
    /// An amount of zero was given where a positive one is needed.
    InvalidAmount,
    /// The market is not in the `Active` state, or its trading window has closed.
    MarketNotActive,
    /// The market already carries an outcome.
    MarketAlreadyResolved,
    /// The caller may not resolve the market yet.
    Unauthorized,
    /// A checked arithmetic step overflowed, underflowed or divided by zero.
    ArithmeticOverflow,
    /// The trade would hand out nothing.
    InsufficientOutput,
    /// An address does not match the one derived for it.
    InvalidMarketReference,
}

/// The kinds into which every refusal falls.
#[derive(Clone, Copy, Debug, PartialEq, Eq, Structural)]
pub enum ErrorKind {
    InvalidParameter,
    MarketNotActive,
    MarketAlreadyResolved,
    Unauthorized,
    ArithmeticOverflow,
    InsufficientOutput,
    InvalidMarketReference,
}

impl PredictionMarketError {
    /// The kind of each error: the five parameter errors share one kind, every other
    /// error is a kind of its own.
    pub open spec fn kind_of(self) -> ErrorKind {
        match self {
            PredictionMarketError::EmptyStatement => ErrorKind::InvalidParameter,
            PredictionMarketError::StatementTooLong => ErrorKind::InvalidParameter,
            PredictionMarketError::InvalidCloseTime => ErrorKind::InvalidParameter,
            PredictionMarketError::InvalidFee => ErrorKind::InvalidParameter,
            PredictionMarketError::InvalidAmount => ErrorKind::InvalidParameter,
            PredictionMarketError::MarketNotActive => ErrorKind::MarketNotActive,
            PredictionMarketError::MarketAlreadyResolved => ErrorKind::MarketAlreadyResolved,
            PredictionMarketError::Unauthorized => ErrorKind::Unauthorized,
            PredictionMarketError::ArithmeticOverflow => ErrorKind::ArithmeticOverflow,
            PredictionMarketError::InsufficientOutput => ErrorKind::InsufficientOutput,
            PredictionMarketError::InvalidMarketReference => ErrorKind::InvalidMarketReference,
        }
    }

    /// The kind of this error.
    pub fn kind(&self) -> (k: ErrorKind)
        ensures
            k == self.kind_of(),
    {
        match self {
            PredictionMarketError::EmptyStatement => ErrorKind::InvalidParameter,
            PredictionMarketError::StatementTooLong => ErrorKind::InvalidParameter,
            PredictionMarketError::InvalidCloseTime => ErrorKind::InvalidParameter,
            PredictionMarketError::InvalidFee => ErrorKind::InvalidParameter,
            PredictionMarketError::InvalidAmount => ErrorKind::InvalidParameter,
            PredictionMarketError::MarketNotActive => ErrorKind::MarketNotActive,
            PredictionMarketError::MarketAlreadyResolved => ErrorKind::MarketAlreadyResolved,
            PredictionMarketError::Unauthorized => ErrorKind::Unauthorized,
            PredictionMarketError::ArithmeticOverflow => ErrorKind::ArithmeticOverflow,
            PredictionMarketError::InsufficientOutput => ErrorKind::InsufficientOutput,
            PredictionMarketError::InvalidMarketReference => ErrorKind::InvalidMarketReference,
        }
    }
}

} // verus!
