//! The ways an evaluation can fail.

use crate::op::Op;
use vstd::prelude::*;

verus! {

/// Why a token or an evaluation was rejected.
#[derive(Debug, PartialEq, Eq)]
pub enum Error {
    /// The token is none of the accepted spellings of a truth value.
    InvalidBoolean(String),
    /// A binary operator was given no second operand.
    MissingOperand(Op),
    /// The token names no operator.
    UnknownOperator(String),
}

/// The mathematical content of an [`Error`]: tokens are sequences of characters.
pub enum ErrorView {
    InvalidBoolean(Seq<char>),
    MissingOperand(Op),
    UnknownOperator(Seq<char>),
}

impl View for Error {
    type V = ErrorView;

    open spec fn view(&self) -> ErrorView {
        match self {
            Error::InvalidBoolean(token) => ErrorView::InvalidBoolean(token@),
            Error::MissingOperand(op) => ErrorView::MissingOperand(*op),
            Error::UnknownOperator(token) => ErrorView::UnknownOperator(token@),
        }
    }
}

/// A result with its error replaced by the error's view, so that contracts
/// can state a whole outcome as one equation.
pub open spec fn outcome<T>(r: Result<T, Error>) -> Result<T, ErrorView> {
    match r {
        Ok(v) => Ok(v),
        Err(e) => Err(e@),
    }
}

impl ErrorView {
    /// The diagnostic text for the error.
    pub open spec fn message(self) -> Seq<char> {
        match self {
            ErrorView::InvalidBoolean(token) => "invalid bool: "@ + token,
            ErrorView::MissingOperand(op) => op.upper_name_spec() + " needs B"@,
            ErrorView::UnknownOperator(token) => "unknown operator: "@ + token,
        }
    }
}

impl Error {
    /// The diagnostic text for the error, naming the offending token or operator.
    pub fn message(&self) -> (text: String)
        ensures
            text@ == self@.message(),
    {
        match self {
            Error::InvalidBoolean(token) => {
                let mut text = String::from_str("invalid bool: ");
                text.append(token.as_str());
                text
            },
            Error::MissingOperand(op) => {
                let mut text = String::from_str(op.upper_name());
                text.append(" needs B");
                text
            },
            Error::UnknownOperator(token) => {
                let mut text = String::from_str("unknown operator: ");
                text.append(token.as_str());
                text
            },
        }
    }
}

} // verus!
