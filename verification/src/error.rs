//! The errors with which the contract refuses a request.
use vstd::prelude::*;

verus! {

/// Why a request was refused.
#[allow(inconsistent_fields)]
#[derive(Debug, PartialEq, Eq)]
pub enum ContractError {
    /// An error of the host's standard library (an address that does not validate).
    Std(String),
    /// The sender may not perform this operation.
    Unauthorized {},
    /// Exactly one of `from` and `to` is given.
    InvalidDeeplink { id: u64, from: String, to: String, type_: String },
    /// The deeplink's type is not a named deeplink.
    TypeNotExists { type_: String },
    /// The deeplink's `from` is not a named deeplink.
    FromNotExists { from: String },
    /// The deeplink's `to` is not a named deeplink.
    ToNotExists { to: String },
    /// The endpoints' types do not match what the deeplink's type expects.
    TypeConflict {
        id: String,
        type_: String,
        from: String,
        to: String,
        expected_type: String,
        expected_from: String,
        expected_to: String,
        received_type: String,
        received_from: String,
        received_to: String,
    },
}

/// A refusal, as text.
#[allow(inconsistent_fields)]
pub enum ErrorModel {
    Std(Seq<char>),
    Unauthorized,
    InvalidDeeplink { id: u64, from: Seq<char>, to: Seq<char>, type_: Seq<char> },
    TypeNotExists { type_: Seq<char> },
    FromNotExists { from: Seq<char> },
    ToNotExists { to: Seq<char> },
    TypeConflict {
        id: Seq<char>,
        type_: Seq<char>,
        from: Seq<char>,
        to: Seq<char>,
        expected_type: Seq<char>,
        expected_from: Seq<char>,
        expected_to: Seq<char>,
        received_type: Seq<char>,
        received_from: Seq<char>,
        received_to: Seq<char>,
    },
}

impl View for ContractError {
    type V = ErrorModel;

    open spec fn view(&self) -> ErrorModel {
        match self {
            ContractError::Std(msg) => ErrorModel::Std(msg@),
            ContractError::Unauthorized {} => ErrorModel::Unauthorized,
            ContractError::InvalidDeeplink { id, from, to, type_ } => ErrorModel::InvalidDeeplink {
                id: *id,
                from: from@,
                to: to@,
                type_: type_@,
            },
            ContractError::TypeNotExists { type_ } => ErrorModel::TypeNotExists { type_: type_@ },
            ContractError::FromNotExists { from } => ErrorModel::FromNotExists { from: from@ },
            ContractError::ToNotExists { to } => ErrorModel::ToNotExists { to: to@ },
            ContractError::TypeConflict {
                id,
                type_,
                from,
                to,
                expected_type,
                expected_from,
                expected_to,
                received_type,
                received_from,
                received_to,
            } => ErrorModel::TypeConflict {
                id: id@,
                type_: type_@,
                from: from@,
                to: to@,
                expected_type: expected_type@,
                expected_from: expected_from@,
                expected_to: expected_to@,
                received_type: received_type@,
                received_from: received_from@,
                received_to: received_to@,
            },
        }
    }
}

} // verus!
