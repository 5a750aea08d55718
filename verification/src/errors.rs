//! The errors a request can end in, and how inner failures map onto them.

use vstd::prelude::*;

verus! {

/// Why the runtime refused to execute a transaction.
#[derive(Clone, Copy, Debug, PartialEq, Eq, Structural)]
pub enum StarknetTransactionExecutionError {
    ContractNotFound,
    ClassAlreadyDeclared,
    ClassHashNotFound,
    InvalidContractClass,
    ContractError,
}

/// How a call into the runtime failed.
#[derive(Clone, Copy, Debug, PartialEq, Eq, Structural)]
pub enum RuntimeError {
    /// The runtime rejected the call's arguments before executing anything.
    Parameter,
    /// A transaction was executed and failed; the runtime's own account of
    /// the failure comes with it.
    Execution(StarknetTransactionExecutionError),
}

/// Why a wire transaction could not be turned into an executable one.
#[derive(Clone, Copy, Debug, PartialEq, Eq, Structural)]
pub enum ConversionError {
    /// The fee bound or the nonce is absent.
    MissingField,
    /// The fee bound does not fit in 128 bits.
    FeeBoundTooLarge,
    /// An address, a hash, a salt, the nonce or a signature word lies outside
    /// the field.
    MalformedField,
    /// A word of the call data lies outside the field.
    MalformedCalldata,
}

/// The errors a caller of the query API can see.
#[derive(Clone, Copy, Debug, PartialEq, Eq, Structural)]
pub enum StarknetRpcApiError {
    BlockNotFound,
    ContractNotFound,
    ClassAlreadyDeclared,
    ClassHashNotFound,
    InvalidContractClass,
    ContractError,
    InternalServerError,
}

impl StarknetRpcApiError {
    /// The public error that names the same failure as `error`.
    pub open spec fn of_execution(
        error: StarknetTransactionExecutionError,
    ) -> StarknetRpcApiError {
        match error {
            StarknetTransactionExecutionError::ContractNotFound => {
                StarknetRpcApiError::ContractNotFound
            },
            StarknetTransactionExecutionError::ClassAlreadyDeclared => {
                StarknetRpcApiError::ClassAlreadyDeclared
            },
            StarknetTransactionExecutionError::ClassHashNotFound => {
                StarknetRpcApiError::ClassHashNotFound
            },
            StarknetTransactionExecutionError::InvalidContractClass => {
                StarknetRpcApiError::InvalidContractClass
            },
            StarknetTransactionExecutionError::ContractError => StarknetRpcApiError::ContractError,
        }
    }

    /// The public error for a failed runtime call: a rejected argument is an
    /// internal error, a failed execution a contract error.
    pub open spec fn of_runtime(error: RuntimeError) -> StarknetRpcApiError {
        match error {
            RuntimeError::Parameter => StarknetRpcApiError::InternalServerError,
            RuntimeError::Execution(_) => StarknetRpcApiError::ContractError,
        }
    }

    /// The public error for a failed runtime call, for a caller that asks
    /// which execution failure it was.
    pub open spec fn of_runtime_in_detail(error: RuntimeError) -> StarknetRpcApiError {
        match error {
            RuntimeError::Parameter => StarknetRpcApiError::InternalServerError,
            RuntimeError::Execution(cause) => Self::of_execution(cause),
        }
    }

    /// Maps an execution failure to the public error of the same name.
    pub fn from_execution_error(error: StarknetTransactionExecutionError) -> (public:
        StarknetRpcApiError)
        ensures
            public == Self::of_execution(error),
    {
        match error {
            StarknetTransactionExecutionError::ContractNotFound => {
                StarknetRpcApiError::ContractNotFound
            },
            StarknetTransactionExecutionError::ClassAlreadyDeclared => {
                StarknetRpcApiError::ClassAlreadyDeclared
            },
            StarknetTransactionExecutionError::ClassHashNotFound => {
                StarknetRpcApiError::ClassHashNotFound
            },
            StarknetTransactionExecutionError::InvalidContractClass => {
                StarknetRpcApiError::InvalidContractClass
            },
            StarknetTransactionExecutionError::ContractError => StarknetRpcApiError::ContractError,
        }
    }

    /// Maps a failed runtime call to its public error, without detail.
    pub fn from_runtime_error(error: RuntimeError) -> (public: StarknetRpcApiError)
        ensures
            public == Self::of_runtime(error),
    {
        match error {
            RuntimeError::Parameter => StarknetRpcApiError::InternalServerError,
            RuntimeError::Execution(_) => StarknetRpcApiError::ContractError,
        }
    }

    /// Maps a failed runtime call to its public error, naming the execution
    /// failure.
    pub fn from_runtime_error_in_detail(error: RuntimeError) -> (public: StarknetRpcApiError)
        ensures
            public == Self::of_runtime_in_detail(error),
    {
        match error {
            RuntimeError::Parameter => StarknetRpcApiError::InternalServerError,
            RuntimeError::Execution(cause) => Self::from_execution_error(cause),
        }
    }

    /// Maps a failed conversion to its public error. Whatever the cause, the
    /// caller sees an internal error.
    pub fn from_conversion_error(error: ConversionError) -> (public: StarknetRpcApiError)
        ensures
            public == StarknetRpcApiError::InternalServerError,
    {
        StarknetRpcApiError::InternalServerError
    }
}

/// No failure of the runtime surfaces as a missing block: rejected arguments
/// are an internal error, and a failed execution is a contract error, or,
/// where detail is asked for, the public error of the failure's own name.
pub proof fn law_runtime_failures_keep_their_class(error: RuntimeError)
    ensures
        StarknetRpcApiError::of_runtime(error) != StarknetRpcApiError::BlockNotFound,
        StarknetRpcApiError::of_runtime_in_detail(error) != StarknetRpcApiError::BlockNotFound,
        error is Parameter ==> StarknetRpcApiError::of_runtime(error)
            == StarknetRpcApiError::InternalServerError
            && StarknetRpcApiError::of_runtime_in_detail(error)
            == StarknetRpcApiError::InternalServerError,
        error matches RuntimeError::Execution(cause) ==> StarknetRpcApiError::of_runtime(error)
            == StarknetRpcApiError::ContractError
            && StarknetRpcApiError::of_runtime_in_detail(error)
            == StarknetRpcApiError::of_execution(cause)
            && StarknetRpcApiError::of_execution(cause)
            != StarknetRpcApiError::InternalServerError,
{
}

} // verus!
