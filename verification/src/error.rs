//! The failures that the entity reports.

use vstd::prelude::*;

verus! {

/// A field of a deposit request.
#[derive(Debug, Clone, Copy, PartialEq, Eq, Structural)]
pub enum RequestField {
    /// The authentication token.
    Auth,
    /// The proof-of-ownership public key.
    ProofKey,
}

/// Whose matter a failure is.
#[derive(Debug, Clone, Copy, PartialEq, Eq, Structural)]
pub enum ErrorClass {
    /// The client sent something unacceptable.
    Client,
    /// The entity cannot serve right now.
    Transient,
    /// The entity is at fault.
    Internal,
    /// The entity cannot start.
    Fatal,
}

/// Why an operation of the entity failed.
#[derive(Debug, Clone, Copy, PartialEq, Eq, Structural)]
pub enum SEError {
    /// A field of the request is empty. Nothing was written.
    ValidationError(RequestField),
    /// Every identifier that was drawn was already taken. Nothing was written.
    ConflictError,
    /// The store could not be reached, or the write timed out.
    StorageUnavailable,
    /// No consistent operating policy is loaded.
    PolicyUninitialized,
}

impl SEError {
    /// The stable, machine-readable kind of the failure.
    pub open spec fn spec_kind(self) -> Seq<char> {
        match self {
            SEError::ValidationError(_) => "validation_error"@,
            SEError::ConflictError => "conflict"@,
            SEError::StorageUnavailable => "storage_unavailable"@,
            SEError::PolicyUninitialized => "policy_uninitialized"@,
        }
    }

    /// The text that a client is shown. It names the request field at fault and
    /// nothing of the store.
    pub open spec fn spec_message(self) -> Seq<char> {
        match self {
            SEError::ValidationError(RequestField::Auth) => "auth must not be empty"@,
            SEError::ValidationError(RequestField::ProofKey) => "proof_key must not be empty"@,
            SEError::ConflictError => "no free session identifier was found"@,
            SEError::StorageUnavailable => "the session store is unavailable"@,
            SEError::PolicyUninitialized => "the operating policy is not loaded"@,
        }
    }

    /// Whose matter the failure is.
    pub open spec fn spec_class(self) -> ErrorClass {
        match self {
            SEError::ValidationError(_) => ErrorClass::Client,
            SEError::ConflictError => ErrorClass::Internal,
            SEError::StorageUnavailable => ErrorClass::Transient,
            SEError::PolicyUninitialized => ErrorClass::Fatal,
        }
    }

    /// Whether the client may send the same request again: the store was
    /// unreachable, or identifiers collided. In both cases nothing was
    /// written, and the same request may go through next time.
    pub open spec fn spec_is_retryable(self) -> bool {
        self == SEError::StorageUnavailable || self == SEError::ConflictError
    }

    pub fn kind(&self) -> (text: &'static str)
        ensures
            text@ == self.spec_kind(),
    {
        match self {
            SEError::ValidationError(_) => "validation_error",
            SEError::ConflictError => "conflict",
            SEError::StorageUnavailable => "storage_unavailable",
            SEError::PolicyUninitialized => "policy_uninitialized",
        }
    }

    pub fn message(&self) -> (text: String)
        ensures
            text@ == self.spec_message(),
    {
        match self {
            SEError::ValidationError(RequestField::Auth) => "auth must not be empty".to_owned(),
            SEError::ValidationError(RequestField::ProofKey) => {
                "proof_key must not be empty".to_owned()
            },
            SEError::ConflictError => "no free session identifier was found".to_owned(),
            SEError::StorageUnavailable => "the session store is unavailable".to_owned(),
            SEError::PolicyUninitialized => "the operating policy is not loaded".to_owned(),
        }
    }

    pub fn class(&self) -> (class: ErrorClass)
        ensures
            class == self.spec_class(),
    {
        match self {
            SEError::ValidationError(_) => ErrorClass::Client,
            SEError::ConflictError => ErrorClass::Internal,
            SEError::StorageUnavailable => ErrorClass::Transient,
            SEError::PolicyUninitialized => ErrorClass::Fatal,
        }
    }

    pub fn is_retryable(&self) -> (retryable: bool)
        ensures
            retryable == self.spec_is_retryable(),
    {
        match self {
            SEError::StorageUnavailable => true,
            SEError::ConflictError => true,
            _ => false,
        }
    }
}

} // verus!
