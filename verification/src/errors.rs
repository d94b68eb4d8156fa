//! Failure kinds of the protocol core and the error-code surface shown to a
//! foreign caller. Every internal failure kind maps onto exactly one
//! external code, and the mapping is a function, so it is total and stable.

use vstd::prelude::*;

verus! {

/// A failure of the protocol core, by kind.
#[derive(Clone, Copy, PartialEq, Eq, Structural, Debug)]
pub enum SignalProtocolError {
    InvalidState,
    UnrecognizedMessageVersion,
    InvalidMessage,
    InvalidKey,
    SignatureValidationFailed,
    UntrustedIdentity,
    InvalidPreKeyId,
    InvalidSignedPreKeyId,
    SessionNotFound,
    InvalidRegistrationId,
    InvalidSessionStructure,
    DuplicatedMessage,
    /// An upstream store or oracle failure, propagated opaquely.
    ApplicationCallbackError,
}

/// The stable numeric code surface a foreign caller sees.
#[derive(Clone, Copy, PartialEq, Eq, Structural, Debug)]
pub enum SignalErrorCode {
    UnknownError,
    InvalidState,
    UnrecognizedMessageVersion,
    InvalidMessage,
    InvalidKey,
    InvalidSignature,
    UntrustedIdentity,
    InvalidKeyIdentifier,
    SessionNotFound,
    InvalidRegistrationId,
    InvalidSession,
    DuplicatedMessage,
    CallbackError,
}

/// The external code that stands for an internal failure kind.
pub open spec fn spec_error_code(err: SignalProtocolError) -> SignalErrorCode {
    match err {
        SignalProtocolError::InvalidState => SignalErrorCode::InvalidState,
        SignalProtocolError::UnrecognizedMessageVersion => SignalErrorCode::UnrecognizedMessageVersion,
        SignalProtocolError::InvalidMessage => SignalErrorCode::InvalidMessage,
        SignalProtocolError::InvalidKey => SignalErrorCode::InvalidKey,
        SignalProtocolError::SignatureValidationFailed => SignalErrorCode::InvalidSignature,
        SignalProtocolError::UntrustedIdentity => SignalErrorCode::UntrustedIdentity,
        SignalProtocolError::InvalidPreKeyId => SignalErrorCode::InvalidKeyIdentifier,
        SignalProtocolError::InvalidSignedPreKeyId => SignalErrorCode::InvalidKeyIdentifier,
        SignalProtocolError::SessionNotFound => SignalErrorCode::SessionNotFound,
        SignalProtocolError::InvalidRegistrationId => SignalErrorCode::InvalidRegistrationId,
        SignalProtocolError::InvalidSessionStructure => SignalErrorCode::InvalidSession,
        SignalProtocolError::DuplicatedMessage => SignalErrorCode::DuplicatedMessage,
        SignalProtocolError::ApplicationCallbackError => SignalErrorCode::CallbackError,
    }
}

/// The number under which a code crosses the foreign boundary.
pub open spec fn spec_code_value(code: SignalErrorCode) -> u32 {
    match code {
        SignalErrorCode::UnknownError => 1,
        SignalErrorCode::InvalidState => 2,
        SignalErrorCode::UnrecognizedMessageVersion => 23,
        SignalErrorCode::InvalidMessage => 30,
        SignalErrorCode::InvalidKey => 40,
        SignalErrorCode::InvalidSignature => 41,
        SignalErrorCode::UntrustedIdentity => 60,
        SignalErrorCode::InvalidKeyIdentifier => 70,
        SignalErrorCode::SessionNotFound => 80,
        SignalErrorCode::InvalidRegistrationId => 81,
        SignalErrorCode::InvalidSession => 82,
        SignalErrorCode::DuplicatedMessage => 90,
        SignalErrorCode::CallbackError => 100,
    }
}

impl SignalErrorCode {
    /// The external code for an internal failure kind. Total over the
    /// failure kinds, and a function of the kind alone, so the same failure
    /// always yields the same code.
    pub fn from_error(err: &SignalProtocolError) -> (r: SignalErrorCode)
        ensures
            r == spec_error_code(*err),
    {
        match err {
            SignalProtocolError::InvalidState => SignalErrorCode::InvalidState,
            SignalProtocolError::UnrecognizedMessageVersion => SignalErrorCode::UnrecognizedMessageVersion,
            SignalProtocolError::InvalidMessage => SignalErrorCode::InvalidMessage,
            SignalProtocolError::InvalidKey => SignalErrorCode::InvalidKey,
            SignalProtocolError::SignatureValidationFailed => SignalErrorCode::InvalidSignature,
            SignalProtocolError::UntrustedIdentity => SignalErrorCode::UntrustedIdentity,
            SignalProtocolError::InvalidPreKeyId => SignalErrorCode::InvalidKeyIdentifier,
            SignalProtocolError::InvalidSignedPreKeyId => SignalErrorCode::InvalidKeyIdentifier,
            SignalProtocolError::SessionNotFound => SignalErrorCode::SessionNotFound,
            SignalProtocolError::InvalidRegistrationId => SignalErrorCode::InvalidRegistrationId,
            SignalProtocolError::InvalidSessionStructure => SignalErrorCode::InvalidSession,
            SignalProtocolError::DuplicatedMessage => SignalErrorCode::DuplicatedMessage,
            SignalProtocolError::ApplicationCallbackError => SignalErrorCode::CallbackError,
        }
    }

    /// The numeric value of this code at the foreign boundary.
    pub fn value(&self) -> (r: u32)
        ensures
            r == spec_code_value(*self),
    {
        match self {
            SignalErrorCode::UnknownError => 1,
            SignalErrorCode::InvalidState => 2,
            SignalErrorCode::UnrecognizedMessageVersion => 23,
            SignalErrorCode::InvalidMessage => 30,
            SignalErrorCode::InvalidKey => 40,
            SignalErrorCode::InvalidSignature => 41,
            SignalErrorCode::UntrustedIdentity => 60,
            SignalErrorCode::InvalidKeyIdentifier => 70,
            SignalErrorCode::SessionNotFound => 80,
            SignalErrorCode::InvalidRegistrationId => 81,
            SignalErrorCode::InvalidSession => 82,
            SignalErrorCode::DuplicatedMessage => 90,
            SignalErrorCode::CallbackError => 100,
        }
    }
}

/// Distinct external codes carry distinct numbers: a caller can recover the
/// code from the number alone.
pub proof fn lemma_code_values_distinct(a: SignalErrorCode, b: SignalErrorCode)
    ensures
        spec_code_value(a) == spec_code_value(b) ==> a == b,
{
}

} // verus!
