use vstd::prelude::*;
use crate::state::RegistryError;

verus! {

/// Every way an instruction of the payment program can fail.
#[derive(Debug, Clone, Copy, PartialEq, Eq, Structural)]
pub enum PaymentError {
    Paused,
    NotPaused,
    InvalidAmount,
    Unauthorized,
    UnauthorizedEmergencyAdmin,
    UnauthorizedServerSigner,
    InvalidServerSignature,
    PaymentExpired,
    InvalidAddress,
    UnauthorizedRelayer,
    DelegateNotSet,
    InvalidDelegate,
    InsufficientDelegatedAmount,
    InvalidFeeRecipient,
}

/// The human-readable message of each error.
pub open spec fn error_message(e: PaymentError) -> Seq<char> {
    match e {
        PaymentError::Paused => "Paused"@,
        PaymentError::NotPaused => "Not paused"@,
        PaymentError::InvalidAmount => "Invalid amount"@,
        PaymentError::Unauthorized => "Unauthorized"@,
        PaymentError::UnauthorizedEmergencyAdmin => "Unauthorized emergency admin"@,
        PaymentError::UnauthorizedServerSigner => "Unauthorized server signer"@,
        PaymentError::InvalidServerSignature => "Invalid signature"@,
        PaymentError::PaymentExpired => "Payment expired"@,
        PaymentError::InvalidAddress => "Invalid address"@,
        PaymentError::UnauthorizedRelayer => "Unauthorized relayer"@,
        PaymentError::DelegateNotSet => "Delegate not set"@,
        PaymentError::InvalidDelegate => "Invalid delegate"@,
        PaymentError::InsufficientDelegatedAmount => "Insufficient delegated amount"@,
        PaymentError::InvalidFeeRecipient => "Invalid fee recipient"@,
    }
}

impl PaymentError {
    /// The human-readable message of the error.
    pub fn message(&self) -> (r: &'static str)
        ensures
            r@ == error_message(*self),
    {
        match self {
            PaymentError::Paused => "Paused",
            PaymentError::NotPaused => "Not paused",
            PaymentError::InvalidAmount => "Invalid amount",
            PaymentError::Unauthorized => "Unauthorized",
            PaymentError::UnauthorizedEmergencyAdmin => "Unauthorized emergency admin",
            PaymentError::UnauthorizedServerSigner => "Unauthorized server signer",
            PaymentError::InvalidServerSignature => "Invalid signature",
            PaymentError::PaymentExpired => "Payment expired",
            PaymentError::InvalidAddress => "Invalid address",
            PaymentError::UnauthorizedRelayer => "Unauthorized relayer",
            PaymentError::DelegateNotSet => "Delegate not set",
            PaymentError::InvalidDelegate => "Invalid delegate",
            PaymentError::InsufficientDelegatedAmount => "Insufficient delegated amount",
            PaymentError::InvalidFeeRecipient => "Invalid fee recipient",
        }
    }
}

/// Why an administrative change of a role registry failed.
#[derive(Debug, Clone, Copy, PartialEq, Eq, Structural)]
pub enum AdminError {
    Payment(PaymentError),
    Registry(RegistryError),
}

} // verus!
