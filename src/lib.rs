//! Authorization and settlement of server-approved token payments.
//!
//! The library holds the logic of the payment program: the canonical
//! payment message, the cross-check of the signature-verification
//! instruction that precedes a settlement, the role registries and the
//! program configuration with their administrative operations, and the
//! settlement engine, which decides which token transfers a payment makes.
//! Loading accounts, reading the clock and performing the transfers are
//! left to the program's runtime glue.
pub mod admin;
pub mod codec;
pub mod errors;
pub mod identity;
pub mod settlement;
pub mod signature;
pub mod state;
