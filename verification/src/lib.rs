//! A per-owner counter kept in a host-managed storage account.
//!
//! The library is the instruction-processing core: deterministic derivation
//! of the counter's storage address from the owner's identity, fixed-layout
//! encoding and decoding of the counter record, and the authorization and
//! arithmetic checks that guard every state transition. The host embedding
//! (entry registration, account references, the account-creation call) lives
//! outside the library and hands it plain values.

pub mod accounts;
pub mod codec;
pub mod derive;
pub mod error;
pub mod instruction;
pub mod process;
