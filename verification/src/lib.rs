//! Session lock for a desktop secret vault.
//!
//! The crate holds the rules of the lock: who may open the session, when
//! idleness closes it again, and what the biometric capability of the host
//! reports. Every function carries a contract that Verus proves; the clock,
//! the credential store and the user interface stay with the caller, who hands
//! in plain values.

pub mod biometrics;
pub mod json;
pub mod keychain;
pub mod secret;
pub mod session;
pub mod session_laws;
