//! What the session core makes of the answers of the credential store.
//!
//! The store itself is the caller's: it keeps secrets by service and account
//! in the credential vault of the operating system. The caller asks it and
//! hands the answer in; the functions here say what the core returns for each
//! answer. A fault keeps its cause, word for word, behind a prefix that names
//! the step that failed.

use vstd::prelude::*;
use vstd::string::StringExecFns;

verus! {

/// The step of a store operation at which a fault arose.
#[derive(Debug, Clone, Copy, PartialEq, Eq, Structural)]
pub enum StoreStep {
    /// Addressing the entry of a service and an account.
    OpenEntry,
    /// Writing the secret of an entry.
    Save,
    /// Reading the secret of an entry.
    Read,
}

/// What the store answered to a read.
#[derive(Debug, Clone)]
pub enum StoreRead {
    /// The entry holds this secret.
    Found(String),
    /// There is no such entry.
    NoEntry,
    /// The store could not be asked, for this cause.
    Fault(String),
}

/// How the message of a fault at `step` begins.
pub open spec fn fault_prefix(step: StoreStep) -> Seq<char> {
    match step {
        StoreStep::OpenEntry => "Failed to create keychain entry: "@,
        StoreStep::Save => "Failed to save to keychain: "@,
        StoreStep::Read => "Failed to get from keychain: "@,
    }
}

/// The message of a fault at `step` with the cause `cause`: the prefix of the
/// step, then the cause as the store gave it.
pub fn fault_message(step: StoreStep, cause: &str) -> (message: String)
    ensures
        message@ == fault_prefix(step) + cause@,
{
    let prefix: &str = match step {
        StoreStep::OpenEntry => "Failed to create keychain entry: ",
        StoreStep::Save => "Failed to save to keychain: ",
        StoreStep::Read => "Failed to get from keychain: ",
    };
    let mut message = prefix.to_owned();
    message.append(cause);
    message
}

/// The result of a read: the secret where the entry holds one, `None` where
/// there is no such entry, and the fault with its cause where the store could
/// not be asked. A missing entry is no fault.
pub fn read_outcome(read: StoreRead) -> (outcome: Result<Option<String>, String>)
    ensures
        match read {
            StoreRead::Found(secret) => outcome is Ok && outcome->Ok_0 == Some(secret),
            StoreRead::NoEntry => outcome is Ok && outcome->Ok_0 is None,
            StoreRead::Fault(cause) => outcome is Err && outcome->Err_0@ == fault_prefix(
                StoreStep::Read,
            ) + cause@,
        },
{
    match read {
        StoreRead::Found(secret) => Ok(Some(secret)),
        StoreRead::NoEntry => Ok(None),
        StoreRead::Fault(cause) => Err(fault_message(StoreStep::Read, cause.as_str())),
    }
}

/// The result of a step that hands nothing back: `Ok` where the store did it,
/// and the fault with its cause where it did not.
pub fn step_outcome(step: StoreStep, answer: Result<(), String>) -> (outcome: Result<(), String>)
    ensures
        match answer {
            Ok(_) => outcome is Ok,
            Err(cause) => outcome is Err && outcome->Err_0@ == fault_prefix(step) + cause@,
        },
{
    match answer {
        Ok(_) => Ok(()),
        Err(cause) => Err(fault_message(step, cause.as_str())),
    }
}

} // verus!
