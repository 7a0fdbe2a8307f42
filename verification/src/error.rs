use vstd::prelude::*;

verus! {

/// Every failure this crate reports. Nothing here is fatal: all failures are
/// returned as values, never raised as panics.
#[derive(Clone, Copy, PartialEq, Eq, Structural, Debug)]
pub enum Error {
    /// The application singleton was used before it was initialized.
    NotInitialized,
    /// A guarded structure's lock was poisoned by an earlier panic.
    LockPoisoned,
    /// The host shell rejected an object construction or an attachment.
    HostRejected,
    /// An invoked callback could not interpret its payload.
    DecodeFailure,
}

impl Error {
    /// A short description of the failure.
    pub fn message(&self) -> (r: &'static str)
        ensures
            *self == Error::NotInitialized ==> r@ == "app is not initialized"@,
            *self == Error::LockPoisoned ==> r@ == "lock is poisoned"@,
            *self == Error::HostRejected ==> r@ == "host rejected the request"@,
            *self == Error::DecodeFailure ==> r@ == "callback payload could not be decoded"@,
    {
        match self {
            Error::NotInitialized => "app is not initialized",
            Error::LockPoisoned => "lock is poisoned",
            Error::HostRejected => "host rejected the request",
            Error::DecodeFailure => "callback payload could not be decoded",
        }
    }
}

} // verus!
