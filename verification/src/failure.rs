//! The toolkit's one way to fail.
//!
//! The toolkit keeps an error flag. Whoever enters it looks at the flag when the
//! routine has returned, and hands on what it found as a [`Status`]. A raised flag
//! always becomes a [`NativeFailure`]: no output of a failed call reaches the
//! caller.
use vstd::prelude::*;
use crate::text::{flag, flag_is_set, from_native, read_back};
use crate::MAX_LEN_OUT;

verus! {

/// What the toolkit says of the call that has just returned.
#[derive(Debug, PartialEq, Eq)]
pub struct Status {
    /// The toolkit's error flag, as the integer that it hands out.
    pub failed: i32,
    /// The buffer that holds the toolkit's diagnostic message.
    pub message: Vec<u8>,
}

/// What one entry into the toolkit brings back.
#[derive(Debug, PartialEq, Eq)]
pub struct Reply<T> {
    /// The error flag and the diagnostic message after the call.
    pub status: Status,
    /// What the routine wrote. It means nothing where the flag is raised.
    pub outputs: T,
}

/// The toolkit raised its error flag during a call.
#[derive(Debug, PartialEq, Eq)]
pub struct NativeFailure {
    /// The toolkit's diagnostic message.
    pub message: String,
}

impl Status {
    /// Whether the error flag is raised.
    pub open spec fn raised(&self) -> bool {
        flag_is_set(self.failed)
    }

    /// Whether `failure` is what this status is reported as: the flag is raised,
    /// and the failure carries the diagnostic message, read as every other text
    /// of the toolkit is.
    pub open spec fn reported_as(&self, failure: NativeFailure) -> bool {
        self.raised() && failure.message@ == read_back(self.message@, MAX_LEN_OUT as int)
    }

    /// Whether `outcome` is the failure that this status is reported as.
    pub open spec fn fails<T>(&self, outcome: Result<T, NativeFailure>) -> bool {
        match outcome {
            Ok(_) => false,
            Err(failure) => self.reported_as(failure),
        }
    }

    /// Whether `outcome` is what a call without outputs comes to: a failure where
    /// the flag is raised, and only there.
    pub open spec fn settles(&self, outcome: Result<(), NativeFailure>) -> bool {
        match outcome {
            Ok(_) => !self.raised(),
            Err(failure) => self.reported_as(failure),
        }
    }

    /// Looks at the flag after a call without outputs.
    pub fn settle(&self) -> (outcome: Result<(), NativeFailure>)
        ensures
            self.settles(outcome),
    {
        if flag(self.failed) {
            Err(NativeFailure { message: from_native(&self.message, MAX_LEN_OUT) })
        } else {
            Ok(())
        }
    }
}

impl<T> Reply<T> {
    /// Whether `outcome` is what this reply comes to when its outputs are handed
    /// on as they are: the outputs where the flag is at rest, a failure where it
    /// is raised.
    pub open spec fn passes(&self, outcome: Result<T, NativeFailure>) -> bool {
        match outcome {
            Ok(outputs) => !self.status.raised() && outputs == self.outputs,
            Err(failure) => self.status.reported_as(failure),
        }
    }

    /// Looks at the flag, and hands the outputs on where it is at rest.
    pub fn settle(self) -> (outcome: Result<T, NativeFailure>)
        ensures
            self.passes(outcome),
    {
        match self.status.settle() {
            Ok(_) => Ok(self.outputs),
            Err(failure) => Err(failure),
        }
    }
}

} // verus!
