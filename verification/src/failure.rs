//! The error that the library's checks report.
use vstd::prelude::*;

verus! {

/// Why an operation was refused, in words.
#[derive(Debug, PartialEq, Eq)]
pub struct Failure {
    pub message: String,
}

impl Clone for Failure {
    fn clone(&self) -> (r: Failure)
        ensures
            r == *self,
    {
        Failure { message: self.message.clone() }
    }
}

impl Failure {
    pub fn new(message: String) -> (r: Failure)
        ensures
            r.message == message,
    {
        Failure { message }
    }

    /// A failure with a fixed message.
    pub fn because(message: &str) -> (r: Failure)
        ensures
            r.message@ == message@,
    {
        Failure { message: message.to_owned() }
    }
}

/// The earlier of two faults, where checks run one after the other.
pub open spec fn earliest(a: Option<Seq<char>>, b: Option<Seq<char>>) -> Option<Seq<char>> {
    if a is Some {
        a
    } else {
        b
    }
}

/// A fault where the condition holds, and none otherwise.
pub open spec fn fault_if(bad: bool, message: Seq<char>) -> Option<Seq<char>> {
    if bad {
        Some(message)
    } else {
        None
    }
}

/// The outcome of checks whose first fault, if any, is `fault`.
pub open spec fn reports<T>(r: Result<T, Failure>, fault: Option<Seq<char>>) -> bool {
    match fault {
        Some(message) => r is Err && r->Err_0.message@ == message,
        None => r is Ok,
    }
}

} // verus!
