//! The two error types of the updater.

use vstd::prelude::*;
use vstd::string::*;

verus! {

/// A failed update step.
///
/// `severe` tells the caller how to go on: a severe error means that the
/// installation may be inconsistent and nothing further should be attempted;
/// a non-severe error means that this run is abandoned while the existing
/// installation is intact and can be relaunched.
#[derive(Debug, Clone)]
pub struct OpError {
    pub message: String,
    pub severe: bool,
}

/// The mathematical content of an [`OpError`].
pub struct OpErrorView {
    pub message: Seq<char>,
    pub severe: bool,
}

impl View for OpError {
    type V = OpErrorView;

    open spec fn view(&self) -> OpErrorView {
        OpErrorView { message: self.message@, severe: self.severe }
    }
}

impl OpError {
    pub fn new(msg: &str, severe: bool) -> (e: OpError)
        ensures
            e@ == (OpErrorView { message: msg@, severe }),
    {
        OpError { message: String::from_str(msg), severe }
    }

    /// The text of the error, as shown to the user.
    pub fn to_string(&self) -> (s: String)
        ensures
            s@ == self.message@,
    {
        self.message.clone()
    }
}

} // verus!
