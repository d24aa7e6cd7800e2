//! The engine's own error.
use vstd::prelude::*;
use vstd::string::StringExecFns;

verus! {

/// A failure of the engine, with its reason in words.
#[derive(Debug)]
pub struct IntifaceError {
    reason: String,
}

impl IntifaceError {
    pub fn new(error_msg: &str) -> (r: IntifaceError)
        ensures
            r.spec_reason() == error_msg@,
    {
        IntifaceError { reason: String::from_str(error_msg) }
    }

    pub closed spec fn spec_reason(&self) -> Seq<char> {
        self.reason@
    }

    /// The reason, in words.
    pub fn reason(&self) -> (r: &String)
        ensures
            r@ == self.spec_reason(),
    {
        &self.reason
    }
}

} // verus!
