//! The controller's error type: every failure of the engine reaches it as a message text.

use vstd::prelude::*;
use vstd::string::*;

verus! {

/// A failure reported to the controller, carrying a human-readable message.
pub enum BonsaiNodeError {
    /// A failure described by the controller itself.
    Generic(String),
    /// The engine could not be built from its configuration.
    NodeBuildError(String),
    /// The running engine failed an operation.
    NodeExecError(String),
}

/// The text shown for an error: a generic one is labelled as such, an engine failure is
/// shown as the engine described it.
pub open spec fn error_text(e: BonsaiNodeError) -> Seq<char> {
    match e {
        BonsaiNodeError::Generic(m) => "Generic Error: "@ + m@,
        BonsaiNodeError::NodeBuildError(m) => m@,
        BonsaiNodeError::NodeExecError(m) => m@,
    }
}

impl BonsaiNodeError {
    /// The text shown for this error.
    pub fn message(&self) -> (r: String)
        ensures
            r@ == error_text(*self),
    {
        match self {
            BonsaiNodeError::Generic(m) => {
                let mut r = String::from_str("Generic Error: ");
                r.append(m.as_str());
                r
            },
            BonsaiNodeError::NodeBuildError(m) => m.clone(),
            BonsaiNodeError::NodeExecError(m) => m.clone(),
        }
    }
}

impl Clone for BonsaiNodeError {
    fn clone(&self) -> (r: BonsaiNodeError)
        ensures
            r == *self,
    {
        match self {
            BonsaiNodeError::Generic(m) => BonsaiNodeError::Generic(m.clone()),
            BonsaiNodeError::NodeBuildError(m) => BonsaiNodeError::NodeBuildError(m.clone()),
            BonsaiNodeError::NodeExecError(m) => BonsaiNodeError::NodeExecError(m.clone()),
        }
    }
}

impl From<String> for BonsaiNodeError {
    fn from(s: String) -> (r: BonsaiNodeError) {
        BonsaiNodeError::Generic(s)
    }
}

impl vstd::std_specs::convert::FromSpecImpl<String> for BonsaiNodeError {
    open spec fn obeys_from_spec() -> bool {
        true
    }

    open spec fn from_spec(s: String) -> BonsaiNodeError {
        BonsaiNodeError::Generic(s)
    }
}

} // verus!
