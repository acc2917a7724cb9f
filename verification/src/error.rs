use vstd::prelude::*;

use crate::text::concat_str;

verus! {

/// Errors raised by the choreography library.
#[derive(Debug, PartialEq, Eq)]
pub enum BuddyError {
    /// A request, plan or message broke a validation rule.
    Validation(String),
    /// Execution failed at runtime.
    Runtime(String),
    /// The native pet does not support a step capability.
    UnsupportedCapability { scope: String, capability: String },
}

/// The mathematical form of an error: its kind and the texts it carries.
pub enum BuddyErrorView {
    Validation(Seq<char>),
    Runtime(Seq<char>),
    UnsupportedCapability { scope: Seq<char>, capability: Seq<char> },
}

impl View for BuddyError {
    type V = BuddyErrorView;

    open spec fn view(&self) -> BuddyErrorView {
        match self {
            BuddyError::Validation(m) => BuddyErrorView::Validation(m@),
            BuddyError::Runtime(m) => BuddyErrorView::Runtime(m@),
            BuddyError::UnsupportedCapability { scope, capability } => {
                BuddyErrorView::UnsupportedCapability { scope: scope@, capability: capability@ }
            },
        }
    }
}

impl Clone for BuddyError {
    fn clone(&self) -> (r: Self)
        ensures
            r == *self,
    {
        match self {
            BuddyError::Validation(m) => BuddyError::Validation(m.clone()),
            BuddyError::Runtime(m) => BuddyError::Runtime(m.clone()),
            BuddyError::UnsupportedCapability { scope, capability } => BuddyError::UnsupportedCapability {
                scope: scope.clone(),
                capability: capability.clone(),
            },
        }
    }
}

pub type BuddyResult<T> = Result<T, BuddyError>;

/// The text a user sees for an error.
pub open spec fn spec_error_message(e: BuddyErrorView) -> Seq<char> {
    match e {
        BuddyErrorView::Validation(m) => "buddy state validation failed: "@ + m,
        BuddyErrorView::Runtime(m) => "buddy runtime failed: "@ + m,
        BuddyErrorView::UnsupportedCapability { scope, capability } => {
            "unsupported capability in "@ + scope + ": "@ + capability
        },
    }
}

impl BuddyError {
    /// The text a user sees for this error.
    pub fn message(&self) -> (s: String)
        ensures
            s@ == spec_error_message(self@),
    {
        match self {
            BuddyError::Validation(m) => concat_str("buddy state validation failed: ", m.as_str()),
            BuddyError::Runtime(m) => concat_str("buddy runtime failed: ", m.as_str()),
            BuddyError::UnsupportedCapability { scope, capability } => {
                let a = concat_str("unsupported capability in ", scope.as_str());
                let b = concat_str(a.as_str(), ": ");
                concat_str(b.as_str(), capability.as_str())
            },
        }
    }
}

} // verus!
