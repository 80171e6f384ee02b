//! The error taxonomy of the control loop.

use vstd::prelude::*;
use crate::text::{lemma_prefix_of_concat, lemma_prefix_of_concat3, starts_with};

verus! {

/// A failure reported by a capability provider: an opaque description.
#[derive(Debug)]
pub struct CapabilityError {
    /// Description of the failure.
    pub message: String,
}

impl CapabilityError {
    /// A capability failure with the given description.
    pub fn new(message: &str) -> (r: CapabilityError)
        ensures
            r.message@ == message@,
    {
        CapabilityError { message: message.to_owned() }
    }
}

/// Fatal failures of the loop, and errors reported by capability providers.
#[derive(Debug)]
pub enum Error {
    /// Misconfiguration or other controller-level failure.
    Controller(String),
    /// The token budget was reached or passed.
    BudgetExceeded {
        /// Tokens used when the budget check fired.
        used: u64,
        /// The configured budget limit.
        limit: u64,
    },
    /// The loop exhausted its configured maximum number of iterations.
    MaxIterationsExceeded(usize),
    /// An error reported by a capability provider.
    Capability(String),
}

impl Error {
    /// A controller-level error with the given message.
    pub fn controller(msg: &str) -> (r: Error)
        ensures
            r matches Error::Controller(m) && m@ == msg@,
    {
        Error::Controller(msg.to_owned())
    }

    /// The error rendered as text, for in-band observations. Capability and
    /// controller messages are carried verbatim; the fatal variants render
    /// their numbers after a fixed prefix.
    pub fn message(&self) -> (r: String)
        ensures
            self matches Error::Controller(m) ==> r@ == m@,
            self matches Error::Capability(m) ==> r@ == m@,
            self matches Error::BudgetExceeded { used, limit } ==> starts_with(
                r@,
                "Budget exceeded: used "@,
            ),
            self matches Error::MaxIterationsExceeded(n) ==> starts_with(
                r@,
                "Maximum iterations exceeded: "@,
            ),
    {
        match self {
            Error::Controller(m) => m.clone(),
            Error::Capability(m) => m.clone(),
            Error::BudgetExceeded { used, limit } => {
                let u = used.to_string();
                let l = limit.to_string();
                let mut s = String::from_str("Budget exceeded: used ");
                s.append(u.as_str());
                s.append(" of ");
                s.append(l.as_str());
                proof {
                    lemma_prefix_of_concat3("Budget exceeded: used "@, u@, " of "@, l@);
                }
                s
            },
            Error::MaxIterationsExceeded(n) => {
                let v = n.to_string();
                let mut s = String::from_str("Maximum iterations exceeded: ");
                s.append(v.as_str());
                proof {
                    lemma_prefix_of_concat("Maximum iterations exceeded: "@, v@);
                }
                s
            },
        }
    }
}

} // verus!
