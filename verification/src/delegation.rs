//! Sub-task delegation: the request handed to an external sub-task runner and
//! the normalized outcome it reports.

use vstd::prelude::*;
use crate::error::CapabilityError;

verus! {

/// A request to run one sub-task.
#[derive(Debug)]
pub struct DelegationRequest {
    /// Objective of the sub-task.
    pub objective: String,
    /// Context handed along with the objective.
    pub context: String,
}

impl DelegationRequest {
    /// A request with the given objective and empty context.
    pub fn new(objective: &str) -> (r: DelegationRequest)
        ensures
            r.objective@ == objective@,
            r.context@ == Seq::<char>::empty(),
    {
        DelegationRequest { objective: objective.to_owned(), context: String::new() }
    }

    /// The same request with the given context.
    pub fn with_context(self, context: &str) -> (r: DelegationRequest)
        ensures
            r.objective == self.objective,
            r.context@ == context@,
    {
        DelegationRequest { objective: self.objective, context: context.to_owned() }
    }
}

/// The outcome one sub-task run reports.
#[derive(Debug)]
pub struct DelegationResult {
    /// Whether the sub-task succeeded.
    pub success: bool,
    /// Result text of the sub-task.
    pub result: String,
    /// Optional error detail when the sub-task failed.
    pub error: Option<String>,
}

/// The delegation capability: routes one sub-task to an external runner.
/// May fail; the engine turns every outcome into an in-band observation.
pub trait Delegator {
    /// Run one sub-task to completion.
    fn delegate(&self, request: DelegationRequest) -> Result<DelegationResult, CapabilityError>;
}

/// Stands in for an unbound delegation service; every call fails.
#[derive(Debug)]
pub struct NoDelegator {}

impl Delegator for NoDelegator {
    fn delegate(&self, _request: DelegationRequest) -> Result<DelegationResult, CapabilityError> {
        Err(CapabilityError::new("Delegator not configured"))
    }
}

} // verus!
