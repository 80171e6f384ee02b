//! Capability interfaces consumed abstractly by the iteration engine: the
//! reasoning backend, the tool backend, the artifact store and the durable
//! session store. Implementations are supplied by the caller; the engine is
//! polymorphic over the presence or absence of each.

use vstd::prelude::*;
use crate::error::CapabilityError;
use crate::types::{RefId, Session, ToolOutput};

verus! {

/// One message of the ordered view handed to the reasoning backend.
#[derive(Debug)]
pub struct ChatMessage {
    /// Role (user, assistant, system).
    pub role: String,
    /// Content of the message.
    pub content: String,
}

impl Clone for ChatMessage {
    /// An equal message.
    fn clone(&self) -> (r: ChatMessage)
        ensures
            r.role@ == self.role@,
            r.content@ == self.content@,
    {
        ChatMessage { role: self.role.clone(), content: self.content.clone() }
    }
}

/// Token counts reported by the reasoning backend for one call.
#[derive(Debug, Clone, Copy)]
pub struct LlmUsage {
    /// Tokens used for the prompt.
    pub prompt_tokens: u64,
    /// Tokens used for the completion.
    pub completion_tokens: u64,
}

/// One response of the reasoning backend.
#[derive(Debug)]
pub struct LlmResponse {
    /// Raw response text.
    pub content: String,
    /// Token usage of the call.
    pub usage: LlmUsage,
}

/// The reasoning backend. May fail; the failure aborts the iteration.
pub trait LlmClient {
    /// One reasoning call over an ordered message view.
    fn chat(&self, messages: &Vec<ChatMessage>) -> Result<LlmResponse, CapabilityError>;
}

/// The tool backend. May fail (not-found, execution error); the engine turns
/// every outcome into an in-band observation.
pub trait ToolRegistry {
    /// Execute the named tool on structured arguments.
    fn execute(&self, name: &str, args: &serde_json::Value) -> Result<ToolOutput, CapabilityError>;
}

/// The artifact store for large outputs.
pub trait ArtifactStore {
    /// Store one artifact, returning its reference.
    fn put(&self, content: &str) -> Result<RefId, CapabilityError>;
}

/// The durable session store. Failures are logged by callers and are
/// otherwise ignored; in-memory state stays authoritative.
pub trait SessionStore {
    /// Persist one session snapshot.
    fn save(&self, session: &Session) -> Result<(), CapabilityError>;
}

/// Stands in for an unbound reasoning backend; every call fails.
#[derive(Debug)]
pub struct NoLlm {}

impl LlmClient for NoLlm {
    fn chat(&self, _messages: &Vec<ChatMessage>) -> Result<LlmResponse, CapabilityError> {
        Err(CapabilityError::new("LLM client not configured"))
    }
}

/// Stands in for an unbound tool backend; every call fails.
#[derive(Debug)]
pub struct NoTools {}

impl ToolRegistry for NoTools {
    fn execute(&self, _name: &str, _args: &serde_json::Value) -> Result<ToolOutput, CapabilityError> {
        Err(CapabilityError::new("Tool registry not configured"))
    }
}

/// Stands in for an unbound artifact store; every call fails.
#[derive(Debug)]
pub struct NoArtifactStore {}

impl ArtifactStore for NoArtifactStore {
    fn put(&self, _content: &str) -> Result<RefId, CapabilityError> {
        Err(CapabilityError::new("Artifact store not configured"))
    }
}

/// Stands in for an unbound session store; every call fails.
#[derive(Debug)]
pub struct NoSessionStore {}

impl SessionStore for NoSessionStore {
    fn save(&self, _session: &Session) -> Result<(), CapabilityError> {
        Err(CapabilityError::new("Session store not configured"))
    }
}

} // verus!
