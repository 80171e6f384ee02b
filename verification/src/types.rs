//! Core data types: references, requests, tool outputs, agent results,
//! sessions, history, task progress and token accounting.

use vstd::prelude::*;
use crate::shim::fresh_uuid_string;

verus! {

/// Reference ID for artifacts held in the artifact store.
/// Used to implement pass-by-reference for large content.
#[derive(Debug, Clone, Hash, Eq)]
pub struct RefId(pub String);

impl PartialEq for RefId {
    fn eq(&self, other: &RefId) -> (r: bool) {
        self.0 == other.0
    }
}

impl vstd::std_specs::cmp::PartialEqSpecImpl for RefId {
    open spec fn obeys_eq_spec() -> bool {
        true
    }

    open spec fn eq_spec(&self, other: &RefId) -> bool {
        self.0@ == other.0@
    }
}

impl RefId {
    /// Create a new randomly generated RefId.
    pub fn new() -> (r: RefId)
        ensures
            r.0@.len() == 36,
    {
        RefId(fresh_uuid_string())
    }

    /// Create a RefId from a string.
    pub fn from_string(s: String) -> (r: RefId)
        ensures
            r.0 == s,
    {
        RefId(s)
    }

    /// Get the inner string value.
    pub fn as_str(&self) -> (r: &str)
        ensures
            r@ == self.0@,
    {
        self.0.as_str()
    }
}

impl Default for RefId {
    /// A freshly generated reference ID.
    fn default() -> (r: RefId)
        ensures
            r.0@.len() == 36,
    {
        RefId::new()
    }
}

/// Content type for multi-modal input.
#[derive(Debug)]
pub enum RequestContent {
    /// Plain text content.
    Text(String),
    /// Audio content (transcribed downstream).
    Audio {
        /// Reference to the audio artifact.
        ref_id: RefId,
        /// Optional transcription if already processed.
        transcription: Option<String>,
    },
    /// Image content (described downstream).
    Image {
        /// Reference to the image artifact.
        ref_id: RefId,
        /// Optional description if already processed.
        description: Option<String>,
    },
    /// System event (webhook payload).
    SystemEvent {
        /// Event type identifier.
        event_type: String,
        /// Event payload.
        payload: serde_json::Value,
    },
}

/// Metadata associated with a request.
#[derive(Debug)]
pub struct RequestMetadata {
    /// User identifier.
    pub user_id: Option<String>,
    /// Session identifier for stateful conversations.
    pub session_id: Option<String>,
    /// Custom key-value metadata.
    pub custom: std::collections::HashMap<String, String>,
}

impl Default for RequestMetadata {
    /// Empty metadata: no user, no session, no custom entries.
    fn default() -> (r: RequestMetadata)
        ensures
            r.user_id is None,
            r.session_id is None,
    {
        RequestMetadata { user_id: None, session_id: None, custom: std::collections::HashMap::new() }
    }
}

/// Normalized input request after multi-modal processing.
#[derive(Debug)]
pub struct NormalizedRequest {
    /// Unique trace ID for this request.
    pub trace_id: String,
    /// Normalized content (always text after processing).
    pub content: String,
    /// Original content type.
    pub original_content: RequestContent,
    /// References to stored artifacts.
    pub refs: Vec<RefId>,
    /// Request metadata.
    pub metadata: RequestMetadata,
}

impl NormalizedRequest {
    /// Create a new NormalizedRequest with text content.
    pub fn text(content: String) -> (r: NormalizedRequest)
        ensures
            r.content@ == content@,
            r.original_content matches RequestContent::Text(t) && t@ == content@,
            r.refs@.len() == 0,
            r.trace_id@.len() == 36,
            r.metadata.user_id is None,
            r.metadata.session_id is None,
    {
        let copy = content.clone();
        NormalizedRequest {
            trace_id: fresh_uuid_string(),
            content,
            original_content: RequestContent::Text(copy),
            refs: Vec::new(),
            metadata: RequestMetadata::default(),
        }
    }

    /// Add a reference to the request.
    pub fn with_ref(self, ref_id: RefId) -> (r: NormalizedRequest)
        ensures
            r.refs@ == self.refs@.push(ref_id),
            r.trace_id == self.trace_id,
            r.content == self.content,
            r.original_content == self.original_content,
            r.metadata == self.metadata,
    {
        let mut out = self;
        out.refs.push(ref_id);
        out
    }

    /// Replace the metadata of the request.
    pub fn with_metadata(self, metadata: RequestMetadata) -> (r: NormalizedRequest)
        ensures
            r.metadata == metadata,
            r.trace_id == self.trace_id,
            r.content == self.content,
            r.original_content == self.original_content,
            r.refs == self.refs,
    {
        let mut out = self;
        out.metadata = metadata;
        out
    }
}

/// User intent classification: the fast path invokes one tool directly, the
/// slow path starts the bounded reasoning loop.
#[derive(Debug)]
pub enum UserIntent {
    /// Fast path: direct tool invocation without the loop's overhead.
    FastAction {
        /// Name of the tool to invoke.
        tool_name: String,
        /// Arguments for the tool.
        args: serde_json::Value,
    },
    /// Slow path: run the full reasoning loop.
    ComplexMission {
        /// High-level goal extracted from the request.
        goal: String,
        /// Summarized context from preprocessing.
        context_summary: String,
        /// Visual references (image reference ids).
        visual_refs: Vec<String>,
    },
}

/// Output from a tool execution.
#[derive(Debug)]
pub struct ToolOutput {
    /// Whether the tool execution was successful.
    pub success: bool,
    /// Output content (may name a reference for large outputs).
    pub content: String,
    /// Optional structured data.
    pub data: Option<serde_json::Value>,
    /// References created during execution.
    pub created_refs: Vec<RefId>,
}

impl ToolOutput {
    /// Create a successful text output.
    pub fn text(content: String) -> (r: ToolOutput)
        ensures
            r.success,
            r.content == content,
            r.data is None,
            r.created_refs@.len() == 0,
    {
        ToolOutput { success: true, content, data: None, created_refs: Vec::new() }
    }

    /// Attach structured data to the output.
    pub fn with_data(self, data: serde_json::Value) -> (r: ToolOutput)
        ensures
            r.data matches Some(d) && d == data,
            r.success == self.success,
            r.content == self.content,
            r.created_refs == self.created_refs,
    {
        let mut out = self;
        out.data = Some(data);
        out
    }

    /// Create a reference output (for large content).
    pub fn reference(ref_id: RefId, summary: String) -> (r: ToolOutput)
        ensures
            r.success,
            r.content@ == "Output saved as RefID: "@ + ref_id.0@ + ". "@ + summary@,
            r.data is None,
            r.created_refs@.len() == 1,
            r.created_refs@[0] == ref_id,
    {
        let mut content = String::from_str("Output saved as RefID: ");
        content.append(ref_id.as_str());
        content.append(". ");
        content.append(summary.as_str());
        let mut created_refs: Vec<RefId> = Vec::new();
        created_refs.push(ref_id);
        ToolOutput { success: true, content, data: None, created_refs }
    }

    /// Create a failed output.
    pub fn error(message: String) -> (r: ToolOutput)
        ensures
            !r.success,
            r.content == message,
            r.data is None,
            r.created_refs@.len() == 0,
    {
        ToolOutput { success: false, content: message, data: None, created_refs: Vec::new() }
    }
}

/// Tool definition for the tool registry.
#[derive(Debug)]
pub struct ToolDefinition {
    /// Unique tool name.
    pub name: String,
    /// Human-readable description.
    pub description: String,
    /// JSON Schema for tool arguments.
    pub parameters: serde_json::Value,
    /// Whether the tool supports streaming output.
    pub supports_streaming: bool,
}

/// Result from the agent after completing a task.
#[derive(Debug)]
pub enum AgentResult {
    /// Text response.
    Text(String),
    /// File artifact (code, document, etc.).
    File {
        /// Reference to the stored file.
        ref_id: RefId,
        /// File name.
        filename: String,
        /// MIME type.
        mime_type: String,
    },
    /// Structured data response.
    Data(serde_json::Value),
    /// Interactive UI component description.
    UiComponent {
        /// Component type.
        component_type: String,
        /// Component props/configuration.
        props: serde_json::Value,
    },
    /// Error result.
    Error {
        /// Error message.
        message: String,
        /// Error code.
        code: String,
    },
}

/// Information about a tool call.
#[derive(Debug)]
pub struct ToolCallInfo {
    /// Tool name.
    pub name: String,
    /// Tool arguments.
    pub arguments: serde_json::Value,
    /// Tool result (if completed).
    pub result: Option<String>,
}

/// Entry in conversation history. Created by the engine at fixed points and
/// never mutated after append.
#[derive(Debug)]
pub struct HistoryEntry {
    /// Role (user, assistant, system).
    pub role: String,
    /// Content of the message.
    pub content: String,
    /// Optional tool call information.
    pub tool_call: Option<ToolCallInfo>,
    /// Timestamp.
    pub timestamp: i64,
}

/// Task state for the resurrection pattern.
#[derive(Debug)]
pub struct TaskState {
    /// Current loop iteration.
    pub iteration: usize,
    /// Current goal.
    pub goal: String,
    /// Accumulated observations.
    pub observations: Vec<String>,
    /// Pending raw action payloads.
    pub pending_actions: Vec<serde_json::Value>,
}

/// Session state for persistent conversations.
#[derive(Debug)]
pub struct Session {
    /// Unique session ID.
    pub id: String,
    /// Current status.
    pub status: SessionStatus,
    /// Conversation history, append-only.
    pub history: Vec<HistoryEntry>,
    /// Current task state.
    pub task_state: Option<TaskState>,
    /// Token usage tracking.
    pub token_usage: TokenUsage,
    /// Creation timestamp.
    pub created_at: i64,
    /// Last updated timestamp.
    pub updated_at: i64,
}

/// Session status for state tracking.
#[derive(Debug, Clone, Copy, PartialEq, Eq, Structural)]
pub enum SessionStatus {
    /// Session is actively processing.
    Running,
    /// Session is paused/waiting.
    Paused,
    /// Session completed successfully.
    Completed,
    /// Session failed with error.
    Failed,
}

/// The sum of two 64-bit counters, clamped at the largest representable value.
pub open spec fn sat_add64(a: u64, b: u64) -> u64 {
    if a + b <= u64::MAX {
        (a + b) as u64
    } else {
        u64::MAX
    }
}

/// Saturating addition on 64-bit counters.
pub fn saturating_add64(a: u64, b: u64) -> (r: u64)
    ensures
        r == sat_add64(a, b),
{
    if a <= u64::MAX - b {
        a + b
    } else {
        u64::MAX
    }
}

/// Token usage tracking for one session.
#[derive(Debug, Clone)]
pub struct TokenUsage {
    /// Tokens used for prompts.
    pub prompt_tokens: u64,
    /// Tokens used for completions.
    pub completion_tokens: u64,
    /// Total tokens used.
    pub total_tokens: u64,
    /// Budget limit.
    pub budget_limit: u64,
}

impl TokenUsage {
    /// Create new token usage with a budget limit and zeroed counters.
    pub fn with_budget(limit: u64) -> (r: TokenUsage)
        ensures
            r.prompt_tokens == 0,
            r.completion_tokens == 0,
            r.total_tokens == 0,
            r.budget_limit == limit,
    {
        TokenUsage { prompt_tokens: 0, completion_tokens: 0, total_tokens: 0, budget_limit: limit }
    }

    /// Add usage to the tracker; the single additive mutator, never decrements.
    pub fn add(&mut self, prompt: u64, completion: u64)
        requires
            old(self).prompt_tokens + prompt <= u64::MAX,
            old(self).completion_tokens + completion <= u64::MAX,
            old(self).total_tokens + prompt + completion <= u64::MAX,
        ensures
            final(self).prompt_tokens == old(self).prompt_tokens + prompt,
            final(self).completion_tokens == old(self).completion_tokens + completion,
            final(self).total_tokens == old(self).total_tokens + prompt + completion,
            final(self).budget_limit == old(self).budget_limit,
    {
        self.prompt_tokens = self.prompt_tokens + prompt;
        self.completion_tokens = self.completion_tokens + completion;
        self.total_tokens = self.total_tokens + prompt + completion;
    }

    /// Add usage reported by an outside provider, clamping each counter at
    /// the largest representable value instead of overflowing.
    pub fn add_saturating(&mut self, prompt: u64, completion: u64)
        ensures
            final(self).prompt_tokens == sat_add64(old(self).prompt_tokens, prompt),
            final(self).completion_tokens == sat_add64(old(self).completion_tokens, completion),
            final(self).total_tokens == sat_add64(
                old(self).total_tokens,
                sat_add64(prompt, completion),
            ),
            final(self).budget_limit == old(self).budget_limit,
            final(self).total_tokens >= old(self).total_tokens,
    {
        self.prompt_tokens = saturating_add64(self.prompt_tokens, prompt);
        self.completion_tokens = saturating_add64(self.completion_tokens, completion);
        self.total_tokens = saturating_add64(self.total_tokens, saturating_add64(prompt, completion));
    }

    /// True iff the total reaches the budget limit (boundary inclusive).
    pub fn is_exceeded(&self) -> (r: bool)
        ensures
            r == (self.total_tokens >= self.budget_limit),
    {
        self.total_tokens >= self.budget_limit
    }

    /// Remaining budget, floored at zero.
    pub fn remaining(&self) -> (r: u64)
        ensures
            self.total_tokens <= self.budget_limit ==> r == self.budget_limit - self.total_tokens,
            self.total_tokens > self.budget_limit ==> r == 0,
    {
        if self.total_tokens <= self.budget_limit {
            self.budget_limit - self.total_tokens
        } else {
            0
        }
    }

    /// Totals always balance: if the counters started balanced, one `add`
    /// keeps `total_tokens` equal to `prompt_tokens + completion_tokens`.
    pub proof fn lemma_add_keeps_balance(pre: TokenUsage, post: TokenUsage, prompt: u64, completion: u64)
        requires
            pre.total_tokens == pre.prompt_tokens + pre.completion_tokens,
            post.prompt_tokens == pre.prompt_tokens + prompt,
            post.completion_tokens == pre.completion_tokens + completion,
            post.total_tokens == pre.total_tokens + prompt + completion,
        ensures
            post.total_tokens == post.prompt_tokens + post.completion_tokens,
    {
    }
}

/// Model tier for selection.
#[derive(Debug, Clone, Copy, PartialEq, Eq, Structural)]
pub enum ModelTier {
    /// Fast, cheap models.
    Fast,
    /// Balanced performance/cost models.
    Standard,
    /// High-performance models.
    Premium,
}

/// Provider health status.
#[derive(Debug, Clone, Copy, PartialEq, Eq, Structural)]
pub enum ProviderHealth {
    /// Provider is healthy.
    Healthy,
    /// Provider is degraded (slow responses).
    Degraded,
    /// Provider is unhealthy (failing requests).
    Unhealthy,
    /// Provider circuit is open (temporarily blocked).
    CircuitOpen,
}

} // verus!
