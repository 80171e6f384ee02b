//! The iteration engine: a bounded reason-and-act loop over pluggable
//! capabilities, plus the fast-path bypass that invokes one tool directly.

use vstd::prelude::*;
use crate::caps::{
    ChatMessage, LlmClient, LlmResponse, NoArtifactStore, NoLlm, NoSessionStore, NoTools,
    SessionStore, ToolRegistry, ArtifactStore,
};
use crate::context::{CompressionConfig, ContextCompressor, TruncationCompressor};
use crate::decode::{
    decode_action, delegate_objective_of, final_answer_of, is_delegate, is_final, is_plain_think,
    is_thought, is_tool, tool_args_line_of, tool_name_of,
};
use crate::delegation::{DelegationRequest, DelegationResult, Delegator, NoDelegator};
use crate::error::Error;
use crate::shim::{fresh_uuid_string, json_line_value, unix_timestamp};
use crate::text::{lemma_prefix_of_concat, starts_with};
use crate::types::{
    AgentResult, HistoryEntry, Session, SessionStatus, TaskState, TokenUsage, ToolCallInfo,
    UserIntent,
};

pub use crate::decode::ReActAction;

verus! {

/// Iteration engine configuration.
#[derive(Debug, Clone, Copy)]
pub struct ReActConfig {
    /// Maximum iterations before giving up.
    pub max_iterations: usize,
    /// Default token budget.
    pub default_budget: u64,
    /// Enable state persistence.
    pub persist_state: bool,
}

impl Default for ReActConfig {
    /// Ten iterations, a budget of 50000 tokens, persistence enabled.
    fn default() -> (r: ReActConfig)
        ensures
            r.max_iterations == 10,
            r.default_budget == 50000,
            r.persist_state,
    {
        ReActConfig { max_iterations: 10, default_budget: 50000, persist_state: true }
    }
}

/// The opening of the system prompt, up to the goal.
pub open spec fn prompt_before_goal() -> Seq<char> {
    "You are an AI assistant that uses the ReAct (Reasoning + Acting) pattern.\n\nGOAL: "@
}

/// The rest of the system prompt after the goal: the tool listing placeholder,
/// the instruction block and the response-format block.
pub open spec fn prompt_after_goal() -> Seq<char> {
    ("\n\nAVAILABLE TOOLS:\n"@ + "Tools will be loaded when execution starts."@)
        + "\n\nINSTRUCTIONS:\n1. Think step by step about what needs to be done\n2. Use tools when needed by responding with ACTION\n3. After receiving tool results, continue reasoning\n4. When done, provide your FINAL ANSWER\n\nRESPONSE FORMAT:\nUse exactly one of these formats in each response:\n\nFor thinking/reasoning:\nTHOUGHT: <your reasoning here>\n\nFor tool calls:\nACTION: <tool_name>\nARGS: <json arguments>\n\nFor final answer (when task is complete):\nFINAL ANSWER: <your complete answer>\n\nAlways think before acting. Be concise and focused on the goal."@
}

/// The system prompt handed to the reasoning backend for a goal.
pub open spec fn system_prompt_of(goal: Seq<char>) -> Seq<char> {
    (prompt_before_goal() + goal) + prompt_after_goal()
}

/// The nudge appended when the backend only thinks.
pub open spec fn nudge_text() -> Seq<char> {
    "Please take an action using a tool, or provide your FINAL ANSWER if the task is complete."@
}

/// The degraded-mode result returned when no reasoning backend is bound.
pub open spec fn mock_result_text(goal: Seq<char>) -> Seq<char> {
    ("Mock ReAct execution. Goal: "@ + goal) + ". Configure LLM client for real execution."@
}

/// The fast-path result returned when no tool backend is bound.
pub open spec fn fast_unconfigured_text(tool_name: Seq<char>) -> Seq<char> {
    ("Fast path: would execute tool '"@ + tool_name) + "'. Tools not configured."@
}

/// The goal text a degraded-mode result echoes: the task's goal, or a fixed
/// stand-in when no task progress exists.
pub open spec fn session_goal_text(ts: Option<TaskState>) -> Seq<char> {
    match ts {
        Some(t) => t.goal@,
        None => "unknown"@,
    }
}

/// The listing of visual references appended to the context summary:
/// the references joined by a comma and a space.
pub open spec fn joined_refs(refs: Seq<String>) -> Seq<char>
    decreases refs.len(),
{
    if refs.len() == 0 {
        Seq::empty()
    } else if refs.len() == 1 {
        refs[0]@
    } else {
        (joined_refs(refs.drop_last()) + ", "@) + refs.last()@
    }
}

/// Join visual references for the user-context entry.
fn join_refs(refs: &Vec<String>) -> (r: String)
    ensures
        r@ == joined_refs(refs@),
{
    let n = refs.len();
    let mut out = String::new();
    let mut i: usize = 0;
    proof {
        assert(refs@.subrange(0, 0) =~= Seq::<String>::empty());
    }
    while i < n
        invariant
            0 <= i <= n,
            n == refs@.len(),
            out@ == joined_refs(refs@.subrange(0, i as int)),
        decreases n - i,
    {
        proof {
            let pre = refs@.subrange(0, i as int + 1);
            assert(pre.drop_last() =~= refs@.subrange(0, i as int));
            assert(pre.last() == refs@[i as int]);
        }
        if i > 0 {
            out.append(", ");
        } else {
            proof {
                assert(Seq::<char>::empty() + refs@[0]@ =~= refs@[0]@);
            }
        }
        out.append(refs[i].as_str());
        i = i + 1;
    }
    proof {
        assert(refs@.subrange(0, n as int) =~= refs@);
    }
    out
}

/// Render a tool outcome as the observation fed back into history.
fn format_tool_outcome(name: &str, output: &crate::types::ToolOutput) -> (r: String)
    ensures
        output.success ==> r@ == (("Tool '"@ + name@) + "' succeeded:\n"@) + output.content@,
        !output.success ==> r@ == (("Tool '"@ + name@) + "' failed:\n"@) + output.content@,
{
    let mut s = String::from_str("Tool '");
    s.append(name);
    if output.success {
        s.append("' succeeded:\n");
    } else {
        s.append("' failed:\n");
    }
    s.append(output.content.as_str());
    s
}

/// Render a delegation outcome as the observation fed back into history.
fn format_delegation_outcome(result: &DelegationResult) -> (r: String)
    ensures
        result.success ==> r@ == "Subagent completed successfully:\n"@ + result.result@,
        !result.success ==> (result.error matches Some(detail) ==> r@ == "Subagent failed: "@
            + detail@),
        !result.success ==> (result.error is None ==> r@ == "Subagent failed: "@),
{
    if result.success {
        let mut s = String::from_str("Subagent completed successfully:\n");
        s.append(result.result.as_str());
        s
    } else {
        let mut s = String::from_str("Subagent failed: ");
        match &result.error {
            Some(detail) => {
                s.append(detail.as_str());
            },
            None => {},
        }
        s
    }
}

/// The controller that runs the bounded reason-and-act loop. Polymorphic over
/// the presence or absence of each capability; an unbound one defaults to its
/// inert stand-in, and the compressor to the built-in truncation.
pub struct ReActController<
    L = NoLlm,
    T = NoTools,
    A = NoArtifactStore,
    S = NoSessionStore,
    C = TruncationCompressor,
    D = NoDelegator,
> {
    /// Configuration.
    pub config: ReActConfig,
    /// Reasoning backend.
    pub llm: Option<L>,
    /// Tool backend.
    pub tools: Option<T>,
    /// Artifact store for large outputs.
    pub store: Option<A>,
    /// Session store for persistence.
    pub session_store: Option<S>,
    /// Context compressor for long sessions; the built-in truncation
    /// compressor stands in when none is bound.
    pub compressor: Option<C>,
    /// Compression configuration.
    pub compression_config: CompressionConfig,
    /// Delegation service for sub-task spawning.
    pub delegator: Option<D>,
}

impl<
    L: LlmClient,
    T: ToolRegistry,
    A: ArtifactStore,
    S: SessionStore,
    C: ContextCompressor,
    D: Delegator,
> ReActController<L, T, A, S, C, D> {
    /// A controller with no capability bound.
    pub fn new(config: ReActConfig) -> (r: ReActController<L, T, A, S, C, D>)
        ensures
            r.config == config,
            r.llm is None,
            r.tools is None,
            r.store is None,
            r.session_store is None,
            r.compressor is None,
            r.delegator is None,
    {
        ReActController {
            config,
            llm: None,
            tools: None,
            store: None,
            session_store: None,
            compressor: None,
            compression_config: CompressionConfig::default(),
            delegator: None,
        }
    }

    /// Bind the reasoning backend.
    pub fn with_llm(self, llm: L) -> (r: ReActController<L, T, A, S, C, D>)
        ensures
            r.llm matches Some(l) && l == llm,
            r.config == self.config,
            r.tools == self.tools,
            r.store == self.store,
            r.session_store == self.session_store,
            r.compressor == self.compressor,
            r.compression_config == self.compression_config,
            r.delegator == self.delegator,
    {
        ReActController { llm: Some(llm), ..self }
    }

    /// Bind the tool backend.
    pub fn with_tools(self, tools: T) -> (r: ReActController<L, T, A, S, C, D>)
        ensures
            r.tools matches Some(t) && t == tools,
            r.config == self.config,
            r.llm == self.llm,
            r.store == self.store,
            r.session_store == self.session_store,
            r.compressor == self.compressor,
            r.compression_config == self.compression_config,
            r.delegator == self.delegator,
    {
        ReActController { tools: Some(tools), ..self }
    }

    /// Bind the artifact store.
    pub fn with_store(self, store: A) -> (r: ReActController<L, T, A, S, C, D>)
        ensures
            r.store matches Some(a) && a == store,
            r.config == self.config,
            r.llm == self.llm,
            r.tools == self.tools,
            r.session_store == self.session_store,
            r.compressor == self.compressor,
            r.compression_config == self.compression_config,
            r.delegator == self.delegator,
    {
        ReActController { store: Some(store), ..self }
    }

    /// Bind the session store.
    pub fn with_session_store(self, session_store: S) -> (r: ReActController<L, T, A, S, C, D>)
        ensures
            r.session_store matches Some(s) && s == session_store,
            r.config == self.config,
            r.llm == self.llm,
            r.tools == self.tools,
            r.store == self.store,
            r.compressor == self.compressor,
            r.compression_config == self.compression_config,
            r.delegator == self.delegator,
    {
        ReActController { session_store: Some(session_store), ..self }
    }

    /// Bind the context compressor.
    pub fn with_compressor(self, compressor: C) -> (r: ReActController<L, T, A, S, C, D>)
        ensures
            r.compressor matches Some(c) && c == compressor,
            r.config == self.config,
            r.llm == self.llm,
            r.tools == self.tools,
            r.store == self.store,
            r.session_store == self.session_store,
            r.compression_config == self.compression_config,
            r.delegator == self.delegator,
    {
        ReActController { compressor: Some(compressor), ..self }
    }

    /// Replace the compression configuration.
    pub fn with_compression_config(self, config: CompressionConfig) -> (r: ReActController<
        L,
        T,
        A,
        S,
        C,
        D,
    >)
        ensures
            r.compression_config == config,
            r.config == self.config,
            r.llm == self.llm,
            r.tools == self.tools,
            r.store == self.store,
            r.session_store == self.session_store,
            r.compressor == self.compressor,
            r.delegator == self.delegator,
    {
        ReActController { compression_config: config, ..self }
    }

    /// Bind the delegation service.
    pub fn with_delegator(self, delegator: D) -> (r: ReActController<L, T, A, S, C, D>)
        ensures
            r.delegator matches Some(d) && d == delegator,
            r.config == self.config,
            r.llm == self.llm,
            r.tools == self.tools,
            r.store == self.store,
            r.session_store == self.session_store,
            r.compressor == self.compressor,
            r.compression_config == self.compression_config,
    {
        ReActController { delegator: Some(delegator), ..self }
    }

    /// Description of available tools for the system prompt. A placeholder:
    /// the actual tool list is fetched from the tool backend at execution.
    fn get_tools_description(&self) -> (r: String)
        ensures
            r@ == "Tools will be loaded when execution starts."@,
    {
        String::from_str("Tools will be loaded when execution starts.")
    }

    /// Build the system prompt for a goal, byte for byte the template the
    /// reasoning backend is prompted with.
    fn build_system_prompt(&self, goal: &str) -> (r: String)
        ensures
            r@ == system_prompt_of(goal@),
    {
        let tools_description = self.get_tools_description();
        let mut s = String::from_str(
            "You are an AI assistant that uses the ReAct (Reasoning + Acting) pattern.\n\nGOAL: ",
        );
        s.append(goal);
        s.append("\n\nAVAILABLE TOOLS:\n");
        s.append(tools_description.as_str());
        s.append(
            "\n\nINSTRUCTIONS:\n1. Think step by step about what needs to be done\n2. Use tools when needed by responding with ACTION\n3. After receiving tool results, continue reasoning\n4. When done, provide your FINAL ANSWER\n\nRESPONSE FORMAT:\nUse exactly one of these formats in each response:\n\nFor thinking/reasoning:\nTHOUGHT: <your reasoning here>\n\nFor tool calls:\nACTION: <tool_name>\nARGS: <json arguments>\n\nFor final answer (when task is complete):\nFINAL ANSWER: <your complete answer>\n\nAlways think before acting. Be concise and focused on the goal.",
        );
        proof {
            assert(s@ =~= system_prompt_of(goal@));
        }
        s
    }

    /// Create a new session for a goal: status running, one system-role
    /// history entry holding the prompt template, task progress at iteration
    /// zero, a fresh budget.
    fn create_session(&self, goal: &str) -> (r: Session)
        ensures
            r.status == SessionStatus::Running,
            r.history@.len() == 1,
            r.history@[0].role@ == "system"@,
            r.history@[0].content@ == system_prompt_of(goal@),
            r.history@[0].tool_call is None,
            r.task_state matches Some(t) && t.iteration == 0 && t.goal@ == goal@
                && t.observations@.len() == 0 && t.pending_actions@.len() == 0,
            r.token_usage.total_tokens == 0,
            r.token_usage.prompt_tokens == 0,
            r.token_usage.completion_tokens == 0,
            r.token_usage.budget_limit == self.config.default_budget,
            r.id@.len() == 36,
    {
        let prompt = self.build_system_prompt(goal);
        let mut history: Vec<HistoryEntry> = Vec::new();
        history.push(
            HistoryEntry {
                role: String::from_str("system"),
                content: prompt,
                tool_call: None,
                timestamp: unix_timestamp(),
            },
        );
        Session {
            id: fresh_uuid_string(),
            status: SessionStatus::Running,
            history,
            task_state: Some(
                TaskState {
                    iteration: 0,
                    goal: goal.to_owned(),
                    observations: Vec::new(),
                    pending_actions: Vec::new(),
                },
            ),
            token_usage: TokenUsage::with_budget(self.config.default_budget),
            created_at: unix_timestamp(),
            updated_at: unix_timestamp(),
        }
    }

    /// Build the ordered message view from the full session history.
    fn build_messages(&self, session: &Session) -> (r: Vec<ChatMessage>)
        ensures
            r@.len() == session.history@.len(),
            forall|i: int|
                0 <= i < r@.len() ==> (#[trigger] r@[i]).role@ == session.history@[i].role@
                    && r@[i].content@ == session.history@[i].content@,
    {
        let n = session.history.len();
        let mut messages: Vec<ChatMessage> = Vec::new();
        let mut i: usize = 0;
        while i < n
            invariant
                0 <= i <= n,
                n == session.history@.len(),
                messages@.len() == i,
                forall|k: int|
                    0 <= k < i ==> (#[trigger] messages@[k]).role@ == session.history@[k].role@
                        && messages@[k].content@ == session.history@[k].content@,
            decreases n - i,
        {
            let entry = &session.history[i];
            messages.push(
                ChatMessage { role: entry.role.clone(), content: entry.content.clone() },
            );
            i = i + 1;
        }
        messages
    }

    /// Persist the session if persistence is enabled and a store is bound.
    /// A persistence failure is swallowed: in-memory state stays
    /// authoritative for the rest of the run.
    fn persist(&self, session: &Session) {
        if self.config.persist_state {
            match &self.session_store {
                Some(store) => {
                    match store.save(session) {
                        Ok(_) => {},
                        Err(_) => {},
                    }
                },
                None => {},
            }
        }
    }

    /// One reasoning step with the reasoning backend bound: build the
    /// (possibly compressed) ephemeral message view, invoke the backend, add
    /// its usage to the budget, append the assistant entry, decode one action
    /// and enact it. Appends exactly the assistant entry for a terminal
    /// answer, and exactly the assistant entry plus one observation or nudge
    /// entry otherwise; history is never rewritten.
    pub fn execute_iteration_with_llm(&self, session: &mut Session, iteration: usize) -> (r:
        Result<Option<AgentResult>, Error>)
        ensures
            old(session).history@.is_prefix_of(final(session).history@),
            final(session).status == old(session).status,
            final(session).id == old(session).id,
            final(session).created_at == old(session).created_at,
            final(session).updated_at == old(session).updated_at,
            final(session).token_usage.budget_limit == old(session).token_usage.budget_limit,
            final(session).token_usage.total_tokens >= old(session).token_usage.total_tokens,
            old(session).task_state is None ==> final(session).task_state is None,
            old(session).task_state matches Some(t0) ==> (final(session).task_state matches Some(
                t1,
            ) && t1.goal == t0.goal && t1.iteration == t0.iteration
                && t0.observations@.is_prefix_of(t1.observations@)),
            self.llm is None ==> (r matches Err(e) && e matches Error::Controller(m) && m@
                == "LLM client not configured"@),
            self.llm is None ==> *final(session) == *old(session),
            self.llm is Some ==> (r matches Err(e) ==> e is Capability),
            r is Err ==> final(session).history == old(session).history,
            r is Err ==> final(session).token_usage == old(session).token_usage,
            r is Err ==> final(session).task_state == old(session).task_state,
            r matches Err(e) ==> (e is Controller || e is Capability),
            r matches Ok(step) ==> (step is Some ==> final(session).task_state == old(
                session,
            ).task_state),
            r matches Ok(step) ==> ({
                let hist = final(session).history@;
                let n0 = old(session).history@.len() as int;
                let resp = hist[n0].content@;
                &&& hist.len() > n0
                &&& hist[n0].role@ == "assistant"@
                &&& hist[n0].tool_call is None
                &&& (step matches Some(result) ==> hist.len() == n0 + 1 && is_final(resp) && (
                result matches AgentResult::Text(ans) && ans@ == final_answer_of(resp)))
                &&& (step is None ==> {
                    &&& hist.len() == n0 + 2
                    &&& !is_final(resp)
                    &&& hist[n0 + 1].role@ == "user"@
                    &&& (is_tool(resp) ==> (hist[n0 + 1].tool_call matches Some(tc) && tc.name@
                        == tool_name_of(resp) && tc.arguments == json_line_value(
                        tool_args_line_of(resp),
                    ) && (tc.result matches Some(obs) && hist[n0 + 1].content@ == "OBSERVATION: "@
                        + obs@)))
                    &&& ((is_tool(resp) && self.tools is None) ==> hist[n0 + 1].content@
                        == "OBSERVATION: "@ + (("Tool '"@ + tool_name_of(resp))
                        + "' not available (no tools configured)"@))
                    &&& ((is_thought(resp) || is_plain_think(resp)) ==> hist[n0 + 1].content@
                        == nudge_text() && hist[n0 + 1].tool_call is None)
                    &&& (is_delegate(resp) ==> starts_with(
                        hist[n0 + 1].content@,
                        "DELEGATION RESULT: "@,
                    ) && hist[n0 + 1].tool_call is None)
                    &&& ((is_delegate(resp) && self.delegator is None) ==> hist[n0 + 1].content@
                        == "DELEGATION RESULT: "@ + (
                        "Delegation not available (no delegator configured). Objective: "@
                        + delegate_objective_of(resp)))
                })
            }),
            r matches Ok(step) ==> (step is None ==> (old(session).task_state matches Some(t0)
                ==> (final(session).task_state matches Some(t1) && ({
                let n0 = old(session).history@.len() as int;
                let resp = final(session).history@[n0].content@;
                &&& t1.pending_actions == t0.pending_actions
                &&& ((is_tool(resp) || is_delegate(resp)) ==> t1.observations@.len()
                    == t0.observations@.len() + 1)
                &&& (is_tool(resp) ==> final(session).history@[n0 + 1].content@ == "OBSERVATION: "@
                    + t1.observations@.last()@)
                &&& (is_delegate(resp) ==> final(session).history@[n0 + 1].content@
                    == "DELEGATION RESULT: "@ + t1.observations@.last()@)
                &&& ((is_thought(resp) || is_plain_think(resp)) ==> t1.observations
                    == t0.observations)
            })))),
    {
        let llm = match &self.llm {
            Some(l) => l,
            None => {
                return Err(Error::controller("LLM client not configured"));
            },
        };
        let ghost h0 = session.history@;

        // Build the ephemeral view, compressing it when the trigger fires.
        // Only this view is replaced; the history stays as it is.
        let mut messages = self.build_messages(session);
        match &self.compressor {
            Some(compressor) => {
                if compressor.needs_compression(&messages, &self.compression_config) {
                    match compressor.compress(messages, &self.compression_config) {
                        Ok(result) => {
                            messages = result.messages;
                        },
                        Err(e) => {
                            return Err(Error::Capability(e.message));
                        },
                    }
                }
            },
            None => {
                let fallback = TruncationCompressor::new();
                if fallback.should_compress(&messages, &self.compression_config) {
                    let result = fallback.truncate(messages, &self.compression_config);
                    messages = result.messages;
                }
            },
        }

        let response = match llm.chat(&messages) {
            Ok(resp) => resp,
            Err(e) => {
                return Err(Error::Capability(e.message));
            },
        };
        session.token_usage.add_saturating(
            response.usage.prompt_tokens,
            response.usage.completion_tokens,
        );

        session.history.push(
            HistoryEntry {
                role: String::from_str("assistant"),
                content: response.content.clone(),
                tool_call: None,
                timestamp: unix_timestamp(),
            },
        );
        proof {
            assert(session.history@.subrange(0, h0.len() as int) =~= h0);
        }

        let action = decode_action(response.content.as_str());

        match action {
            ReActAction::FinalAnswer(answer) => Ok(Some(AgentResult::Text(answer))),
            ReActAction::ToolCall { name, args } => {
                let observation: String = match &self.tools {
                    Some(tools) => {
                        match tools.execute(name.as_str(), &args) {
                            Ok(output) => format_tool_outcome(name.as_str(), &output),
                            Err(e) => {
                                let mut s = String::from_str("Tool '");
                                s.append(name.as_str());
                                s.append("' error: ");
                                s.append(e.message.as_str());
                                s
                            },
                        }
                    },
                    None => {
                        let mut s = String::from_str("Tool '");
                        s.append(name.as_str());
                        s.append("' not available (no tools configured)");
                        s
                    },
                };
                let mut content = String::from_str("OBSERVATION: ");
                content.append(observation.as_str());
                proof {
                    lemma_prefix_of_concat("OBSERVATION: "@, observation@);
                }
                let ghost h1 = session.history@;
                session.history.push(
                    HistoryEntry {
                        role: String::from_str("user"),
                        content,
                        tool_call: Some(
                            ToolCallInfo {
                                name,
                                arguments: args,
                                result: Some(observation.clone()),
                            },
                        ),
                        timestamp: unix_timestamp(),
                    },
                );
                proof {
                    assert(session.history@.subrange(0, h0.len() as int) =~= h0);
                    assert(session.history@[h0.len() as int] == h1[h0.len() as int]);
                }
                match &mut session.task_state {
                    Some(ts) => {
                        ts.observations.push(observation);
                        proof {
                            assert(ts.observations@.subrange(
                                0,
                                ts.observations@.len() - 1,
                            ) =~= old(session).task_state->Some_0.observations@);
                        }
                    },
                    None => {},
                }
                Ok(None)
            },
            ReActAction::Think(_) => {
                let ghost h1 = session.history@;
                session.history.push(
                    HistoryEntry {
                        role: String::from_str("user"),
                        content: String::from_str(
                            "Please take an action using a tool, or provide your FINAL ANSWER if the task is complete.",
                        ),
                        tool_call: None,
                        timestamp: unix_timestamp(),
                    },
                );
                proof {
                    assert(session.history@.subrange(0, h0.len() as int) =~= h0);
                    assert(session.history@[h0.len() as int] == h1[h0.len() as int]);
                }
                Ok(None)
            },
            ReActAction::Delegate { objective, context } => {
                let observation: String = match &self.delegator {
                    Some(delegator) => {
                        let request = DelegationRequest::new(objective.as_str()).with_context(
                            context.as_str(),
                        );
                        match delegator.delegate(request) {
                            Ok(result) => format_delegation_outcome(&result),
                            Err(e) => {
                                let mut s = String::from_str("Delegation error: ");
                                s.append(e.message.as_str());
                                s
                            },
                        }
                    },
                    None => {
                        let mut s = String::from_str(
                            "Delegation not available (no delegator configured). Objective: ",
                        );
                        s.append(objective.as_str());
                        s
                    },
                };
                let mut content = String::from_str("DELEGATION RESULT: ");
                content.append(observation.as_str());
                proof {
                    lemma_prefix_of_concat("DELEGATION RESULT: "@, observation@);
                }
                let ghost h1 = session.history@;
                session.history.push(
                    HistoryEntry {
                        role: String::from_str("user"),
                        content,
                        tool_call: None,
                        timestamp: unix_timestamp(),
                    },
                );
                proof {
                    assert(session.history@.subrange(0, h0.len() as int) =~= h0);
                    assert(session.history@[h0.len() as int] == h1[h0.len() as int]);
                }
                match &mut session.task_state {
                    Some(ts) => {
                        ts.observations.push(observation);
                        proof {
                            assert(ts.observations@.subrange(
                                0,
                                ts.observations@.len() - 1,
                            ) =~= old(session).task_state->Some_0.observations@);
                        }
                    },
                    None => {},
                }
                Ok(None)
            },
        }
    }

    /// One iteration: a real reasoning step when the backend is bound, and
    /// the explicit degraded mode otherwise - immediately terminal, echoing
    /// the goal and stating that a reasoning backend must be configured.
    pub fn execute_iteration(&self, session: &mut Session, iteration: usize) -> (r: Result<
        Option<AgentResult>,
        Error,
    >)
        ensures
            old(session).history@.is_prefix_of(final(session).history@),
            final(session).status == old(session).status,
            final(session).id == old(session).id,
            final(session).updated_at == old(session).updated_at,
            final(session).token_usage.budget_limit == old(session).token_usage.budget_limit,
            final(session).token_usage.total_tokens >= old(session).token_usage.total_tokens,
            old(session).task_state is None ==> final(session).task_state is None,
            old(session).task_state matches Some(t0) ==> (final(session).task_state matches Some(
                t1,
            ) && t1.goal == t0.goal && t1.iteration == t0.iteration),
            self.llm is None ==> *final(session) == *old(session),
            self.llm is None ==> (r matches Ok(step) && step matches Some(res) && res
                matches AgentResult::Text(m) && m@ == mock_result_text(
                session_goal_text(old(session).task_state),
            )),
            r is Err ==> final(session).history == old(session).history,
            r is Err ==> final(session).token_usage == old(session).token_usage,
            r is Err ==> final(session).task_state == old(session).task_state,
            r matches Err(e) ==> (e is Controller || e is Capability),
            self.llm is Some ==> (r matches Err(e) ==> e is Capability),
            r matches Ok(step) ==> (step matches Some(res) ==> res is Text),
            r matches Ok(step) ==> ((self.llm is Some && step is Some)
                ==> final(session).history@.len() == old(session).history@.len() + 1),
            r matches Ok(step) ==> ((self.llm is Some && step is None)
                ==> final(session).history@.len() == old(session).history@.len() + 2),
    {
        if self.llm.is_some() {
            self.execute_iteration_with_llm(session, iteration)
        } else {
            let goal_text: &str = match &session.task_state {
                Some(t) => t.goal.as_str(),
                None => "unknown",
            };
            let mut m = String::from_str("Mock ReAct execution. Goal: ");
            m.append(goal_text);
            m.append(". Configure LLM client for real execution.");
            Ok(Some(AgentResult::Text(m)))
        }
    }

    /// Execute one intent. The fast path invokes the tool backend directly
    /// and never raises: every tool-level problem becomes a structured error
    /// result. The slow path creates a session and runs the bounded loop: a
    /// terminal outcome completes the session; a passed budget or an
    /// exhausted iteration cap fails it.
    #[verifier::loop_isolation(false)]
    pub fn execute(&self, intent: UserIntent) -> (r: Result<AgentResult, Error>)
        ensures
            intent matches UserIntent::FastAction { tool_name, args } ==> {
                &&& r is Ok
                &&& (self.tools is None ==> (r matches Ok(res) && (res matches AgentResult::Text(m)
                    && m@ == fast_unconfigured_text(tool_name@))))
                &&& (self.tools is Some ==> (r matches Ok(res) && (res matches AgentResult::Text(c)
                    || (res matches AgentResult::Error { message, code } && (code@ == "TOOL_ERROR"@
                    || code@ == "TOOL_NOT_FOUND"@)))))
            },
            intent matches UserIntent::ComplexMission { goal, context_summary, visual_refs } ==> {
                &&& (self.llm is None && self.config.max_iterations >= 1 ==> (r matches Ok(res) && (
                res matches AgentResult::Text(m) && m@ == mock_result_text(goal@))))
                &&& (r matches Ok(res) ==> res is Text)
                &&& (self.config.max_iterations == 0 ==> (r matches Err(e) && e
                    matches Error::MaxIterationsExceeded(n) && n == 0))
                &&& (self.llm is Some ==> (r matches Err(e) ==> (e is Capability
                    || e is BudgetExceeded || e is MaxIterationsExceeded)))
                &&& (r matches Err(e) ==> (e matches Error::MaxIterationsExceeded(n) ==> n
                    == self.config.max_iterations))
                &&& (r matches Err(e) ==> (e matches Error::BudgetExceeded { used, limit } ==> used
                    >= limit && limit == self.config.default_budget))
            },
    {
        match intent {
            UserIntent::FastAction { tool_name, args } => {
                match &self.tools {
                    Some(tools) => {
                        match tools.execute(tool_name.as_str(), &args) {
                            Ok(output) => {
                                if output.success {
                                    Ok(AgentResult::Text(output.content))
                                } else {
                                    Ok(
                                        AgentResult::Error {
                                            message: output.content,
                                            code: String::from_str("TOOL_ERROR"),
                                        },
                                    )
                                }
                            },
                            Err(e) => Ok(
                                AgentResult::Error {
                                    message: e.message,
                                    code: String::from_str("TOOL_NOT_FOUND"),
                                },
                            ),
                        }
                    },
                    None => {
                        let mut m = String::from_str("Fast path: would execute tool '");
                        m.append(tool_name.as_str());
                        m.append("'. Tools not configured.");
                        Ok(AgentResult::Text(m))
                    },
                }
            },
            UserIntent::ComplexMission { goal, context_summary, visual_refs } => {
                let mut session = self.create_session(goal.as_str());

                // Append the user context, with a listing of the visual
                // references when any are present.
                let content: String = if visual_refs.len() == 0 {
                    context_summary
                } else {
                    let joined = join_refs(&visual_refs);
                    let mut c = context_summary;
                    c.append("\n\nReferences: ");
                    c.append(joined.as_str());
                    c
                };
                session.history.push(
                    HistoryEntry {
                        role: String::from_str("user"),
                        content,
                        tool_call: None,
                        timestamp: unix_timestamp(),
                    },
                );

                let max_iterations = self.config.max_iterations;
                let mut iteration: usize = 0;
                while iteration < max_iterations
                    invariant
                        iteration <= max_iterations,
                        self.llm is Some || iteration == 0,
                        session.token_usage.budget_limit == self.config.default_budget,
                        session.task_state matches Some(t) && t.goal@ == goal@,
                    decreases max_iterations - iteration,
                {
                    match &mut session.task_state {
                        Some(ts) => {
                            ts.iteration = iteration;
                        },
                        None => {},
                    }
                    match self.execute_iteration(&mut session, iteration) {
                        Ok(Some(result)) => {
                            session.updated_at = unix_timestamp();
                            session.status = SessionStatus::Completed;
                            self.persist(&session);
                            return Ok(result);
                        },
                        Ok(None) => {
                            session.updated_at = unix_timestamp();
                            self.persist(&session);
                            if session.token_usage.is_exceeded() {
                                session.status = SessionStatus::Failed;
                                return Err(
                                    Error::BudgetExceeded {
                                        used: session.token_usage.total_tokens,
                                        limit: session.token_usage.budget_limit,
                                    },
                                );
                            }
                        },
                        Err(e) => {
                            return Err(e);
                        },
                    }
                    iteration = iteration + 1;
                }
                session.status = SessionStatus::Failed;
                Err(Error::MaxIterationsExceeded(max_iterations))
            },
        }
    }

    /// An extension point for reloading a persisted session and continuing
    /// its loop; presently always fails.
    pub fn resume(&self, session_id: &str) -> (r: Result<AgentResult, Error>)
        ensures
            r matches Err(e) && (e matches Error::Controller(m) && m@
                == "Resume not yet implemented - coming in Phase 2 persistence"@),
    {
        Err(Error::controller("Resume not yet implemented - coming in Phase 2 persistence"))
    }

    /// Cancellation is acknowledged but has no effect on an in-flight loop;
    /// an extension point for a per-iteration cancellation check.
    pub fn cancel(&self, session_id: &str) -> (r: Result<(), Error>)
        ensures
            r is Ok,
    {
        Ok(())
    }

    /// Decode one action from raw reasoning output; see the decoder module
    /// for the precedence.
    pub fn parse_action(&self, response: &str) -> (r: ReActAction)
        ensures
            is_final(response@) ==> (r matches ReActAction::FinalAnswer(a) && a@ == final_answer_of(
                response@,
            )),
            is_tool(response@) ==> (r matches ReActAction::ToolCall { name, args } && name@
                == tool_name_of(response@) && args == json_line_value(
                tool_args_line_of(response@),
            )),
            is_thought(response@) || is_plain_think(response@) ==> (r
                matches ReActAction::Think(t) && t@ == crate::decode::thought_text_of(response@)),
            is_delegate(response@) ==> (r matches ReActAction::Delegate { objective, context }
                && objective@ == crate::decode::delegate_objective_of(response@) && context@
                == crate::decode::delegate_context_of(response@)),
    {
        decode_action(response)
    }
}

} // verus!
