use std::cell::RefCell;

use react_engine::caps::{ChatMessage, LlmClient, LlmResponse, LlmUsage, ToolRegistry};
use react_engine::delegation::{DelegationRequest, DelegationResult, Delegator};
use react_engine::error::{CapabilityError, Error};
use react_engine::react::{ReActConfig, ReActController};
use react_engine::types::{AgentResult, ToolOutput, UserIntent};

/// A reasoning backend that replays a fixed script of responses.
struct ScriptedLlm {
    replies: RefCell<Vec<String>>,
    prompt_tokens: u64,
    completion_tokens: u64,
}

impl ScriptedLlm {
    fn new(replies: Vec<&str>, prompt_tokens: u64, completion_tokens: u64) -> ScriptedLlm {
        ScriptedLlm {
            replies: RefCell::new(replies.into_iter().map(|s| s.to_string()).collect()),
            prompt_tokens,
            completion_tokens,
        }
    }
}

impl LlmClient for ScriptedLlm {
    fn chat(&self, _messages: &Vec<ChatMessage>) -> Result<LlmResponse, CapabilityError> {
        let mut replies = self.replies.borrow_mut();
        let content = if replies.is_empty() {
            "THOUGHT: the script is exhausted".to_string()
        } else {
            replies.remove(0)
        };
        Ok(LlmResponse {
            content,
            usage: LlmUsage {
                prompt_tokens: self.prompt_tokens,
                completion_tokens: self.completion_tokens,
            },
        })
    }
}

/// A tool backend that succeeds for one known tool and errors otherwise.
struct OneToolRegistry {
    known: String,
    reply: String,
}

impl ToolRegistry for OneToolRegistry {
    fn execute(
        &self,
        name: &str,
        _args: &serde_json::Value,
    ) -> Result<ToolOutput, CapabilityError> {
        if name == self.known {
            Ok(ToolOutput::text(self.reply.clone()))
        } else {
            Err(CapabilityError::new(&format!("tool not found: {}", name)))
        }
    }
}

/// A tool backend whose tool always reports failure.
struct FailingToolRegistry {}

impl ToolRegistry for FailingToolRegistry {
    fn execute(
        &self,
        _name: &str,
        _args: &serde_json::Value,
    ) -> Result<ToolOutput, CapabilityError> {
        Ok(ToolOutput::error("disk full".to_string()))
    }
}

/// A delegation service that always succeeds.
struct HappyDelegator {}

impl Delegator for HappyDelegator {
    fn delegate(&self, request: DelegationRequest) -> Result<DelegationResult, CapabilityError> {
        Ok(DelegationResult {
            success: true,
            result: format!("finished: {}", request.objective),
            error: None,
        })
    }
}

fn string_args(key: &str, value: &str) -> serde_json::Value {
    let mut map = serde_json::Map::new();
    map.insert(
        key.to_string(),
        serde_json::Value::String(value.to_string()),
    );
    serde_json::Value::Object(map)
}

#[test]
fn test_fast_action() {
    let controller: ReActController = ReActController::new(ReActConfig::default());

    let intent = UserIntent::FastAction {
        tool_name: "test_tool".to_string(),
        args: string_args("query", "test"),
    };

    let result = controller.execute(intent).unwrap();
    match result {
        AgentResult::Text(text) => {
            assert!(text.contains("test_tool"));
        }
        _ => panic!("Expected Text result"),
    }
}

#[test]
fn test_complex_mission_mock() {
    let controller: ReActController = ReActController::new(ReActConfig::default());

    let intent = UserIntent::ComplexMission {
        goal: "Test goal".to_string(),
        context_summary: "Test context".to_string(),
        visual_refs: vec![],
    };

    let result = controller.execute(intent).unwrap();
    match result {
        AgentResult::Text(text) => {
            assert!(text.contains("Mock ReAct"));
        }
        _ => panic!("Expected Text result"),
    }
}

#[test]
fn test_complex_mission_mock_echoes_goal() {
    let controller: ReActController = ReActController::new(ReActConfig::default());

    let result = controller
        .execute(UserIntent::ComplexMission {
            goal: "compute the answer".to_string(),
            context_summary: "ctx".to_string(),
            visual_refs: vec![],
        })
        .unwrap();
    match result {
        AgentResult::Text(text) => {
            assert_eq!(
                text,
                "Mock ReAct execution. Goal: compute the answer. Configure LLM client for real execution."
            );
        }
        other => panic!("Expected Text result, got {:?}", other),
    }
}

#[test]
fn test_fast_action_unbound_tools_mentions_tool_name() {
    let controller: ReActController = ReActController::new(ReActConfig::default());

    let result = controller
        .execute(UserIntent::FastAction {
            tool_name: "wizard".to_string(),
            args: serde_json::Value::Object(serde_json::Map::new()),
        })
        .unwrap();
    match result {
        AgentResult::Text(text) => {
            assert_eq!(
                text,
                "Fast path: would execute tool 'wizard'. Tools not configured."
            );
        }
        other => panic!("Expected Text result, got {:?}", other),
    }
}

#[test]
fn test_fast_action_unknown_tool_is_error_result_not_panic() {
    let tools = OneToolRegistry {
        known: "echo".to_string(),
        reply: "hello".to_string(),
    };
    let controller: ReActController<react_engine::caps::NoLlm, OneToolRegistry> =
        ReActController::new(ReActConfig::default()).with_tools(tools);

    let result = controller
        .execute(UserIntent::FastAction {
            tool_name: "missing_tool".to_string(),
            args: serde_json::Value::Object(serde_json::Map::new()),
        })
        .unwrap();
    match result {
        AgentResult::Error { message, code } => {
            assert_eq!(code, "TOOL_NOT_FOUND");
            assert!(message.contains("missing_tool"));
        }
        other => panic!("Expected Error result, got {:?}", other),
    }
}

#[test]
fn test_fast_action_tool_success_returns_its_text() {
    let tools = OneToolRegistry {
        known: "echo".to_string(),
        reply: "hello from echo".to_string(),
    };
    let controller: ReActController<react_engine::caps::NoLlm, OneToolRegistry> =
        ReActController::new(ReActConfig::default()).with_tools(tools);

    let result = controller
        .execute(UserIntent::FastAction {
            tool_name: "echo".to_string(),
            args: serde_json::Value::Object(serde_json::Map::new()),
        })
        .unwrap();
    match result {
        AgentResult::Text(text) => assert_eq!(text, "hello from echo"),
        other => panic!("Expected Text result, got {:?}", other),
    }
}

#[test]
fn test_fast_action_tool_failure_is_tool_error_code() {
    let controller: ReActController<react_engine::caps::NoLlm, FailingToolRegistry> =
        ReActController::new(ReActConfig::default()).with_tools(FailingToolRegistry {});

    let result = controller
        .execute(UserIntent::FastAction {
            tool_name: "anything".to_string(),
            args: serde_json::Value::Object(serde_json::Map::new()),
        })
        .unwrap();
    match result {
        AgentResult::Error { message, code } => {
            assert_eq!(code, "TOOL_ERROR");
            assert_eq!(message, "disk full");
        }
        other => panic!("Expected Error result, got {:?}", other),
    }
}

#[test]
fn test_loop_without_final_answer_fails_with_max_iterations() {
    let mut config = ReActConfig::default();
    config.max_iterations = 3;
    let llm = ScriptedLlm::new(vec![], 1, 1);
    let controller: ReActController<ScriptedLlm> = ReActController::new(config).with_llm(llm);

    let result = controller.execute(UserIntent::ComplexMission {
        goal: "never finishes".to_string(),
        context_summary: "ctx".to_string(),
        visual_refs: vec![],
    });
    match result {
        Err(Error::MaxIterationsExceeded(n)) => assert_eq!(n, 3),
        other => panic!("Expected MaxIterationsExceeded, got {:?}", other),
    }
}

#[test]
fn test_loop_with_one_iteration_cap() {
    let mut config = ReActConfig::default();
    config.max_iterations = 1;
    let llm = ScriptedLlm::new(vec!["THOUGHT: pondering"], 1, 1);
    let controller: ReActController<ScriptedLlm> = ReActController::new(config).with_llm(llm);

    let result = controller.execute(UserIntent::ComplexMission {
        goal: "never finishes".to_string(),
        context_summary: "ctx".to_string(),
        visual_refs: vec![],
    });
    match result {
        Err(Error::MaxIterationsExceeded(n)) => assert_eq!(n, 1),
        other => panic!("Expected MaxIterationsExceeded, got {:?}", other),
    }
}

#[test]
fn test_loop_budget_exceeded_stops_before_iteration_cap() {
    let mut config = ReActConfig::default();
    config.max_iterations = 10;
    config.default_budget = 5;
    let llm = ScriptedLlm::new(vec![], 10, 10);
    let controller: ReActController<ScriptedLlm> = ReActController::new(config).with_llm(llm);

    let result = controller.execute(UserIntent::ComplexMission {
        goal: "expensive".to_string(),
        context_summary: "ctx".to_string(),
        visual_refs: vec![],
    });
    match result {
        Err(Error::BudgetExceeded { used, limit }) => {
            assert_eq!(limit, 5);
            assert!(used >= limit);
        }
        other => panic!("Expected BudgetExceeded, got {:?}", other),
    }
}

#[test]
fn test_loop_final_answer_terminates() {
    let llm = ScriptedLlm::new(vec!["FINAL ANSWER: all done"], 1, 1);
    let controller: ReActController<ScriptedLlm> =
        ReActController::new(ReActConfig::default()).with_llm(llm);

    let result = controller
        .execute(UserIntent::ComplexMission {
            goal: "finish".to_string(),
            context_summary: "ctx".to_string(),
            visual_refs: vec![],
        })
        .unwrap();
    match result {
        AgentResult::Text(text) => assert_eq!(text, "all done"),
        other => panic!("Expected Text result, got {:?}", other),
    }
}

#[test]
fn test_loop_tool_call_then_final_answer() {
    let llm = ScriptedLlm::new(
        vec![
            "ACTION: echo\nARGS: {\"x\": 1}",
            "FINAL ANSWER: used the tool",
        ],
        1,
        1,
    );
    let tools = OneToolRegistry {
        known: "echo".to_string(),
        reply: "echoed".to_string(),
    };
    let controller: ReActController<ScriptedLlm, OneToolRegistry> =
        ReActController::new(ReActConfig::default())
            .with_llm(llm)
            .with_tools(tools);

    let result = controller
        .execute(UserIntent::ComplexMission {
            goal: "use a tool".to_string(),
            context_summary: "ctx".to_string(),
            visual_refs: vec![],
        })
        .unwrap();
    match result {
        AgentResult::Text(text) => assert_eq!(text, "used the tool"),
        other => panic!("Expected Text result, got {:?}", other),
    }
}

#[test]
fn test_delegation_outcome_becomes_observation_and_loop_continues() {
    let llm = ScriptedLlm::new(
        vec![
            "DELEGATE: summarize\nCONTEXT: the report",
            "FINAL ANSWER: delegated fine",
        ],
        1,
        1,
    );
    let controller: ReActController<
        ScriptedLlm,
        react_engine::caps::NoTools,
        react_engine::caps::NoArtifactStore,
        react_engine::caps::NoSessionStore,
        react_engine::context::TruncationCompressor,
        HappyDelegator,
    > = ReActController::new(ReActConfig::default())
        .with_llm(llm)
        .with_delegator(HappyDelegator {});

    let result = controller
        .execute(UserIntent::ComplexMission {
            goal: "delegate work".to_string(),
            context_summary: "ctx".to_string(),
            visual_refs: vec![],
        })
        .unwrap();
    match result {
        AgentResult::Text(text) => assert_eq!(text, "delegated fine"),
        other => panic!("Expected Text result, got {:?}", other),
    }
}

#[test]
fn test_resume_not_implemented() {
    let controller: ReActController = ReActController::new(ReActConfig::default());
    match controller.resume("some-session") {
        Err(Error::Controller(message)) => {
            assert!(message.contains("Resume not yet implemented"));
        }
        other => panic!("Expected Controller error, got {:?}", other),
    }
}

#[test]
fn test_cancel_is_acknowledged() {
    let controller: ReActController = ReActController::new(ReActConfig::default());
    assert!(controller.cancel("some-session").is_ok());
}
