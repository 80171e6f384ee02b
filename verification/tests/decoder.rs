use react_engine::decode::ReActAction;
use react_engine::react::{ReActConfig, ReActController};

fn controller() -> ReActController {
    ReActController::new(ReActConfig::default())
}

#[test]
fn test_parse_final_answer() {
    let controller = controller();

    let response = "FINAL ANSWER: The result is 42.";
    let action = controller.parse_action(response);

    match action {
        ReActAction::FinalAnswer(answer) => {
            assert_eq!(answer, "The result is 42.");
        }
        _ => panic!("Expected FinalAnswer"),
    }
}

#[test]
fn test_parse_tool_call() {
    let controller = controller();

    let response = "THOUGHT: I need to calculate something.\nACTION: calculator\nARGS: {\"operation\": \"add\", \"a\": 5, \"b\": 3}";

    let action = controller.parse_action(response);

    match action {
        ReActAction::ToolCall { name, args } => {
            assert_eq!(name, "calculator");
            assert_eq!(args["operation"], "add");
        }
        _ => panic!("Expected ToolCall, got {:?}", action),
    }
}

#[test]
fn test_parse_thought() {
    let controller = controller();

    let response = "THOUGHT: I need to think about this more.";
    let action = controller.parse_action(response);

    match action {
        ReActAction::Think(thought) => {
            assert!(thought.contains("think about"));
        }
        _ => panic!("Expected Think"),
    }
}

#[test]
fn test_parse_tool_call_args_values() {
    let controller = controller();

    let response = "ACTION: calculator\nARGS: {\"operation\": \"add\", \"a\": 5, \"b\": 3}";
    match controller.parse_action(response) {
        ReActAction::ToolCall { name, args } => {
            assert_eq!(name, "calculator");
            assert_eq!(args["a"], 5);
            assert_eq!(args["b"], 3);
        }
        other => panic!("Expected ToolCall, got {:?}", other),
    }
}

#[test]
fn test_parse_tool_call_without_args_defaults_to_empty_object() {
    let controller = controller();

    match controller.parse_action("ACTION: search") {
        ReActAction::ToolCall { name, args } => {
            assert_eq!(name, "search");
            assert!(args.is_object());
            assert_eq!(args.as_object().unwrap().len(), 0);
        }
        other => panic!("Expected ToolCall, got {:?}", other),
    }
}

#[test]
fn test_parse_tool_call_invalid_args_defaults_to_empty_object() {
    let controller = controller();

    match controller.parse_action("ACTION: search\nARGS: not json at all") {
        ReActAction::ToolCall { name, args } => {
            assert_eq!(name, "search");
            assert!(args.is_object());
            assert_eq!(args.as_object().unwrap().len(), 0);
        }
        other => panic!("Expected ToolCall, got {:?}", other),
    }
}

#[test]
fn test_parse_final_answer_takes_precedence_over_action() {
    let controller = controller();

    let response = "FINAL ANSWER: done, no more ACTION: needed";
    match controller.parse_action(response) {
        ReActAction::FinalAnswer(answer) => {
            assert!(answer.contains("done"));
        }
        other => panic!("Expected FinalAnswer, got {:?}", other),
    }
}

#[test]
fn test_parse_delegate_with_context() {
    let controller = controller();

    let response = "DELEGATE: summarize the report\nCONTEXT: quarterly figures";
    match controller.parse_action(response) {
        ReActAction::Delegate { objective, context } => {
            assert_eq!(objective, "summarize the report");
            assert_eq!(context, "quarterly figures");
        }
        other => panic!("Expected Delegate, got {:?}", other),
    }
}

#[test]
fn test_parse_delegate_without_context() {
    let controller = controller();

    match controller.parse_action("DELEGATE: fetch the data") {
        ReActAction::Delegate { objective, context } => {
            assert_eq!(objective, "fetch the data");
            assert_eq!(context, "");
        }
        other => panic!("Expected Delegate, got {:?}", other),
    }
}

#[test]
fn test_parse_fallback_is_think() {
    let controller = controller();

    match controller.parse_action("  just some prose with no markers  ") {
        ReActAction::Think(text) => {
            assert_eq!(text, "just some prose with no markers");
        }
        other => panic!("Expected Think, got {:?}", other),
    }
}

#[test]
fn test_parse_markers_are_case_sensitive() {
    let controller = controller();

    match controller.parse_action("final answer: lower case does not count") {
        ReActAction::Think(text) => {
            assert!(text.contains("lower case"));
        }
        other => panic!("Expected Think, got {:?}", other),
    }
}

#[test]
fn test_parse_tool_call_crlf_lines() {
    let controller = controller();

    let response = "ACTION: calculator\r\nARGS: {\"a\": 1}\r\nTHOUGHT: later";
    match controller.parse_action(response) {
        ReActAction::ToolCall { name, args } => {
            assert_eq!(name, "calculator");
            assert_eq!(args["a"], 1);
        }
        other => panic!("Expected ToolCall, got {:?}", other),
    }
}

#[test]
fn test_parse_empty_input_is_empty_think() {
    let controller = controller();

    match controller.parse_action("") {
        ReActAction::Think(text) => {
            assert_eq!(text, "");
        }
        other => panic!("Expected Think, got {:?}", other),
    }
}
