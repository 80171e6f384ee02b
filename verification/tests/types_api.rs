use react_engine::error::Error;
use react_engine::types::{NormalizedRequest, RefId, RequestContent, RequestMetadata, ToolOutput};

#[test]
fn test_refid_new_is_36_chars_and_fresh() {
    let a = RefId::new();
    let b = RefId::new();
    assert_eq!(a.as_str().len(), 36);
    assert_eq!(b.as_str().len(), 36);
    assert!(a != b);
}

#[test]
fn test_refid_from_string_round_trip() {
    let id = RefId::from_string("artifact-7".to_string());
    assert_eq!(id.as_str(), "artifact-7");
    assert_eq!(id, RefId::from_string("artifact-7".to_string()));
}

#[test]
fn test_tool_output_builders() {
    let ok = ToolOutput::text("fine".to_string());
    assert!(ok.success);
    assert_eq!(ok.content, "fine");
    assert!(ok.data.is_none());
    assert!(ok.created_refs.is_empty());

    let mut map = serde_json::Map::new();
    map.insert("k".to_string(), serde_json::Value::Bool(true));
    let with_data = ToolOutput::text("fine".to_string())
        .with_data(serde_json::Value::Object(map));
    assert!(with_data.data.is_some());

    let failed = ToolOutput::error("broke".to_string());
    assert!(!failed.success);
    assert_eq!(failed.content, "broke");
}

#[test]
fn test_tool_output_reference_format() {
    let id = RefId::from_string("ref-1".to_string());
    let out = ToolOutput::reference(id.clone(), "A big artifact.".to_string());
    assert!(out.success);
    assert_eq!(out.content, "Output saved as RefID: ref-1. A big artifact.");
    assert_eq!(out.created_refs.len(), 1);
    assert_eq!(out.created_refs[0], id);
}

#[test]
fn test_normalized_request_builders() {
    let req = NormalizedRequest::text("hello".to_string());
    assert_eq!(req.content, "hello");
    assert_eq!(req.trace_id.len(), 36);
    match &req.original_content {
        RequestContent::Text(t) => assert_eq!(t, "hello"),
        other => panic!("Expected Text content, got {:?}", other),
    }

    let req = req.with_ref(RefId::from_string("r".to_string()));
    assert_eq!(req.refs.len(), 1);

    let mut metadata = RequestMetadata::default();
    metadata.user_id = Some("u1".to_string());
    let req = req.with_metadata(metadata);
    assert_eq!(req.metadata.user_id.as_deref(), Some("u1"));
}

#[test]
fn test_error_messages() {
    assert_eq!(
        Error::Capability("backend closed".to_string()).message(),
        "backend closed"
    );
    assert_eq!(
        Error::controller("bad setup").message(),
        "bad setup"
    );
    assert_eq!(
        Error::BudgetExceeded { used: 10, limit: 5 }.message(),
        "Budget exceeded: used 10 of 5"
    );
    assert_eq!(
        Error::MaxIterationsExceeded(3).message(),
        "Maximum iterations exceeded: 3"
    );
}
