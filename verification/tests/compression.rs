use react_engine::caps::ChatMessage;
use react_engine::context::{
    estimate_tokens, CompressionConfig, ContextCompressor, TruncationCompressor,
};

fn messages(n: usize) -> Vec<ChatMessage> {
    let mut out = Vec::new();
    for i in 0..n {
        out.push(ChatMessage {
            role: "user".to_string(),
            content: format!("message number {}", i),
        });
    }
    out
}

#[test]
fn test_short_view_needs_no_compression() {
    let compressor = TruncationCompressor::new();
    let config = CompressionConfig::default();
    let view = messages(20);
    assert!(!compressor.needs_compression(&view, &config));
    assert!(compressor.needs_compression(&messages(21), &config));
}

#[test]
fn test_truncation_keeps_leading_and_recent_messages() {
    let compressor = TruncationCompressor::new();
    let config = CompressionConfig::default();
    let view = messages(25);
    let result = compressor.compress(view, &config).unwrap();

    assert_eq!(result.messages.len(), 9);
    assert_eq!(result.messages_compressed, 16);
    assert_eq!(result.messages[0].content, "message number 0");
    assert_eq!(result.messages[1].content, "message number 17");
    assert_eq!(result.messages[8].content, "message number 24");
}

#[test]
fn test_truncation_leaves_short_views_whole() {
    let compressor = TruncationCompressor::new();
    let config = CompressionConfig::default();
    let result = compressor.compress(messages(9), &config).unwrap();
    assert_eq!(result.messages.len(), 9);
    assert_eq!(result.messages_compressed, 0);
}

#[test]
fn test_estimate_is_quarter_of_character_counts() {
    let view = vec![
        ChatMessage {
            role: "user".to_string(),
            content: "12345678".to_string(),
        },
        ChatMessage {
            role: "user".to_string(),
            content: "1234".to_string(),
        },
        ChatMessage {
            role: "user".to_string(),
            content: "123".to_string(),
        },
    ];
    assert_eq!(estimate_tokens(&view), 3);
}
