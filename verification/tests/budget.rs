use react_engine::types::TokenUsage;

#[test]
fn test_budget_add_accumulates() {
    let mut usage = TokenUsage::with_budget(100);
    usage.add(10, 5);
    usage.add(3, 2);
    assert_eq!(usage.prompt_tokens, 13);
    assert_eq!(usage.completion_tokens, 7);
    assert_eq!(usage.total_tokens, 20);
    assert_eq!(usage.budget_limit, 100);
}

#[test]
fn test_budget_exceeded_is_boundary_inclusive() {
    let mut usage = TokenUsage::with_budget(20);
    usage.add(10, 9);
    assert!(!usage.is_exceeded());
    usage.add(1, 0);
    assert_eq!(usage.total_tokens, 20);
    assert!(usage.is_exceeded());
    usage.add(0, 1);
    assert!(usage.is_exceeded());
}

#[test]
fn test_budget_remaining_floors_at_zero() {
    let mut usage = TokenUsage::with_budget(10);
    assert_eq!(usage.remaining(), 10);
    usage.add(4, 3);
    assert_eq!(usage.remaining(), 3);
    usage.add(5, 5);
    assert_eq!(usage.remaining(), 0);
}

#[test]
fn test_budget_add_saturating_clamps() {
    let mut usage = TokenUsage::with_budget(10);
    usage.add_saturating(u64::MAX, 1);
    assert_eq!(usage.prompt_tokens, u64::MAX);
    assert_eq!(usage.completion_tokens, 1);
    assert_eq!(usage.total_tokens, u64::MAX);
    assert!(usage.is_exceeded());
}
