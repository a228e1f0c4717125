use frame_pacer::fence::FrameFence;

#[test]
fn fence_starts_at_zero() {
    let fence = FrameFence::new();
    assert_eq!(fence.submitted(), 0);
    assert_eq!(fence.completed(), 0);
    assert!(fence.is_idle());
}

#[test]
fn advance_returns_successive_values() {
    let mut fence = FrameFence::new();
    assert_eq!(fence.advance(), 1);
    assert_eq!(fence.advance(), 2);
    assert_eq!(fence.advance(), 3);
    assert_eq!(fence.submitted(), 3);
    assert_eq!(fence.completed(), 0);
    assert!(!fence.is_idle());
}

#[test]
fn observe_moves_completed_forward() {
    let mut fence = FrameFence::new();
    fence.advance();
    fence.advance();
    fence.observe_completed(1);
    assert_eq!(fence.completed(), 1);
    assert!(fence.is_complete(1));
    assert!(!fence.is_complete(2));
    fence.observe_completed(2);
    assert_eq!(fence.completed(), 2);
    assert!(fence.is_idle());
}

#[test]
fn observe_ignores_backwards_report() {
    let mut fence = FrameFence::new();
    fence.advance();
    fence.advance();
    fence.observe_completed(2);
    fence.observe_completed(1);
    assert_eq!(fence.completed(), 2);
}

#[test]
fn observe_ignores_report_beyond_submitted() {
    let mut fence = FrameFence::new();
    fence.advance();
    fence.observe_completed(5);
    assert_eq!(fence.completed(), 0);
    assert_eq!(fence.submitted(), 1);
}
