use key_tap::capture::{Action, Outcome, ValidationError};
use key_tap::ipc::outcome_text;

fn seq_of(out: &Outcome) -> Option<String> {
    match out {
        Outcome::Sequence(keys) => Some(keys.iter().collect()),
        _ => None,
    }
}

#[test]
fn test_new_is_idle() {
    let a = Action::new();
    assert!(a.begin.is_none());
    assert!(a.last_key_time.is_none());
    assert_eq!(a.keys.len(), 0);
    assert_eq!(a.keys_len, 0);
    assert_eq!(a.interval, 0);
}

#[test]
fn test_begin_then_immediate_drain_incomplete() {
    let mut a = Action::new();
    assert!(a.init_action(1000, 3, 0).is_ok());
    assert!(matches!(a.get_key_seq(0), Outcome::Incomplete));
    // still incomplete on any later poll while no tap has arrived
    assert!(matches!(a.get_key_seq(900), Outcome::Incomplete));
    assert!(matches!(a.get_key_seq(90_000), Outcome::Incomplete));
}

#[test]
fn test_begin_validation_boundaries() {
    let mut a = Action::new();
    assert_eq!(a.init_action(499, 3, 0), Err(ValidationError::DurationOutOfRange));
    assert_eq!(a.init_action(10_001, 3, 0), Err(ValidationError::DurationOutOfRange));
    assert_eq!(a.init_action(-1, 3, 0), Err(ValidationError::DurationOutOfRange));
    assert_eq!(a.init_action(1000, 0, 0), Err(ValidationError::TargetCountOutOfRange));
    assert_eq!(a.init_action(1000, 256, 0), Err(ValidationError::TargetCountOutOfRange));
    assert_eq!(a.init_action(1000, -5, 0), Err(ValidationError::TargetCountOutOfRange));
    assert!(a.init_action(500, 1, 0).is_ok());
    assert!(a.init_action(10_000, 255, 0).is_ok());
}

#[test]
fn test_invalid_begin_preserves_armed_window() {
    let mut a = Action::new();
    assert!(a.init_action(1000, 3, 0).is_ok());
    a.append(&vec!['a'], 10);
    // both rejections leave the armed window exactly as it was
    assert!(a.init_action(100, 3, 20).is_err());
    assert!(a.init_action(1000, 300, 20).is_err());
    assert_eq!(a.begin, Some(0));
    assert_eq!(a.keys, vec!['a']);
    a.append(&vec!['a'], 30);
    a.append(&vec!['a'], 40);
    let out = a.get_key_seq(50);
    assert_eq!(seq_of(&out).as_deref(), Some("aaa"));
}

#[test]
fn test_rearming_discards_previous_window() {
    let mut a = Action::new();
    assert!(a.init_action(1000, 3, 0).is_ok());
    a.append(&vec!['a'], 10);
    // the newest begin wins: buffer cleared, parameters replaced
    assert!(a.init_action(2000, 2, 20).is_ok());
    assert_eq!(a.keys.len(), 0);
    assert_eq!(a.begin, Some(20));
    assert_eq!(a.keys_len, 2);
    assert_eq!(a.interval, 2000);
    a.append(&vec!['b'], 30);
    a.append(&vec!['b'], 40);
    assert_eq!(seq_of(&a.get_key_seq(50)).as_deref(), Some("bb"));
}

#[test]
fn test_exact_count_yields_sequence() {
    let mut a = Action::new();
    assert!(a.init_action(1000, 3, 0).is_ok());
    a.append(&vec!['a'], 100);
    a.append(&vec!['a'], 200);
    a.append(&vec!['a'], 300);
    let out = a.get_key_seq(350);
    assert_eq!(seq_of(&out).as_deref(), Some("aaa"));
    assert_eq!(outcome_text(&out), "aaa");
    // finalization cleared the window
    assert!(a.begin.is_none());
    assert_eq!(a.keys.len(), 0);
}

#[test]
fn test_divergent_keys_escape() {
    let mut a = Action::new();
    assert!(a.init_action(1000, 3, 0).is_ok());
    a.append(&vec!['a'], 100);
    a.append(&vec!['b'], 200);
    let out = a.get_key_seq(300);
    assert!(matches!(out, Outcome::Escaped));
    assert_eq!(outcome_text(&out), "#escape");
    // the window was cleared: a later poll without a new begin is incomplete
    assert!(a.begin.is_none());
    assert_eq!(a.keys.len(), 0);
    assert!(matches!(a.get_key_seq(400), Outcome::Incomplete));
}

#[test]
fn test_divergent_keys_escape_either_order() {
    let mut a = Action::new();
    assert!(a.init_action(1000, 3, 0).is_ok());
    a.append(&vec!['b'], 100);
    a.append(&vec!['a'], 200);
    assert!(matches!(a.get_key_seq(300), Outcome::Escaped));
}

#[test]
fn test_early_finalize_after_inactivity() {
    let mut a = Action::new();
    assert!(a.init_action(2000, 5, 0).is_ok());
    a.append(&vec!['x'], 100);
    // 400 ms without a new tap: finalize early with what arrived
    let out = a.get_key_seq(500);
    assert_eq!(seq_of(&out).as_deref(), Some("x"));
    assert_eq!(outcome_text(&out), "x");
}

#[test]
fn test_active_poll_incomplete_keeps_buffer() {
    let mut a = Action::new();
    assert!(a.init_action(2000, 5, 0).is_ok());
    a.append(&vec!['x'], 100);
    // polled within 400 ms of the last tap: still accumulating
    assert!(matches!(a.get_key_seq(300), Outcome::Incomplete));
    assert_eq!(a.keys, vec!['x']);
    assert_eq!(a.begin, Some(0));
    a.append(&vec!['x'], 350);
    assert_eq!(seq_of(&a.get_key_seq(760)).as_deref(), Some("xx"));
}

#[test]
fn test_escape_only_buffer_escapes() {
    let mut a = Action::new();
    assert!(a.init_action(1000, 2, 0).is_ok());
    a.append(&vec!['\u{1b}'], 100);
    a.append(&vec!['\u{1b}'], 200);
    // count matches exactly and all characters are identical, yet the
    // escape control character cancels the capture
    let out = a.get_key_seq(300);
    assert!(matches!(out, Outcome::Escaped));
    assert_eq!(outcome_text(&out), "#escape");
    assert!(a.begin.is_none());
    assert_eq!(a.keys.len(), 0);
}

#[test]
fn test_append_without_window_ignored() {
    let mut a = Action::new();
    a.append(&vec!['a'], 10);
    assert!(a.begin.is_none());
    assert_eq!(a.keys.len(), 0);
    assert!(a.last_key_time.is_none());
}

#[test]
fn test_append_after_expiry_dropped() {
    let mut a = Action::new();
    assert!(a.init_action(500, 3, 0).is_ok());
    a.append(&vec!['a'], 600);
    assert_eq!(a.keys.len(), 0);
    assert!(a.last_key_time.is_none());
    // expiry boundary: exactly at the full duration the tap still counts
    a.append(&vec!['a'], 500);
    assert_eq!(a.keys, vec!['a']);
}

#[test]
fn test_drain_idempotent_while_incomplete() {
    let mut a = Action::new();
    assert!(a.init_action(2000, 5, 0).is_ok());
    a.append(&vec!['k'], 100);
    for poll in [150, 200, 250, 300] {
        assert!(matches!(a.get_key_seq(poll), Outcome::Incomplete));
        assert_eq!(a.keys, vec!['k']);
        assert_eq!(a.begin, Some(0));
        assert_eq!(a.last_key_time, Some(100));
        assert_eq!(a.keys_len, 5);
        assert_eq!(a.interval, 2000);
    }
}

#[test]
fn test_expired_window_stays_incomplete() {
    let mut a = Action::new();
    assert!(a.init_action(500, 3, 0).is_ok());
    a.append(&vec!['a'], 100);
    // past the full duration the window answers Incomplete on every poll and
    // is never cleared: only a fresh begin leaves this state
    assert!(matches!(a.get_key_seq(700), Outcome::Incomplete));
    assert!(matches!(a.get_key_seq(50_000), Outcome::Incomplete));
    assert_eq!(a.keys, vec!['a']);
    assert_eq!(a.begin, Some(0));
    assert!(a.init_action(1000, 1, 60_000).is_ok());
    a.append(&vec!['z'], 60_010);
    assert_eq!(seq_of(&a.get_key_seq(60_020)).as_deref(), Some("z"));
}

#[test]
fn test_overlong_buffer_is_incomplete() {
    let mut a = Action::new();
    assert!(a.init_action(1000, 1, 0).is_ok());
    // one event may carry several characters; more than the target is
    // treated defensively as not complete
    a.append(&vec!['a', 'a'], 100);
    assert!(matches!(a.get_key_seq(600), Outcome::Incomplete));
    assert_eq!(a.keys, vec!['a', 'a']);
}

#[test]
fn test_multi_character_event_order_kept() {
    let mut a = Action::new();
    assert!(a.init_action(1000, 4, 0).is_ok());
    a.append(&vec!['a', 'a'], 100);
    a.append(&vec!['a', 'a'], 200);
    assert_eq!(seq_of(&a.get_key_seq(300)).as_deref(), Some("aaaa"));
}
