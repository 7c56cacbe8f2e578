use searchmoji::{
    CopyEffect, CopyOutcome, HideTimer, Notifier, Record, Session, COPIED_MESSAGE, HIDE_DELAY_MS,
};

fn rec(symbol: &str, name: &str, keywords: &[&str]) -> Record {
    Record::new(
        symbol.to_string(),
        name.to_string(),
        keywords.iter().map(|k| k.to_string()).collect(),
    )
}

#[test]
fn notifier_starts_hidden() {
    let n = Notifier::new();
    assert!(!n.is_visible());
    assert_eq!(n.message(), None);
    assert_eq!(n.epoch(), 0);
}

#[test]
fn show_then_own_timer_hides() {
    let mut n = Notifier::new();
    let t = n.show("A".to_string());
    assert_eq!(t, HideTimer { epoch: 1, delay_ms: 2000 });
    assert_eq!(n.message(), Some(&"A".to_string()));
    n.timer_fired(t.epoch);
    assert!(!n.is_visible());
    assert_eq!(n.epoch(), 1);
}

#[test]
fn stale_timer_does_not_hide_newer_message() {
    let mut n = Notifier::new();
    let ta = n.show("A".to_string());
    let tb = n.show("B".to_string());
    assert_eq!(tb.epoch, ta.epoch + 1);
    n.timer_fired(ta.epoch);
    assert_eq!(n.message(), Some(&"B".to_string()));
    n.timer_fired(tb.epoch);
    assert_eq!(n.message(), None);
}

#[test]
fn only_the_latest_message_is_visible() {
    let mut n = Notifier::new();
    n.show("A".to_string());
    n.show("B".to_string());
    n.show("C".to_string());
    assert_eq!(n.message(), Some(&"C".to_string()));
    assert_eq!(n.epoch(), 3);
}

#[test]
fn timer_when_hidden_changes_nothing() {
    let mut n = Notifier::new();
    let t = n.show("A".to_string());
    n.timer_fired(t.epoch);
    n.timer_fired(t.epoch);
    assert!(!n.is_visible());
    assert_eq!(n.epoch(), 1);
}

#[test]
fn copy_success_shows_then_hides() {
    let mut s = Session::new();
    let effect = s.copy_finished(CopyOutcome::Copied);
    let timer = match effect {
        CopyEffect::ScheduleHide(t) => t,
        other => panic!("unexpected effect {:?}", other),
    };
    assert_eq!(timer.delay_ms, HIDE_DELAY_MS);
    assert_eq!(timer.delay_ms, 2000);
    assert_eq!(s.notice().message(), Some(&"✅ Copied to clipboard!".to_string()));
    assert_eq!(COPIED_MESSAGE, "✅ Copied to clipboard!");
    s.timer_fired(timer.epoch);
    assert!(!s.notice().is_visible());
}

#[test]
fn copy_failure_stays_hidden() {
    let mut s = Session::new();
    let effect = s.copy_finished(CopyOutcome::Failed("denied".to_string()));
    assert_eq!(effect, CopyEffect::Report("denied".to_string()));
    assert!(!s.notice().is_visible());
    assert_eq!(s.notice().epoch(), 0);
}

#[test]
fn rapid_copies_keep_latest_confirmation() {
    let mut s = Session::new();
    let first = s.copy_finished(CopyOutcome::Copied);
    let second = s.copy_finished(CopyOutcome::Copied);
    let (CopyEffect::ScheduleHide(t1), CopyEffect::ScheduleHide(t2)) = (first, second) else {
        panic!("both copies should schedule a hide");
    };
    s.timer_fired(t1.epoch);
    assert!(s.notice().is_visible());
    s.timer_fired(t2.epoch);
    assert!(!s.notice().is_visible());
}

#[test]
fn session_starts_empty() {
    let s = Session::new();
    assert!(s.records().is_empty());
    assert_eq!(s.query(), "");
    assert!(s.visible().is_empty());
}

#[test]
fn load_then_query_filters() {
    let mut s = Session::new();
    let c = vec![rec("😀", "grinning", &["happy"]), rec("🐶", "dog", &["pet"])];
    s.load_finished(Some(c.clone()));
    assert_eq!(s.visible(), c);
    s.set_query("PET".to_string());
    assert_eq!(s.query(), "PET");
    assert_eq!(s.visible(), vec![c[1].clone()]);
}

#[test]
fn failed_load_leaves_collection_empty() {
    let mut s = Session::new();
    s.load_finished(None);
    assert!(s.records().is_empty());
    s.set_query("dog".to_string());
    assert!(s.visible().is_empty());
}
