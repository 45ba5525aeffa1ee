use le_chat::connectivity::{contains_text, load_failed_with_title, online_action, page_load_failed, OnlineAction, PageSnapshot};
use le_chat::injection::{
    submit_action, InjectionAttempt, InjectionError, InjectionPhase, InjectionStep, SendControl,
    SubmitAction, TargetKind, INJECT_MAX_RETRIES, INJECT_RETRY_DELAY_MS, INJECT_TOTAL_TIMEOUT_MS,
};
use le_chat::scripts::{get_inject_message_js, get_response_watcher_js, CHAT_URL, OFFLINE_STATE_JS, OFFLINE_URL};
use le_chat::session::{
    navigate_to_chat, navigate_to_offline, submit_message, HostStep, SessionController, SessionPhase,
};
use le_chat::settings::{load_settings, should_notify, AppSettings};
use le_chat::watcher::{CompletionWatcher, WatchOutcome, WATCH_MAX_CHECKS};

fn run_watcher(ticks: &[bool]) -> usize {
    let mut w = CompletionWatcher::new();
    assert!(w.arm());
    ticks.iter().filter(|&&t| w.poll(t) == WatchOutcome::Complete).count()
}

#[test]
fn watcher_fires_once_on_falling_edge() {
    assert_eq!(run_watcher(&[false, true, true, false, true, false]), 1);
    let mut w = CompletionWatcher::new();
    w.arm();
    assert_eq!(w.poll(true), WatchOutcome::Continue);
    assert_eq!(w.poll(false), WatchOutcome::Complete);
    assert!(!w.armed);
    assert_eq!(w.poll(false), WatchOutcome::Idle);
}

#[test]
fn watcher_silent_without_streaming() {
    assert_eq!(run_watcher(&[false, false, false, false]), 0);
    assert_eq!(run_watcher(&[true, true, true]), 0);
    assert_eq!(run_watcher(&[]), 0);
}

#[test]
fn watcher_rearm_is_no_op() {
    let mut w = CompletionWatcher::new();
    assert!(w.arm());
    w.poll(true);
    assert!(!w.arm());
    assert!(w.was_streaming);
    assert_eq!(w.checks, 1);
}

#[test]
fn watcher_expires_after_cap() {
    let mut w = CompletionWatcher::new();
    w.arm();
    for _ in 0..WATCH_MAX_CHECKS {
        assert_eq!(w.poll(false), WatchOutcome::Continue);
    }
    assert_eq!(w.poll(true), WatchOutcome::Expired);
    assert!(!w.armed);
    assert!(w.arm());
}

#[test]
fn injection_times_out_before_retry_budget() {
    // 10 retries of 1000 ms would take longer than the 2500 ms timeout.
    let mut a = InjectionAttempt::new(10, 1000, 2500);
    let mut now = 0u64;
    let mut end = None;
    for _ in 0..20 {
        match a.tick(now, None, None) {
            InjectionStep::Retry { at_ms } => {
                assert!(at_ms <= 2500);
                now = at_ms;
            }
            step => {
                end = Some((now, step));
                break;
            }
        }
    }
    assert_eq!(end, Some((2500, InjectionStep::Fail(InjectionError::TimedOut))));
    assert_eq!(a.tick(3000, Some(TargetKind::ValueField), None), InjectionStep::Stopped);
}

#[test]
fn injection_exhausts_retries() {
    let mut a = InjectionAttempt::new(INJECT_MAX_RETRIES, INJECT_RETRY_DELAY_MS, INJECT_TOTAL_TIMEOUT_MS);
    let mut now = 0u64;
    let mut attempts = 0u32;
    loop {
        attempts += 1;
        match a.tick(now, None, None) {
            InjectionStep::Retry { at_ms } => {
                assert_eq!(at_ms, now + 300);
                now = at_ms;
            }
            step => {
                assert_eq!(step, InjectionStep::Fail(InjectionError::ElementNotFound));
                break;
            }
        }
    }
    assert_eq!(attempts, 15);
    assert_eq!(now, 14 * 300);
    assert_eq!(a.phase, InjectionPhase::Done);
}

#[test]
fn injection_writes_then_submits() {
    let mut a = InjectionAttempt::new(15, 300, 8000);
    assert_eq!(a.tick(0, None, None), InjectionStep::Retry { at_ms: 300 });
    assert_eq!(
        a.tick(300, Some(TargetKind::Editable), None),
        InjectionStep::Write { kind: TargetKind::Editable, submit_at_ms: 500 }
    );
    assert_eq!(
        a.tick(500, None, Some(SendControl { disabled: false })),
        InjectionStep::Submit(SubmitAction::ClickSend)
    );
    assert_eq!(a.tick(600, None, None), InjectionStep::Stopped);
}

#[test]
fn injection_write_failure_reported() {
    let mut a = InjectionAttempt::new(3, 100, 1000);
    a.tick(0, Some(TargetKind::ValueField), None);
    assert_eq!(a.write_failed(), InjectionStep::Fail(InjectionError::InjectionFailed));
    assert_eq!(a.write_failed(), InjectionStep::Stopped);
}

#[test]
fn injection_timeout_during_settle() {
    let mut a = InjectionAttempt::new(3, 100, 1000);
    assert_eq!(
        a.tick(900, Some(TargetKind::ValueField), None),
        InjectionStep::Write { kind: TargetKind::ValueField, submit_at_ms: 1000 }
    );
    assert_eq!(a.tick(1000, None, None), InjectionStep::Fail(InjectionError::TimedOut));
}

#[test]
fn submission_falls_back_to_enter() {
    assert_eq!(submit_action(Some(SendControl { disabled: false })), SubmitAction::ClickSend);
    assert_eq!(submit_action(Some(SendControl { disabled: true })), SubmitAction::PressEnter);
    assert_eq!(submit_action(None), SubmitAction::PressEnter);
}

#[test]
fn submit_plan_for_new_chat() {
    let steps = submit_message("hi", true);
    assert_eq!(
        steps,
        vec![
            HostStep::HideLauncher,
            HostStep::ShowMain,
            HostStep::FocusMain,
            HostStep::Navigate(CHAT_URL.to_string()),
            HostStep::Sleep(500),
            HostStep::Eval(get_inject_message_js("hi")),
            HostStep::Eval(get_response_watcher_js()),
        ]
    );
}

#[test]
fn submit_plan_for_current_chat() {
    let steps = submit_message("hi", false);
    assert_eq!(steps.len(), 6);
    assert_eq!(steps[3], HostStep::Sleep(100));
    assert_eq!(steps[4], HostStep::Eval(get_inject_message_js("hi")));
}

#[test]
fn navigation_plans() {
    assert_eq!(navigate_to_chat(), vec![HostStep::Navigate(CHAT_URL.to_string())]);
    assert_eq!(
        navigate_to_offline(),
        vec![
            HostStep::Navigate(OFFLINE_URL.to_string()),
            HostStep::Sleep(200),
            HostStep::EvalBestEffort(OFFLINE_STATE_JS.to_string()),
        ]
    );
}

#[test]
fn back_to_back_sessions_ignore_stale_events() {
    let mut c = SessionController::new();
    let first = c.submit(true);
    let second = c.submit(false);
    assert!(second > first);
    assert!(!c.inject_result(first, Err("timed out".to_string())));
    assert_eq!(c.phase, SessionPhase::Injecting);
    assert!(c.inject_result(second, Ok(())));
    assert_eq!(c.phase, SessionPhase::Watching);
    assert!(!c.response_complete(first));
    assert!(c.response_complete(second));
    assert_eq!(c.phase, SessionPhase::Complete);
}

#[test]
fn session_navigation_then_failure() {
    let mut c = SessionController::new();
    let t = c.submit(true);
    assert_eq!(c.phase, SessionPhase::Navigating);
    assert!(!c.inject_result(t, Ok(())));
    assert!(c.navigation_settled(t));
    assert!(c.inject_result(t, Err("Could not find chat input".to_string())));
    assert_eq!(c.phase, SessionPhase::Failed("Could not find chat input".to_string()));
    assert!(!c.response_complete(t));
}

#[test]
fn settings_load_cases() {
    let saved = AppSettings { new_chat_default: false, notifications_enabled: true };
    assert_eq!(load_settings(Some(Some(saved))), saved);
    assert_eq!(load_settings(None), AppSettings { new_chat_default: true, notifications_enabled: true });
    assert_eq!(load_settings(Some(None)), AppSettings::default());
}

#[test]
fn notification_policy() {
    let off = AppSettings { new_chat_default: true, notifications_enabled: false };
    assert!(should_notify(None, None));
    assert!(should_notify(Some(AppSettings::default()), Some(false)));
    assert!(!should_notify(Some(AppSettings::default()), Some(true)));
    assert!(!should_notify(Some(off), Some(false)));
}

fn page(online: bool, title: &str, body: Option<usize>, sidebar: bool, href: &str) -> PageSnapshot {
    PageSnapshot {
        online,
        title: title.to_string(),
        body_text_len: body,
        has_sidebar: sidebar,
        href: href.to_string(),
    }
}

#[test]
fn load_check_cases() {
    let url = "https://chat.mistral.ai/chat";
    assert!(!page_load_failed(&page(true, "Le Chat", Some(500), true, url)));
    assert!(page_load_failed(&page(false, "Le Chat", Some(500), true, url)));
    assert!(page_load_failed(&page(true, "", Some(500), true, url)));
    assert!(page_load_failed(&page(true, "Page Not Found", Some(500), true, url)));
    assert!(page_load_failed(&page(true, "Server ERROR", Some(500), true, url)));
    assert!(page_load_failed(&page(true, "Le Chat", Some(10), false, url)));
    assert!(!page_load_failed(&page(true, "Le Chat", Some(10), true, url)));
    assert!(!page_load_failed(&page(true, "Le Chat", None, false, url)));
    assert!(!page_load_failed(&page(false, "", Some(0), false, "tauri://localhost/index.html")));
}

#[test]
fn load_check_given_lower_title() {
    let p = page(true, "Server ERROR", Some(500), true, "https://chat.mistral.ai/chat");
    assert!(!load_failed_with_title(&p, "Server ERROR"));
    assert!(load_failed_with_title(&p, "server error"));
}

#[test]
fn online_action_cases() {
    assert_eq!(online_action("https://chat.mistral.ai/chat/abc"), OnlineAction::Reload);
    assert_eq!(
        online_action("tauri://localhost/index.html"),
        OnlineAction::Navigate("https://chat.mistral.ai/chat".to_string())
    );
}

#[test]
fn contains_text_cases() {
    assert!(contains_text("abc", ""));
    assert!(contains_text("", ""));
    assert!(!contains_text("", "a"));
    assert!(contains_text("not found here", "not found"));
    assert!(!contains_text("not foun", "not found"));
    assert!(contains_text("ééx", "éx"));
}
