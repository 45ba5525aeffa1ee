use vstd::prelude::*;
use vstd::string::StringExecFns;
use crate::scripts::{
    get_inject_message_js, inject_message_script, CHAT_URL, OFFLINE_STATE_JS, OFFLINE_URL,
    RESPONSE_WATCHER_JS,
};

verus! {

/// Wait after starting a new conversation before injecting.
pub const NEW_CHAT_SETTLE_MS: u64 = 500;

/// Wait after showing the main window before injecting.
pub const SHOW_SETTLE_MS: u64 = 100;

/// Wait after opening the local fallback page before switching it offline.
pub const OFFLINE_SETTLE_MS: u64 = 200;

/// One thing the host does to its windows, in order. A step on the main
/// window is skipped, with all that follow, where that window is missing.
#[derive(Clone, Debug, PartialEq, Eq)]
pub enum HostStep {
    HideLauncher,
    ShowMain,
    FocusMain,
    /// Load this address in the main window.
    Navigate(String),
    /// Wait this many milliseconds.
    Sleep(u64),
    /// Run this script in the main window; a failure ends the command.
    Eval(String),
    /// Run this script in the main window; a failure is ignored.
    EvalBestEffort(String),
}

/// A host step with its text as characters.
pub enum HostStepModel {
    HideLauncher,
    ShowMain,
    FocusMain,
    Navigate(Seq<char>),
    Sleep(u64),
    Eval(Seq<char>),
    EvalBestEffort(Seq<char>),
}

impl View for HostStep {
    type V = HostStepModel;

    open spec fn view(&self) -> HostStepModel {
        match self {
            HostStep::HideLauncher => HostStepModel::HideLauncher,
            HostStep::ShowMain => HostStepModel::ShowMain,
            HostStep::FocusMain => HostStepModel::FocusMain,
            HostStep::Navigate(u) => HostStepModel::Navigate(u@),
            HostStep::Sleep(ms) => HostStepModel::Sleep(*ms),
            HostStep::Eval(s) => HostStepModel::Eval(s@),
            HostStep::EvalBestEffort(s) => HostStepModel::EvalBestEffort(s@),
        }
    }
}

pub open spec fn steps_view(steps: Seq<HostStep>) -> Seq<HostStepModel> {
    steps.map_values(|s: HostStep| s@)
}

/// Submitting a message: hide the launcher, bring up the main window, start
/// a new conversation where asked, let the page settle, then run the
/// injection script and arm the completion watcher.
pub open spec fn submit_plan(message: Seq<char>, new_chat: bool) -> Seq<HostStepModel> {
    let head = seq![HostStepModel::HideLauncher, HostStepModel::ShowMain, HostStepModel::FocusMain];
    let settle = if new_chat {
        seq![HostStepModel::Navigate(CHAT_URL@), HostStepModel::Sleep(NEW_CHAT_SETTLE_MS)]
    } else {
        seq![HostStepModel::Sleep(SHOW_SETTLE_MS)]
    };
    head + settle + seq![
        HostStepModel::Eval(inject_message_script(message)),
        HostStepModel::Eval(RESPONSE_WATCHER_JS@),
    ]
}

/// The steps of the submit command.
pub fn submit_message(message: &str, new_chat: bool) -> (r: Vec<HostStep>)
    ensures
        steps_view(r@) == submit_plan(message@, new_chat),
{
    let mut steps: Vec<HostStep> = Vec::new();
    steps.push(HostStep::HideLauncher);
    steps.push(HostStep::ShowMain);
    steps.push(HostStep::FocusMain);
    if new_chat {
        steps.push(HostStep::Navigate(String::from_str(CHAT_URL)));
        steps.push(HostStep::Sleep(NEW_CHAT_SETTLE_MS));
    } else {
        steps.push(HostStep::Sleep(SHOW_SETTLE_MS));
    }
    steps.push(HostStep::Eval(get_inject_message_js(message)));
    steps.push(HostStep::Eval(String::from_str(RESPONSE_WATCHER_JS)));
    assert(steps_view(steps@) =~= submit_plan(message@, new_chat));
    steps
}

/// The steps of the command that opens the chat page.
pub fn navigate_to_chat() -> (r: Vec<HostStep>)
    ensures
        steps_view(r@) == seq![HostStepModel::Navigate(CHAT_URL@)],
{
    let mut steps: Vec<HostStep> = Vec::new();
    steps.push(HostStep::Navigate(String::from_str(CHAT_URL)));
    assert(steps_view(steps@) =~= seq![HostStepModel::Navigate(CHAT_URL@)]);
    steps
}

/// The steps of the command that opens the local fallback page and shows it
/// in its offline state.
pub fn navigate_to_offline() -> (r: Vec<HostStep>)
    ensures
        steps_view(r@) == seq![
            HostStepModel::Navigate(OFFLINE_URL@),
            HostStepModel::Sleep(OFFLINE_SETTLE_MS),
            HostStepModel::EvalBestEffort(OFFLINE_STATE_JS@),
        ],
{
    let mut steps: Vec<HostStep> = Vec::new();
    steps.push(HostStep::Navigate(String::from_str(OFFLINE_URL)));
    steps.push(HostStep::Sleep(OFFLINE_SETTLE_MS));
    steps.push(HostStep::EvalBestEffort(String::from_str(OFFLINE_STATE_JS)));
    assert(steps_view(steps@) =~= seq![
        HostStepModel::Navigate(OFFLINE_URL@),
        HostStepModel::Sleep(OFFLINE_SETTLE_MS),
        HostStepModel::EvalBestEffort(OFFLINE_STATE_JS@),
    ]);
    steps
}

/// Where a session stands. `Complete` and `Failed` end it.
#[derive(Clone, Debug, PartialEq, Eq)]
pub enum SessionPhase {
    Idle,
    /// A new conversation was asked for: the page is loading.
    Navigating,
    /// The injection script is looking for the input element.
    Injecting,
    /// The message was submitted and the completion watcher is armed.
    Watching,
    Complete,
    /// The injection failed, for the reason given.
    Failed(String),
}

/// The host-side controller. Each submission gets a fresh token, and an
/// event counts only when it carries the token of the latest submission, so
/// a late event of an earlier session changes nothing.
#[derive(Clone, Debug)]
pub struct SessionController {
    /// Token of the latest session; 0 before the first.
    pub current: u64,
    pub phase: SessionPhase,
}

impl SessionController {
    pub open spec fn spec_submit(self, new_chat: bool) -> SessionController {
        SessionController {
            current: (self.current + 1) as u64,
            phase: if new_chat { SessionPhase::Navigating } else { SessionPhase::Injecting },
        }
    }

    pub open spec fn spec_navigation_settled(self, token: u64) -> SessionController {
        if token == self.current && self.phase == SessionPhase::Navigating {
            SessionController { phase: SessionPhase::Injecting, ..self }
        } else {
            self
        }
    }

    pub open spec fn spec_inject_result(self, token: u64, outcome: Result<(), String>) -> SessionController {
        if token == self.current && self.phase == SessionPhase::Injecting {
            SessionController {
                phase: match outcome {
                    Ok(()) => SessionPhase::Watching,
                    Err(reason) => SessionPhase::Failed(reason),
                },
                ..self
            }
        } else {
            self
        }
    }

    pub open spec fn spec_response_complete(self, token: u64) -> SessionController {
        if token == self.current && self.phase == SessionPhase::Watching {
            SessionController { phase: SessionPhase::Complete, ..self }
        } else {
            self
        }
    }

    /// A controller with no session yet.
    pub fn new() -> (r: SessionController)
        ensures
            r.current == 0,
            r.phase == SessionPhase::Idle,
    {
        SessionController { current: 0, phase: SessionPhase::Idle }
    }

    /// Starts a session, pre-empting any in flight, and returns its token.
    pub fn submit(&mut self, new_chat: bool) -> (token: u64)
        requires
            old(self).current < u64::MAX,
        ensures
            *final(self) == old(self).spec_submit(new_chat),
            token == final(self).current,
            token > old(self).current,
    {
        self.current = self.current + 1;
        self.phase = if new_chat { SessionPhase::Navigating } else { SessionPhase::Injecting };
        self.current
    }

    /// The page of a new conversation had time to load. Returns whether the
    /// event was taken.
    pub fn navigation_settled(&mut self, token: u64) -> (taken: bool)
        ensures
            *final(self) == old(self).spec_navigation_settled(token),
            taken == (token == old(self).current && old(self).phase == SessionPhase::Navigating),
    {
        if token == self.current && matches!(self.phase, SessionPhase::Navigating) {
            self.phase = SessionPhase::Injecting;
            true
        } else {
            false
        }
    }

    /// The injection script reported its result. Success arms the watcher in
    /// the same step as submission.
    pub fn inject_result(&mut self, token: u64, outcome: Result<(), String>) -> (taken: bool)
        ensures
            *final(self) == old(self).spec_inject_result(token, outcome),
            taken == (token == old(self).current && old(self).phase == SessionPhase::Injecting),
    {
        if token == self.current && matches!(self.phase, SessionPhase::Injecting) {
            self.phase = match outcome {
                Ok(()) => SessionPhase::Watching,
                Err(reason) => SessionPhase::Failed(reason),
            };
            true
        } else {
            false
        }
    }

    /// The completion watcher reported the end of the response.
    pub fn response_complete(&mut self, token: u64) -> (taken: bool)
        ensures
            *final(self) == old(self).spec_response_complete(token),
            taken == (token == old(self).current && old(self).phase == SessionPhase::Watching),
    {
        if token == self.current && matches!(self.phase, SessionPhase::Watching) {
            self.phase = SessionPhase::Complete;
            true
        } else {
            false
        }
    }
}

/// Two submissions back to back: a late result or completion of the first
/// changes nothing for the second, and the second still runs to its own
/// completion once its injection succeeds and its watcher fires.
pub proof fn lemma_latest_session_wins(
    c: SessionController,
    first_new_chat: bool,
    outcome: Result<(), String>,
)
    requires
        c.current < u64::MAX - 1,
    ensures
        ({
            let first = c.spec_submit(first_new_chat);
            let second = first.spec_submit(false);
            &&& second.spec_inject_result(first.current, outcome) == second
            &&& second.spec_response_complete(first.current) == second
            &&& second.spec_inject_result(second.current, Ok(())).spec_response_complete(second.current).phase
                == SessionPhase::Complete
        }),
{
}

} // verus!
