//! The prompt that asks before a stopped remote is started. Starting one
//! spawns a daemon on another machine, so only an unambiguous yes does it.
use crate::input::{KeyCode, TerminalKey};
use vstd::prelude::*;

verus! {

/// The "start this remote?" confirmation.
#[derive(Clone, PartialEq, Eq, Debug)]
pub struct RemoteStartPrompt {
    /// Which remote the prompt is about.
    pub remote: usize,
    pub name: String,
    /// Why it is stopped.
    pub status: String,
    /// Why a start failed; the prompt stays open so it can be read.
    pub error: Option<String>,
    /// A start is in flight: a second approval is refused.
    pub starting: bool,
}

/// What a key did to the prompt.
#[derive(Clone, Copy, PartialEq, Eq, Structural, Debug)]
pub enum RemoteStartKeyResult {
    Ignored,
    Start,
    Dismiss,
}

/// A key that says yes.
pub open spec fn says_yes(code: KeyCode) -> bool {
    code == KeyCode::Enter || code == KeyCode::Char('y') || code == KeyCode::Char('Y')
}

/// A key that says no; while a start is in flight only walking away is left.
pub open spec fn says_no(code: KeyCode, starting: bool) -> bool {
    code == KeyCode::Esc || code == KeyCode::Char('q') || (!starting && (code == KeyCode::Char('n')
        || code == KeyCode::Char('N')))
}

/// What the prompt makes of a key.
pub open spec fn start_answer(starting: bool, key: TerminalKey) -> RemoteStartKeyResult {
    if key.modifiers.control {
        RemoteStartKeyResult::Ignored
    } else if says_no(key.code, starting) {
        RemoteStartKeyResult::Dismiss
    } else if says_yes(key.code) && !starting {
        RemoteStartKeyResult::Start
    } else {
        RemoteStartKeyResult::Ignored
    }
}

/// Interprets a key. Every key that is not recognised is ignored.
pub fn remote_start_apply_key(prompt: &RemoteStartPrompt, key: TerminalKey) -> (r:
    RemoteStartKeyResult)
    ensures
        r == start_answer(prompt.starting, key),
{
    if key.modifiers.control {
        return RemoteStartKeyResult::Ignored;
    }
    if prompt.starting {
        return match key.code {
            KeyCode::Esc | KeyCode::Char('q') => RemoteStartKeyResult::Dismiss,
            _ => RemoteStartKeyResult::Ignored,
        };
    }
    match key.code {
        KeyCode::Enter | KeyCode::Char('y') | KeyCode::Char('Y') => RemoteStartKeyResult::Start,
        KeyCode::Esc | KeyCode::Char('n') | KeyCode::Char('N') | KeyCode::Char('q') =>
            RemoteStartKeyResult::Dismiss,
        _ => RemoteStartKeyResult::Ignored,
    }
}

/// While a start is in flight no key starts a second one.
pub proof fn a_start_in_flight_is_not_repeated(key: TerminalKey)
    ensures
        start_answer(true, key) != RemoteStartKeyResult::Start,
{
}

/// Only Enter, `y` and `Y`, without control held, start anything.
pub proof fn only_a_clear_yes_starts(starting: bool, key: TerminalKey)
    requires
        start_answer(starting, key) == RemoteStartKeyResult::Start,
    ensures
        says_yes(key.code),
        !key.modifiers.control,
        !starting,
{
}

} // verus!
