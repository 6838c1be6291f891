//! The state machine of the interactive session loop.
//!
//! The loop cycles between repository selection, backend selection, mode
//! execution and a post-action menu, and terminates only on an explicit exit.
//! The decisions are pure: `step` maps the current state and the event the
//! surrounding loop observed (a prompt's answer, a repository that opened or
//! did not, a mode execution that finished) to the next state, and
//! `action_for` says what the surrounding loop must do in each state. The
//! loop itself — prompting, opening repositories, running modes — lives with
//! the caller.
//!
//! A rejected repository path re-prompts without limit. A cancelled prompt
//! steps back one state: at the initial repository prompt it ends the
//! session, at a prompt reached from the post-action menu it returns to that
//! menu, at the mode prompt it falls back to the menu, and at the menu it
//! falls back to the mode prompt.

use vstd::prelude::*;

verus! {

/// One of the supported analysis actions; each mode, when executed, invokes
/// exactly one of the session's three analysis operations.
#[derive(Debug, Clone, Copy, PartialEq, Eq, Structural)]
pub enum Mode {
    CommitMessage,
    ExplainChanges,
    ContributorSummary,
}

/// The operator's answer to the post-action menu.
#[derive(Debug, Clone, Copy, PartialEq, Eq, Structural)]
pub enum MenuChoice {
    Continue,
    SwitchBackend,
    SwitchRepository,
    Exit,
}

/// A state of the interactive session loop. `initial` distinguishes the
/// selections of the start-up sequence from those reached from the
/// post-action menu: a repository chosen at start-up leads on to backend
/// selection, a replacement repository leads straight back to `Ready`.
#[derive(Debug, Clone, Copy, PartialEq, Eq, Structural)]
pub enum LoopState {
    SelectRepository { initial: bool },
    SelectBackend { initial: bool },
    Ready,
    Executing { mode: Mode },
    PostAction,
    Done,
}

/// What the surrounding loop observed while performing the current state's
/// action.
#[derive(Debug, Clone, Copy, PartialEq, Eq, Structural)]
pub enum LoopEvent {
    RepositoryOpened,
    RepositoryRejected,
    BackendChosen,
    ModeChosen { mode: Mode },
    ExecutionFinished,
    MenuChosen { choice: MenuChoice },
    PromptCancelled,
}

/// What the surrounding loop must do in a state.
#[derive(Debug, Clone, Copy, PartialEq, Eq, Structural)]
pub enum LoopAction {
    PromptRepository,
    PromptBackend,
    PromptMode,
    RunMode { mode: Mode },
    PromptMenu,
    Stop,
}

/// The transition table of the loop. An event that does not belong to the
/// state leaves the state unchanged.
pub open spec fn spec_step(s: LoopState, e: LoopEvent) -> LoopState {
    match (s, e) {
        (LoopState::SelectRepository { initial: true }, LoopEvent::RepositoryOpened) => (
        LoopState::SelectBackend { initial: true }),
        (LoopState::SelectRepository { initial: false }, LoopEvent::RepositoryOpened) => LoopState::Ready,
        (LoopState::SelectRepository { initial }, LoopEvent::RepositoryRejected) => (
        LoopState::SelectRepository { initial }),
        (LoopState::SelectRepository { initial: true }, LoopEvent::PromptCancelled) => LoopState::Done,
        (LoopState::SelectRepository { initial: false }, LoopEvent::PromptCancelled) => LoopState::PostAction,
        (LoopState::SelectBackend { .. }, LoopEvent::BackendChosen) => LoopState::Ready,
        (LoopState::SelectBackend { initial: true }, LoopEvent::PromptCancelled) => (
        LoopState::SelectRepository { initial: true }),
        (LoopState::SelectBackend { initial: false }, LoopEvent::PromptCancelled) => LoopState::PostAction,
        (LoopState::Ready, LoopEvent::ModeChosen { mode }) => LoopState::Executing { mode },
        (LoopState::Ready, LoopEvent::PromptCancelled) => LoopState::PostAction,
        (LoopState::Executing { .. }, LoopEvent::ExecutionFinished) => LoopState::PostAction,
        (LoopState::PostAction, LoopEvent::MenuChosen { choice }) => match choice {
            MenuChoice::Continue => LoopState::Ready,
            MenuChoice::SwitchBackend => LoopState::SelectBackend { initial: false },
            MenuChoice::SwitchRepository => LoopState::SelectRepository { initial: false },
            MenuChoice::Exit => LoopState::Done,
        },
        (LoopState::PostAction, LoopEvent::PromptCancelled) => LoopState::Ready,
        _ => s,
    }
}

/// The action the surrounding loop must perform in each state.
pub open spec fn spec_action(s: LoopState) -> LoopAction {
    match s {
        LoopState::SelectRepository { .. } => LoopAction::PromptRepository,
        LoopState::SelectBackend { .. } => LoopAction::PromptBackend,
        LoopState::Ready => LoopAction::PromptMode,
        LoopState::Executing { mode } => LoopAction::RunMode { mode },
        LoopState::PostAction => LoopAction::PromptMenu,
        LoopState::Done => LoopAction::Stop,
    }
}

/// Advance the loop by one observed event, exactly as the transition table
/// `spec_step` says.
pub fn step(s: LoopState, e: LoopEvent) -> (next: LoopState)
    ensures
        next == spec_step(s, e),
{
    match (s, e) {
        (LoopState::SelectRepository { initial: true }, LoopEvent::RepositoryOpened) => {
            LoopState::SelectBackend { initial: true }
        },
        (LoopState::SelectRepository { initial: false }, LoopEvent::RepositoryOpened) => {
            LoopState::Ready
        },
        (LoopState::SelectRepository { initial }, LoopEvent::RepositoryRejected) => {
            LoopState::SelectRepository { initial }
        },
        (LoopState::SelectRepository { initial: true }, LoopEvent::PromptCancelled) => {
            LoopState::Done
        },
        (LoopState::SelectRepository { initial: false }, LoopEvent::PromptCancelled) => {
            LoopState::PostAction
        },
        (LoopState::SelectBackend { .. }, LoopEvent::BackendChosen) => LoopState::Ready,
        (LoopState::SelectBackend { initial: true }, LoopEvent::PromptCancelled) => {
            LoopState::SelectRepository { initial: true }
        },
        (LoopState::SelectBackend { initial: false }, LoopEvent::PromptCancelled) => {
            LoopState::PostAction
        },
        (LoopState::Ready, LoopEvent::ModeChosen { mode }) => LoopState::Executing { mode },
        (LoopState::Ready, LoopEvent::PromptCancelled) => LoopState::PostAction,
        (LoopState::Executing { .. }, LoopEvent::ExecutionFinished) => LoopState::PostAction,
        (LoopState::PostAction, LoopEvent::MenuChosen { choice }) => match choice {
            MenuChoice::Continue => LoopState::Ready,
            MenuChoice::SwitchBackend => LoopState::SelectBackend { initial: false },
            MenuChoice::SwitchRepository => LoopState::SelectRepository { initial: false },
            MenuChoice::Exit => LoopState::Done,
        },
        (LoopState::PostAction, LoopEvent::PromptCancelled) => LoopState::Ready,
        _ => s,
    }
}

/// What to do next in state `s`, exactly as `spec_action` says.
pub fn action_for(s: LoopState) -> (a: LoopAction)
    ensures
        a == spec_action(s),
{
    match s {
        LoopState::SelectRepository { .. } => LoopAction::PromptRepository,
        LoopState::SelectBackend { .. } => LoopAction::PromptBackend,
        LoopState::Ready => LoopAction::PromptMode,
        LoopState::Executing { mode } => LoopAction::RunMode { mode },
        LoopState::PostAction => LoopAction::PromptMenu,
        LoopState::Done => LoopAction::Stop,
    }
}

/// Once the loop has reached its terminal state, no event leaves it: after
/// an explicit exit no further session operation occurs.
pub proof fn lemma_done_is_terminal(e: LoopEvent)
    ensures
        spec_step(LoopState::Done, e) == LoopState::Done,
{
}

} // verus!
