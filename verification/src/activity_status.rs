//! Which activity status a terminal pane shows, from what is known of the agent
//! conversation, the CLI agent session and the terminal output in it.
use vstd::prelude::*;
use crate::agent_session::{
    spec_to_conversation_status, CLIAgent, CLIAgentSession, CLIAgentSessionStatus,
    ConversationStatus,
};
use crate::pane_settings::PaneActivityState;

verus! {

/// How long after the most recent PTY output a non-rich CLI agent is still
/// considered working. Shorter output gaps (spinner frames, streamed tokens)
/// keep the pane working; once output stays quiet longer the agent is idle.
pub const CLI_AGENT_OUTPUT_QUIET_MS: u128 = 800;

/// How long the PTY of a rich CLI agent whose status is still in progress must
/// stay quiet before the agent is taken to be back at an idle prompt. This
/// releases the in-progress latch when the agent's stop event was lost.
pub const CLI_AGENT_RICH_IDLE_QUIET_MS: u128 = 5_000;

/// Everything the activity status of a terminal pane is decided from.
pub struct TerminalActivityStatusInputs<'a> {
    pub cli_session: Option<&'a CLIAgentSession>,
    pub has_terminal_conversation: bool,
    pub is_ambient: bool,
    pub selected_conversation_status: Option<ConversationStatus>,
    pub has_active_cli_agent_command: bool,
    /// Milliseconds since the pane's PTY last produced output, or `None` if it
    /// has produced none.
    pub millis_since_last_output: Option<u128>,
    pub has_active_conversation: bool,
    pub is_long_running: bool,
    pub agent_icon_status: Option<ConversationStatus>,
}

/// The PTY produced output within the quiet window of a non-rich agent.
pub open spec fn spec_output_active(millis_since_last_output: Option<u128>) -> bool {
    match millis_since_last_output {
        Some(ms) => ms < CLI_AGENT_OUTPUT_QUIET_MS,
        None => false,
    }
}

/// The PTY has been quiet for at least the idle window of a rich agent.
pub open spec fn spec_quiet_for_rich_idle(millis_since_last_output: Option<u128>) -> bool {
    match millis_since_last_output {
        Some(ms) => ms >= CLI_AGENT_RICH_IDLE_QUIET_MS,
        None => false,
    }
}

/// The session, if there is one and its agent is known.
pub open spec fn spec_known_session(session: Option<&CLIAgentSession>) -> bool {
    match session {
        Some(s) => s.agent != CLIAgent::Unknown,
        None => false,
    }
}

/// The status a CLI agent session stands for. The first two agents of
/// `CLIAgent` report progress before the user has prompted them: such a
/// session that is in progress while no prompt was sent stands for no status.
pub open spec fn spec_activity_status_for_cli_agent_session(session: CLIAgentSession) -> Option<
    ConversationStatus,
> {
    if (session.agent == CLIAgent::Claude || session.agent == CLIAgent::Codex)
        && session.status is InProgress && session.session_context.query is None {
        None
    } else {
        Some(spec_to_conversation_status(session.status))
    }
}

/// The status that a known rich session decides on its own, if any: its
/// status, unless that is an in-progress latch released by a quiet PTY.
pub open spec fn spec_session_decided_status(inputs: TerminalActivityStatusInputs) -> Option<
    ConversationStatus,
> {
    match inputs.cli_session {
        Some(s) => {
            if s.agent != CLIAgent::Unknown && s.spec_supports_rich_status() {
                match spec_activity_status_for_cli_agent_session(*s) {
                    Some(status) => {
                        if status is InProgress && spec_quiet_for_rich_idle(
                            inputs.millis_since_last_output,
                        ) {
                            None
                        } else {
                            Some(status)
                        }
                    },
                    None => None,
                }
            } else {
                None
            }
        },
        None => None,
    }
}

/// Whether a running CLI agent command may drive the activity: there is no
/// known session, or it is in progress and its status is not rich (or it is
/// Codex).
pub open spec fn spec_command_detected_session_can_drive(session: Option<&CLIAgentSession>) -> bool {
    match session {
        Some(s) => s.agent == CLIAgent::Unknown || (s.status is InProgress && (
        !s.spec_supports_rich_status() || s.agent == CLIAgent::Codex)),
        None => true,
    }
}

/// The status of the tab's progress: in progress while an active conversation
/// is long running.
pub open spec fn spec_activity_status_from_tab_progress(
    has_active_conversation: bool,
    is_long_running: bool,
) -> Option<ConversationStatus> {
    if has_active_conversation && is_long_running {
        Some(ConversationStatus::InProgress)
    } else {
        None
    }
}

/// The selected conversation's status, where the terminal holds a
/// conversation or is ambient.
pub open spec fn spec_activity_status_from_terminal_conversation_status(
    has_conversation: bool,
    is_ambient: bool,
    selected_conversation_status: Option<ConversationStatus>,
) -> Option<ConversationStatus> {
    if has_conversation || is_ambient {
        selected_conversation_status
    } else {
        None
    }
}

/// The activity status of a terminal pane. The sources are tried in order, and
/// the first that has a status decides:
/// 1. a known CLI agent session with rich status (see
///    `spec_session_decided_status`);
/// 2. the terminal's conversation status;
/// 3. a running CLI agent command with recent output, where the session
///    allows it: in progress;
/// 4. the tab's progress;
/// 5. where a known CLI agent session exists: no status;
/// 6. the agent icon's status.
pub open spec fn spec_terminal_activity_status(inputs: TerminalActivityStatusInputs) -> Option<
    ConversationStatus,
> {
    let session_status = spec_session_decided_status(inputs);
    let conversation_status = spec_activity_status_from_terminal_conversation_status(
        inputs.has_terminal_conversation,
        inputs.is_ambient,
        inputs.selected_conversation_status,
    );
    let tab_status = spec_activity_status_from_tab_progress(
        inputs.has_active_conversation,
        inputs.is_long_running,
    );
    if session_status is Some {
        session_status
    } else if conversation_status is Some {
        conversation_status
    } else if spec_command_detected_session_can_drive(inputs.cli_session)
        && inputs.has_active_cli_agent_command && spec_output_active(
        inputs.millis_since_last_output,
    ) {
        Some(ConversationStatus::InProgress)
    } else if tab_status is Some {
        tab_status
    } else if spec_known_session(inputs.cli_session) {
        None
    } else {
        inputs.agent_icon_status
    }
}

/// The pane activity state that a status is shown as.
pub open spec fn spec_pane_activity_state_for_status(status: Option<ConversationStatus>) -> PaneActivityState {
    match status {
        Some(ConversationStatus::InProgress) => PaneActivityState::Working,
        Some(ConversationStatus::Blocked { .. }) => PaneActivityState::RequiresAttention,
        Some(ConversationStatus::Error) => PaneActivityState::NeedsHelp,
        Some(ConversationStatus::TransientError) => PaneActivityState::NeedsHelp,
        _ => PaneActivityState::NotWorking,
    }
}

/// Whether the session's own status may drive the pane's activity.
pub fn cli_agent_session_drives_activity_status(session: &CLIAgentSession) -> (drives: bool)
    ensures
        drives == session.spec_supports_rich_status(),
{
    session.supports_rich_status()
}

/// The status a CLI agent session stands for.
pub fn activity_status_for_cli_agent_session(session: &CLIAgentSession) -> (status: Option<
    ConversationStatus,
>)
    ensures
        status == spec_activity_status_for_cli_agent_session(*session),
{
    let is_claude_or_codex = match session.agent {
        CLIAgent::Claude | CLIAgent::Codex => true,
        _ => false,
    };
    let in_progress = match session.status {
        CLIAgentSessionStatus::InProgress => true,
        _ => false,
    };
    if is_claude_or_codex && in_progress && session.session_context.latest_user_prompt().is_none() {
        return None;
    }
    Some(session.status.to_conversation_status())
}

/// In progress while an active conversation is long running; otherwise none.
pub fn activity_status_from_tab_progress(has_active_conversation: bool, is_long_running: bool) -> (status: Option<ConversationStatus>)
    ensures
        status == spec_activity_status_from_tab_progress(has_active_conversation, is_long_running),
        status is Some <==> (has_active_conversation && is_long_running),
        status is Some ==> status == Some(ConversationStatus::InProgress),
{
    if has_active_conversation && is_long_running {
        Some(ConversationStatus::InProgress)
    } else {
        None
    }
}

/// The selected conversation's status where the terminal holds a conversation
/// or is ambient; otherwise none.
pub fn activity_status_from_terminal_conversation_status(
    has_conversation: bool,
    is_ambient: bool,
    selected_conversation_status: Option<ConversationStatus>,
) -> (status: Option<ConversationStatus>)
    ensures
        status == spec_activity_status_from_terminal_conversation_status(
            has_conversation,
            is_ambient,
            selected_conversation_status,
        ),
{
    if has_conversation || is_ambient {
        selected_conversation_status
    } else {
        None
    }
}

/// The pane activity state that a status is shown as.
pub fn pane_activity_state_for_status(status: Option<&ConversationStatus>) -> (state: PaneActivityState)
    ensures
        state == spec_pane_activity_state_for_status(
            match status {
                Some(s) => Some(*s),
                None => None,
            },
        ),
{
    match status {
        Some(ConversationStatus::InProgress) => PaneActivityState::Working,
        Some(ConversationStatus::Blocked { .. }) => PaneActivityState::RequiresAttention,
        Some(ConversationStatus::Error) | Some(ConversationStatus::TransientError) => {
            PaneActivityState::NeedsHelp
        },
        Some(ConversationStatus::Success)
        | Some(ConversationStatus::Cancelled)
        | Some(ConversationStatus::WaitingForEvents)
        | None => PaneActivityState::NotWorking,
    }
}

/// The activity status of a terminal pane (see `spec_terminal_activity_status`).
pub fn terminal_activity_status_from_inputs(inputs: TerminalActivityStatusInputs<'_>) -> (status:
    Option<ConversationStatus>)
    ensures
        status == spec_terminal_activity_status(inputs),
{
    let ghost spec_inputs = inputs;
    let cli_agent_output_active = match inputs.millis_since_last_output {
        Some(ms) => ms < CLI_AGENT_OUTPUT_QUIET_MS,
        None => false,
    };
    let rich_idle = match inputs.millis_since_last_output {
        Some(ms) => ms >= CLI_AGENT_RICH_IDLE_QUIET_MS,
        None => false,
    };

    // A non-rich CLI agent can drive command-presence activity only together
    // with real output activity: its session status is a one-way latch.
    let command_detected_cli_session_can_drive_activity = match inputs.cli_session {
        Some(session) => match session.agent {
            CLIAgent::Unknown => true,
            _ => {
                let in_progress = match session.status {
                    CLIAgentSessionStatus::InProgress => true,
                    _ => false,
                };
                let is_codex = match session.agent {
                    CLIAgent::Codex => true,
                    _ => false,
                };
                in_progress && (!session.supports_rich_status() || is_codex)
            },
        },
        None => true,
    };

    let known_session = match inputs.cli_session {
        Some(session) => match session.agent {
            CLIAgent::Unknown => false,
            _ => true,
        },
        None => false,
    };

    if let Some(session) = inputs.cli_session {
        if known_session && cli_agent_session_drives_activity_status(session) {
            if let Some(status) = activity_status_for_cli_agent_session(session) {
                // A rich session's in-progress status is a latch cleared only
                // by a best-effort event: a PTY quiet for the rich window
                // releases it. Blocked and finished statuses pass through.
                let in_progress = match status {
                    ConversationStatus::InProgress => true,
                    _ => false,
                };
                let idle_despite_latch = in_progress && rich_idle;
                if !idle_despite_latch {
                    return Some(status);
                }
            }
        }
    }
    assert(spec_session_decided_status(spec_inputs) is None);

    if let Some(status) = activity_status_from_terminal_conversation_status(
        inputs.has_terminal_conversation,
        inputs.is_ambient,
        inputs.selected_conversation_status,
    ) {
        return Some(status);
    }

    if command_detected_cli_session_can_drive_activity && inputs.has_active_cli_agent_command
        && cli_agent_output_active {
        return Some(ConversationStatus::InProgress);
    }

    if let Some(status) = activity_status_from_tab_progress(
        inputs.has_active_conversation,
        inputs.is_long_running,
    ) {
        return Some(status);
    }

    if known_session {
        return None;
    }

    inputs.agent_icon_status
}

/// A CLI agent session whose agent is unknown counts for nothing: the pane
/// shows what it would show with no session at all.
pub proof fn lemma_unknown_agent_session_is_ignored<'a>(
    inputs: TerminalActivityStatusInputs<'a>,
    session: &'a CLIAgentSession,
)
    requires
        inputs.cli_session == Some(session),
        session.agent == CLIAgent::Unknown,
    ensures
        spec_terminal_activity_status(inputs) == spec_terminal_activity_status(
            TerminalActivityStatusInputs { cli_session: None, ..inputs },
        ),
{
}

/// Where a known CLI agent session exists, the agent icon's status never
/// decides: the pane shows the same whatever the icon says.
pub proof fn lemma_icon_status_unused_with_known_session<'a>(
    inputs: TerminalActivityStatusInputs<'a>,
    icon_status: Option<ConversationStatus>,
)
    requires
        spec_known_session(inputs.cli_session),
    ensures
        spec_terminal_activity_status(inputs) == spec_terminal_activity_status(
            TerminalActivityStatusInputs { agent_icon_status: icon_status, ..inputs },
        ),
{
}

/// A known rich session that reports a blocked or finished status is
/// authoritative: the pane shows that status, whatever else is known and
/// however long the PTY has been quiet.
pub proof fn lemma_rich_final_status_is_authoritative<'a>(
    inputs: TerminalActivityStatusInputs<'a>,
    session: &'a CLIAgentSession,
)
    requires
        inputs.cli_session == Some(session),
        session.agent != CLIAgent::Unknown,
        session.spec_supports_rich_status(),
        !(session.status is InProgress),
    ensures
        spec_terminal_activity_status(inputs) == Some(spec_to_conversation_status(session.status)),
{
}

/// A known session without rich status never shows its own (latched) status:
/// with no conversation status and no tab progress, the pane is working
/// exactly while the session is in progress, its agent command runs and the
/// PTY produced output within the quiet window; otherwise it shows nothing.
pub proof fn lemma_non_rich_session_working_only_while_output_active<'a>(
    inputs: TerminalActivityStatusInputs<'a>,
    session: &'a CLIAgentSession,
)
    requires
        inputs.cli_session == Some(session),
        session.agent != CLIAgent::Unknown,
        !session.spec_supports_rich_status(),
        spec_activity_status_from_terminal_conversation_status(
            inputs.has_terminal_conversation,
            inputs.is_ambient,
            inputs.selected_conversation_status,
        ) is None,
        spec_activity_status_from_tab_progress(inputs.has_active_conversation, inputs.is_long_running)
            is None,
    ensures
        spec_terminal_activity_status(inputs) == (if session.status is InProgress
            && inputs.has_active_cli_agent_command && spec_output_active(
            inputs.millis_since_last_output,
        ) {
            Some(ConversationStatus::InProgress)
        } else {
            None
        }),
{
}

/// A rich session still latched in progress after the PTY has been quiet for
/// the rich idle window counts as idle: the pane shows the conversation
/// status, else the tab's progress, else nothing.
pub proof fn lemma_rich_latch_released_after_quiet<'a>(
    inputs: TerminalActivityStatusInputs<'a>,
    session: &'a CLIAgentSession,
)
    requires
        inputs.cli_session == Some(session),
        session.agent != CLIAgent::Unknown,
        session.spec_supports_rich_status(),
        session.status is InProgress,
        spec_quiet_for_rich_idle(inputs.millis_since_last_output),
    ensures
        spec_terminal_activity_status(inputs) == (if spec_activity_status_from_terminal_conversation_status(
            inputs.has_terminal_conversation,
            inputs.is_ambient,
            inputs.selected_conversation_status,
        ) is Some {
            inputs.selected_conversation_status
        } else {
            spec_activity_status_from_tab_progress(
                inputs.has_active_conversation,
                inputs.is_long_running,
            )
        }),
{
}

/// Where no rich CLI agent session decides, the terminal's conversation
/// status wins over command detection, tab progress and the agent icon.
pub proof fn lemma_conversation_status_takes_precedence(inputs: TerminalActivityStatusInputs)
    requires
        inputs.cli_session matches Some(s) ==> !s.spec_supports_rich_status(),
        inputs.has_terminal_conversation || inputs.is_ambient,
        inputs.selected_conversation_status is Some,
    ensures
        spec_terminal_activity_status(inputs) == inputs.selected_conversation_status,
{
}

/// The rich idle window is longer than the output window: a pane quiet long
/// enough to release a rich agent's latch never counts as having active
/// output.
pub proof fn lemma_rich_idle_implies_output_quiet(millis_since_last_output: Option<u128>)
    ensures
        CLI_AGENT_OUTPUT_QUIET_MS < CLI_AGENT_RICH_IDLE_QUIET_MS,
        spec_quiet_for_rich_idle(millis_since_last_output) ==> !spec_output_active(
            millis_since_last_output,
        ),
{
}

/// Only a status that is in progress is shown as working, and no status at
/// all is shown as not working.
pub proof fn lemma_working_only_for_in_progress(status: Option<ConversationStatus>)
    ensures
        (spec_pane_activity_state_for_status(status) == PaneActivityState::Working) <==> (status
            == Some(ConversationStatus::InProgress)),
        status is None ==> spec_pane_activity_state_for_status(status)
            == PaneActivityState::NotWorking,
{
}

/// Tab progress gives a status only for an active conversation that is long
/// running, and that status is in progress.
pub proof fn lemma_tab_progress_needs_long_running_conversation(
    has_active_conversation: bool,
    is_long_running: bool,
)
    ensures
        spec_activity_status_from_tab_progress(has_active_conversation, is_long_running) is Some
            <==> (has_active_conversation && is_long_running),
        has_active_conversation && is_long_running ==> spec_activity_status_from_tab_progress(
            has_active_conversation,
            is_long_running,
        ) == Some(ConversationStatus::InProgress),
{
}

/// The terminal's conversation status counts only where the terminal holds a
/// conversation or is ambient, and then it is the selected conversation's
/// status unchanged.
pub proof fn lemma_terminal_conversation_status_needs_agent_context(
    has_conversation: bool,
    is_ambient: bool,
    selected: Option<ConversationStatus>,
)
    ensures
        (has_conversation || is_ambient) ==> spec_activity_status_from_terminal_conversation_status(
            has_conversation,
            is_ambient,
            selected,
        ) == selected,
        !(has_conversation || is_ambient) ==> spec_activity_status_from_terminal_conversation_status(
            has_conversation,
            is_ambient,
            selected,
        ) is None,
{
}

/// Output is active exactly when the PTY produced output less than the output
/// window ago; the rich idle window is reached exactly when it has been quiet
/// at least that long; a PTY that never produced output is neither.
pub proof fn lemma_output_windows(ms: u128)
    ensures
        spec_output_active(Some(ms)) <==> ms < 800,
        spec_quiet_for_rich_idle(Some(ms)) <==> ms >= 5000,
        !spec_output_active(None),
        !spec_quiet_for_rich_idle(None),
{
}

/// With no session, no conversation status, no running agent command and no
/// long-running conversation, the pane shows the agent icon's status: none
/// where the icon has none.
pub proof fn lemma_quiet_pane_falls_back_to_icon(inputs: TerminalActivityStatusInputs)
    requires
        inputs.cli_session is None,
        !inputs.has_terminal_conversation,
        !inputs.is_ambient,
        !inputs.has_active_cli_agent_command,
        !inputs.is_long_running,
    ensures
        spec_terminal_activity_status(inputs) == inputs.agent_icon_status,
{
}

/// A conversation that is active but not long running does not make the pane
/// work: with nothing else going on, the pane shows no status.
pub proof fn lemma_short_conversation_is_not_working(inputs: TerminalActivityStatusInputs)
    requires
        inputs.cli_session is None,
        !inputs.has_terminal_conversation,
        !inputs.is_ambient,
        !inputs.has_active_cli_agent_command,
        !inputs.is_long_running,
        inputs.agent_icon_status is None,
    ensures
        spec_terminal_activity_status(inputs) is None,
{
}

/// A long-running active conversation makes a pane with no session,
/// conversation status or active agent command work.
pub proof fn lemma_long_running_conversation_is_working(inputs: TerminalActivityStatusInputs)
    requires
        inputs.cli_session is None,
        !inputs.has_terminal_conversation,
        !inputs.is_ambient,
        !inputs.has_active_cli_agent_command,
        inputs.has_active_conversation,
        inputs.is_long_running,
    ensures
        spec_terminal_activity_status(inputs) == Some(ConversationStatus::InProgress),
{
}

/// A CLI agent session status stands for the conversation status of the same
/// name; a blocked session carries its message as the blocked action.
pub proof fn lemma_session_status_conversion(message: String)
    ensures
        spec_to_conversation_status(CLIAgentSessionStatus::InProgress)
            == ConversationStatus::InProgress,
        spec_to_conversation_status(CLIAgentSessionStatus::Success) == ConversationStatus::Success,
        spec_to_conversation_status(CLIAgentSessionStatus::Blocked { message })
            == (ConversationStatus::Blocked { blocked_action: message }),
{
}

/// Only sessions of the first two agents of `CLIAgent` are silenced before a
/// prompt: a session of any other agent stands for its own status, prompt or
/// no prompt; and a session of those two stands for its own status once
/// prompted or once not in progress.
pub proof fn lemma_only_first_two_agents_wait_for_a_prompt(session: CLIAgentSession)
    ensures
        session.agent != CLIAgent::Claude && session.agent != CLIAgent::Codex
            ==> spec_activity_status_for_cli_agent_session(session) == Some(
            spec_to_conversation_status(session.status),
        ),
        (session.session_context.query is Some || !(session.status is InProgress))
            ==> spec_activity_status_for_cli_agent_session(session) == Some(
            spec_to_conversation_status(session.status),
        ),
        (session.agent == CLIAgent::Claude || session.agent == CLIAgent::Codex)
            && session.status is InProgress && session.session_context.query is None
            ==> spec_activity_status_for_cli_agent_session(session) is None,
{
}

/// A rich OpenCode session in progress shows in progress, prompt or no
/// prompt, while the PTY is not quiet for the rich idle window.
pub proof fn lemma_rich_opencode_in_progress_is_working<'a>(
    inputs: TerminalActivityStatusInputs<'a>,
    session: &'a CLIAgentSession,
)
    requires
        inputs.cli_session == Some(session),
        session.agent == CLIAgent::OpenCode,
        session.spec_supports_rich_status(),
        session.status is InProgress,
        !spec_quiet_for_rich_idle(inputs.millis_since_last_output),
    ensures
        spec_terminal_activity_status(inputs) == Some(ConversationStatus::InProgress),
{
}

/// Command detection may drive a Codex session in progress whether or not its
/// status is rich: with its agent command running and recent output, and no
/// status decided by the session or the conversation, the pane works.
pub proof fn lemma_streaming_codex_is_working<'a>(
    inputs: TerminalActivityStatusInputs<'a>,
    session: &'a CLIAgentSession,
)
    requires
        inputs.cli_session == Some(session),
        session.agent == CLIAgent::Codex,
        session.status is InProgress,
        session.session_context.query is None || !session.spec_supports_rich_status(),
        !(inputs.has_terminal_conversation || inputs.is_ambient)
            || inputs.selected_conversation_status is None,
        inputs.has_active_cli_agent_command,
        spec_output_active(inputs.millis_since_last_output),
    ensures
        spec_command_detected_session_can_drive(inputs.cli_session),
        spec_terminal_activity_status(inputs) == Some(ConversationStatus::InProgress),
{
}

/// Which sessions let command detection drive the activity: none, an unknown
/// agent's, or a known agent's session in progress whose status is not rich
/// or whose agent is Codex.
pub proof fn lemma_command_detection_gate(session: CLIAgentSession)
    ensures
        spec_command_detected_session_can_drive(None),
        spec_command_detected_session_can_drive(Some(&session)) <==> (session.agent
            == CLIAgent::Unknown || (session.status is InProgress && (
        !session.received_rich_notification || session.agent == CLIAgent::Codex))),
{
}

/// How each status is shown: in progress as working, blocked as requiring
/// attention, errors as needing help, and anything else, or nothing, as not
/// working.
pub proof fn lemma_pane_state_mapping(blocked_action: String)
    ensures
        spec_pane_activity_state_for_status(Some(ConversationStatus::InProgress))
            == PaneActivityState::Working,
        spec_pane_activity_state_for_status(Some(ConversationStatus::Blocked { blocked_action }))
            == PaneActivityState::RequiresAttention,
        spec_pane_activity_state_for_status(Some(ConversationStatus::Error))
            == PaneActivityState::NeedsHelp,
        spec_pane_activity_state_for_status(Some(ConversationStatus::TransientError))
            == PaneActivityState::NeedsHelp,
        spec_pane_activity_state_for_status(Some(ConversationStatus::Success))
            == PaneActivityState::NotWorking,
        spec_pane_activity_state_for_status(Some(ConversationStatus::Cancelled))
            == PaneActivityState::NotWorking,
        spec_pane_activity_state_for_status(Some(ConversationStatus::WaitingForEvents))
            == PaneActivityState::NotWorking,
        spec_pane_activity_state_for_status(None) == PaneActivityState::NotWorking,
{
}

/// A session counts as known exactly when its agent is not unknown; no
/// session is not a known one.
pub proof fn lemma_known_session(session: CLIAgentSession)
    ensures
        spec_known_session(Some(&session)) <==> session.agent != CLIAgent::Unknown,
        !spec_known_session(None),
{
}

} // verus!
