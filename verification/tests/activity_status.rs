use warp_pane_activity::activity_status::{
    activity_status_for_cli_agent_session, activity_status_from_tab_progress,
    activity_status_from_terminal_conversation_status, cli_agent_session_drives_activity_status,
    pane_activity_state_for_status, terminal_activity_status_from_inputs,
    TerminalActivityStatusInputs, CLI_AGENT_OUTPUT_QUIET_MS, CLI_AGENT_RICH_IDLE_QUIET_MS,
};
use warp_pane_activity::agent_session::{
    CLIAgent, CLIAgentSession, CLIAgentSessionContext, CLIAgentSessionStatus, ConversationStatus,
};
use warp_pane_activity::pane_settings::PaneActivityState;

/// The time since the last PTY output for a pane whose output is active (just
/// produced) or quiet (none produced).
fn output_activity(active: bool) -> Option<u128> {
    if active {
        Some(0)
    } else {
        None
    }
}

fn cli_agent_session(status: CLIAgentSessionStatus, query: Option<&str>) -> CLIAgentSession {
    CLIAgentSession {
        agent: CLIAgent::Claude,
        status,
        session_context: CLIAgentSessionContext {
            query: query.map(str::to_owned),
        },
        received_rich_notification: true,
    }
}

#[test]
fn pane_activity_state_treats_missing_status_as_not_working() {
    assert_eq!(
        pane_activity_state_for_status(None),
        PaneActivityState::NotWorking
    );
}

#[test]
fn pane_activity_state_maps_in_progress_to_working() {
    assert_eq!(
        pane_activity_state_for_status(Some(&ConversationStatus::InProgress)),
        PaneActivityState::Working
    );
}

#[test]
fn pane_activity_state_maps_blocked_to_requires_attention() {
    assert_eq!(
        pane_activity_state_for_status(Some(&ConversationStatus::Blocked {
            blocked_action: "confirm command".to_owned(),
        })),
        PaneActivityState::RequiresAttention
    );
}

#[test]
fn pane_activity_state_maps_errors_to_needs_help() {
    assert_eq!(
        pane_activity_state_for_status(Some(&ConversationStatus::Error)),
        PaneActivityState::NeedsHelp
    );
    assert_eq!(
        pane_activity_state_for_status(Some(&ConversationStatus::TransientError)),
        PaneActivityState::NeedsHelp
    );
}

#[test]
fn pane_activity_state_maps_finished_and_waiting_to_not_working() {
    for status in [
        ConversationStatus::Success,
        ConversationStatus::Cancelled,
        ConversationStatus::WaitingForEvents,
    ] {
        assert_eq!(
            pane_activity_state_for_status(Some(&status)),
            PaneActivityState::NotWorking
        );
    }
}

#[test]
fn terminal_activity_treats_absent_agent_icon_status_as_idle() {
    let status = terminal_activity_status_from_inputs(TerminalActivityStatusInputs {
        cli_session: None,
        has_terminal_conversation: false,
        is_ambient: false,
        selected_conversation_status: None,
        has_active_cli_agent_command: false,
        millis_since_last_output: output_activity(false),
        has_active_conversation: false,
        is_long_running: false,
        agent_icon_status: None,
    });

    assert_eq!(
        pane_activity_state_for_status(status.as_ref()),
        PaneActivityState::NotWorking
    );
}

#[test]
fn terminal_activity_uses_rich_agent_icon_status_as_last_fallback() {
    let status = terminal_activity_status_from_inputs(TerminalActivityStatusInputs {
        cli_session: None,
        has_terminal_conversation: false,
        is_ambient: false,
        selected_conversation_status: None,
        has_active_cli_agent_command: false,
        millis_since_last_output: output_activity(false),
        has_active_conversation: false,
        is_long_running: false,
        agent_icon_status: Some(ConversationStatus::InProgress),
    });

    assert_eq!(
        pane_activity_state_for_status(status.as_ref()),
        PaneActivityState::Working
    );
}

#[test]
fn terminal_activity_uses_tab_progress_for_active_conversation() {
    let status = activity_status_from_tab_progress(true, true);

    assert_eq!(
        pane_activity_state_for_status(status.as_ref()),
        PaneActivityState::Working
    );
}

#[test]
fn terminal_activity_uses_terminal_conversation_status() {
    let status = activity_status_from_terminal_conversation_status(
        true,
        false,
        Some(ConversationStatus::InProgress),
    );

    assert_eq!(
        pane_activity_state_for_status(status.as_ref()),
        PaneActivityState::Working
    );
}

#[test]
fn terminal_activity_ignores_terminal_conversation_status_without_agent_context() {
    let status = activity_status_from_terminal_conversation_status(
        false,
        false,
        Some(ConversationStatus::InProgress),
    );

    assert_eq!(
        pane_activity_state_for_status(status.as_ref()),
        PaneActivityState::NotWorking
    );
}

#[test]
fn terminal_activity_ignores_tab_progress_without_active_conversation() {
    let status = activity_status_from_tab_progress(false, true);

    assert_eq!(
        pane_activity_state_for_status(status.as_ref()),
        PaneActivityState::NotWorking
    );
}

#[test]
fn terminal_activity_treats_rich_cli_session_without_prompt_as_not_working() {
    let session = cli_agent_session(CLIAgentSessionStatus::InProgress, None);

    assert_eq!(activity_status_for_cli_agent_session(&session), None);
}

#[test]
fn terminal_activity_treats_rich_cli_session_with_prompt_as_working() {
    let session = cli_agent_session(CLIAgentSessionStatus::InProgress, Some("fix this"));

    assert_eq!(
        activity_status_for_cli_agent_session(&session),
        Some(ConversationStatus::InProgress),
    );
}

#[test]
fn terminal_activity_treats_codex_rich_session_without_prompt_as_not_working() {
    let mut session = cli_agent_session(CLIAgentSessionStatus::InProgress, None);
    session.agent = CLIAgent::Codex;

    assert_eq!(activity_status_for_cli_agent_session(&session), None,);
}

#[test]
fn terminal_activity_does_not_restore_suppressed_cli_session_status_from_icon_status() {
    let mut session = cli_agent_session(CLIAgentSessionStatus::InProgress, None);
    session.agent = CLIAgent::Codex;
    session.received_rich_notification = true;

    let status = terminal_activity_status_from_inputs(TerminalActivityStatusInputs {
        cli_session: Some(&session),
        has_terminal_conversation: false,
        is_ambient: false,
        selected_conversation_status: None,
        has_active_cli_agent_command: false,
        millis_since_last_output: output_activity(false),
        has_active_conversation: false,
        is_long_running: false,
        agent_icon_status: Some(ConversationStatus::InProgress),
    });

    assert_eq!(status, None);
}

#[test]
fn terminal_activity_converts_cli_session_status_when_status_source_allows_it() {
    let mut session = cli_agent_session(CLIAgentSessionStatus::Success, None);
    session.agent = CLIAgent::Codex;
    session.received_rich_notification = true;

    assert_eq!(
        activity_status_for_cli_agent_session(&session),
        Some(ConversationStatus::Success),
    );
}

#[test]
fn terminal_activity_status_source_waits_for_claude_and_opencode_rich_status() {
    for agent in [CLIAgent::Claude, CLIAgent::OpenCode] {
        let mut session = cli_agent_session(CLIAgentSessionStatus::InProgress, Some("fix this"));
        session.agent = agent;
        session.received_rich_notification = false;

        assert!(
            !cli_agent_session_drives_activity_status(&session),
            "{agent:?} should not drive Activity color before rich status arrives"
        );

        session.received_rich_notification = true;
        assert!(
            cli_agent_session_drives_activity_status(&session),
            "{agent:?} should drive Activity color once rich status arrives"
        );
    }
}

#[test]
fn terminal_activity_status_source_waits_for_codex_rich_status() {
    let mut session = cli_agent_session(CLIAgentSessionStatus::Success, None);
    session.agent = CLIAgent::Codex;
    session.received_rich_notification = false;

    assert!(
        !cli_agent_session_drives_activity_status(&session),
        "non-rich Codex sessions should not pin Activity to their stale status"
    );

    session.received_rich_notification = true;
    assert!(
        cli_agent_session_drives_activity_status(&session),
        "Codex can drive Activity once it reports rich status"
    );
}

#[test]
fn terminal_activity_prefers_conversation_status_over_command_detected_status() {
    let mut session = cli_agent_session(CLIAgentSessionStatus::InProgress, Some("fix this"));
    session.agent = CLIAgent::Codex;
    session.received_rich_notification = false;

    let status = terminal_activity_status_from_inputs(TerminalActivityStatusInputs {
        cli_session: Some(&session),
        has_terminal_conversation: true,
        is_ambient: false,
        selected_conversation_status: Some(ConversationStatus::Success),
        has_active_cli_agent_command: true,
        millis_since_last_output: output_activity(true),
        has_active_conversation: true,
        is_long_running: true,
        agent_icon_status: None,
    });

    assert_eq!(status, Some(ConversationStatus::Success));
    assert_eq!(
        pane_activity_state_for_status(status.as_ref()),
        PaneActivityState::NotWorking
    );
}

#[test]
fn terminal_activity_uses_command_detected_running_agent_when_output_is_active() {
    let status = terminal_activity_status_from_inputs(TerminalActivityStatusInputs {
        cli_session: None,
        has_terminal_conversation: false,
        is_ambient: false,
        selected_conversation_status: None,
        has_active_cli_agent_command: true,
        millis_since_last_output: output_activity(true),
        has_active_conversation: false,
        is_long_running: true,
        agent_icon_status: None,
    });

    assert_eq!(status, Some(ConversationStatus::InProgress));
}

#[test]
fn terminal_activity_command_detected_agent_is_idle_without_output() {
    // A detected CLI agent sitting quietly at its prompt reads as idle, not
    // working: command presence alone does not drive the color.
    let status = terminal_activity_status_from_inputs(TerminalActivityStatusInputs {
        cli_session: None,
        has_terminal_conversation: false,
        is_ambient: false,
        selected_conversation_status: None,
        has_active_cli_agent_command: true,
        millis_since_last_output: output_activity(false),
        has_active_conversation: false,
        is_long_running: true,
        agent_icon_status: None,
    });

    assert_eq!(status, None);
    assert_eq!(
        pane_activity_state_for_status(status.as_ref()),
        PaneActivityState::NotWorking
    );
}

#[test]
fn terminal_activity_non_rich_agent_working_only_while_output_is_active() {
    // A non-rich Codex session's status is a one-way latch: the pane follows
    // real output activity, not the latched status.
    let mut session = cli_agent_session(CLIAgentSessionStatus::InProgress, None);
    session.agent = CLIAgent::Codex;
    session.received_rich_notification = false;

    let working = terminal_activity_status_from_inputs(TerminalActivityStatusInputs {
        cli_session: Some(&session),
        has_terminal_conversation: false,
        is_ambient: false,
        selected_conversation_status: None,
        has_active_cli_agent_command: true,
        millis_since_last_output: output_activity(true),
        has_active_conversation: false,
        is_long_running: true,
        agent_icon_status: None,
    });
    assert_eq!(
        pane_activity_state_for_status(working.as_ref()),
        PaneActivityState::Working,
        "streaming Codex output should paint the pane Working (red)"
    );

    let idle = terminal_activity_status_from_inputs(TerminalActivityStatusInputs {
        cli_session: Some(&session),
        has_terminal_conversation: false,
        is_ambient: false,
        selected_conversation_status: None,
        has_active_cli_agent_command: true,
        millis_since_last_output: output_activity(false),
        has_active_conversation: false,
        is_long_running: true,
        agent_icon_status: None,
    });
    assert_eq!(
        idle, None,
        "idle Codex (output quiet) must not stay Working even though its session status is latched InProgress"
    );
    assert_eq!(
        pane_activity_state_for_status(idle.as_ref()),
        PaneActivityState::NotWorking
    );
}

#[test]
fn terminal_activity_does_not_use_command_detection_after_non_rich_session_finishes() {
    let mut session = cli_agent_session(CLIAgentSessionStatus::Success, None);
    session.agent = CLIAgent::Codex;
    session.received_rich_notification = false;

    let status = terminal_activity_status_from_inputs(TerminalActivityStatusInputs {
        cli_session: Some(&session),
        has_terminal_conversation: false,
        is_ambient: false,
        selected_conversation_status: None,
        has_active_cli_agent_command: true,
        millis_since_last_output: output_activity(true),
        has_active_conversation: false,
        is_long_running: true,
        agent_icon_status: None,
    });

    assert_eq!(status, None);
    assert_eq!(
        pane_activity_state_for_status(status.as_ref()),
        PaneActivityState::NotWorking
    );
}

fn quiet_inputs<'a>(
    session: Option<&'a CLIAgentSession>,
    millis: Option<u128>,
) -> TerminalActivityStatusInputs<'a> {
    TerminalActivityStatusInputs {
        cli_session: session,
        has_terminal_conversation: false,
        is_ambient: false,
        selected_conversation_status: None,
        has_active_cli_agent_command: true,
        millis_since_last_output: millis,
        has_active_conversation: false,
        is_long_running: false,
        agent_icon_status: None,
    }
}

#[test]
fn output_quiet_window_boundary() {
    let just_inside = terminal_activity_status_from_inputs(quiet_inputs(
        None,
        Some(CLI_AGENT_OUTPUT_QUIET_MS - 1),
    ));
    assert_eq!(just_inside, Some(ConversationStatus::InProgress));
    let at_window = terminal_activity_status_from_inputs(quiet_inputs(
        None,
        Some(CLI_AGENT_OUTPUT_QUIET_MS),
    ));
    assert_eq!(at_window, None);
}

#[test]
fn rich_in_progress_latch_is_released_after_long_quiet() {
    let session = cli_agent_session(CLIAgentSessionStatus::InProgress, Some("fix this"));
    let before = terminal_activity_status_from_inputs(quiet_inputs(
        Some(&session),
        Some(CLI_AGENT_RICH_IDLE_QUIET_MS - 1),
    ));
    assert_eq!(before, Some(ConversationStatus::InProgress));
    let after = terminal_activity_status_from_inputs(quiet_inputs(
        Some(&session),
        Some(CLI_AGENT_RICH_IDLE_QUIET_MS),
    ));
    assert_eq!(after, None);
}

#[test]
fn rich_blocked_status_passes_through_after_long_quiet() {
    let session = cli_agent_session(
        CLIAgentSessionStatus::Blocked {
            message: "approve edit".to_owned(),
        },
        None,
    );
    let status = terminal_activity_status_from_inputs(quiet_inputs(
        Some(&session),
        Some(CLI_AGENT_RICH_IDLE_QUIET_MS * 10),
    ));
    assert_eq!(
        status,
        Some(ConversationStatus::Blocked {
            blocked_action: "approve edit".to_owned()
        })
    );
    assert_eq!(
        pane_activity_state_for_status(status.as_ref()),
        PaneActivityState::RequiresAttention
    );
}

#[test]
fn unknown_agent_session_behaves_like_no_session() {
    let mut session = cli_agent_session(CLIAgentSessionStatus::Success, None);
    session.agent = CLIAgent::Unknown;
    let mut with_session = quiet_inputs(Some(&session), None);
    with_session.agent_icon_status = Some(ConversationStatus::Error);
    let mut without_session = quiet_inputs(None, None);
    without_session.agent_icon_status = Some(ConversationStatus::Error);
    let a = terminal_activity_status_from_inputs(with_session);
    let b = terminal_activity_status_from_inputs(without_session);
    assert_eq!(a, b);
    assert_eq!(a, Some(ConversationStatus::Error));
}

#[test]
fn ambient_terminal_uses_selected_conversation_status() {
    let status = activity_status_from_terminal_conversation_status(
        false,
        true,
        Some(ConversationStatus::Error),
    );
    assert_eq!(status, Some(ConversationStatus::Error));
}
