//! Decisions of the terminal pane view about activity coloring: whether the
//! content keeps its own colors, and what status the agent icon shows.
use vstd::prelude::*;
use crate::agent_session::{CLIAgent, ConversationStatus};

verus! {

/// Whether a pane in activity color mode keeps its content's own colors and
/// tints only its chrome. Full-screen TUIs (on the alternate screen) and CLI
/// agent TUIs draw their own backgrounds, so they keep their colors; block-list
/// content is tinted on the pane background itself.
pub fn should_preserve_activity_content_colors(
    is_activity_mode: bool,
    is_alt_screen_active: bool,
    is_cli_agent_running: bool,
) -> (preserve: bool)
    ensures
        preserve == (is_activity_mode && (is_alt_screen_active || is_cli_agent_running)),
{
    is_activity_mode && (is_alt_screen_active || is_cli_agent_running)
}

/// The icon shown for a pane, with the agent status it carries.
#[derive(Debug, Clone, PartialEq, Eq)]
pub enum IconWithStatusVariant {
    /// A plain terminal, with no agent.
    Terminal,
    /// A CLI agent running in the terminal.
    CLIAgent { agent: CLIAgent, status: Option<ConversationStatus>, is_ambient: bool },
}

/// The icon with the pane's activity status in place of the status it had,
/// where it is a CLI agent icon; any other icon unchanged.
pub open spec fn spec_agent_icon_variant_with_activity_status(
    variant: IconWithStatusVariant,
    activity_status: Option<ConversationStatus>,
) -> IconWithStatusVariant {
    match variant {
        IconWithStatusVariant::CLIAgent { agent, is_ambient, .. } => IconWithStatusVariant::CLIAgent {
            agent,
            status: activity_status,
            is_ambient,
        },
        other => other,
    }
}

/// The icon with the pane's activity status in place of the status it had,
/// so that a command-detected agent's icon follows the pane's activity.
pub fn agent_icon_variant_with_activity_status(
    variant: IconWithStatusVariant,
    activity_status: Option<ConversationStatus>,
) -> (result: IconWithStatusVariant)
    ensures
        result == spec_agent_icon_variant_with_activity_status(variant, activity_status),
        variant matches IconWithStatusVariant::CLIAgent { agent, is_ambient, .. } ==> result
            == (IconWithStatusVariant::CLIAgent { agent, status: activity_status, is_ambient }),
        variant is Terminal ==> result == variant,
{
    match variant {
        IconWithStatusVariant::CLIAgent { agent, is_ambient, .. } => IconWithStatusVariant::CLIAgent {
            agent,
            status: activity_status,
            is_ambient,
        },
        other => other,
    }
}

/// A CLI agent icon carries the pane's activity status, whatever status it
/// carried before, and keeps its agent and ambient flag; any other icon is
/// left as it is.
pub proof fn lemma_agent_icon_carries_activity_status(
    agent: CLIAgent,
    old_status: Option<ConversationStatus>,
    is_ambient: bool,
    activity_status: Option<ConversationStatus>,
)
    ensures
        spec_agent_icon_variant_with_activity_status(
            IconWithStatusVariant::CLIAgent { agent, status: old_status, is_ambient },
            activity_status,
        ) == (IconWithStatusVariant::CLIAgent { agent, status: activity_status, is_ambient }),
        spec_agent_icon_variant_with_activity_status(IconWithStatusVariant::Terminal, activity_status)
            == IconWithStatusVariant::Terminal,
{
}

/// Applying the activity status twice is the same as applying the last one:
/// the icon's old status never survives.
pub proof fn lemma_agent_icon_last_status_wins(
    variant: IconWithStatusVariant,
    first: Option<ConversationStatus>,
    second: Option<ConversationStatus>,
)
    ensures
        spec_agent_icon_variant_with_activity_status(
            spec_agent_icon_variant_with_activity_status(variant, first),
            second,
        ) == spec_agent_icon_variant_with_activity_status(variant, second),
{
}

} // verus!
