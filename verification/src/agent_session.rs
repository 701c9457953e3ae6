//! Agent conversations and CLI agent sessions, as far as pane activity needs
//! them.
use vstd::prelude::*;

verus! {

/// The status of an agent conversation.
#[derive(Debug, Clone, PartialEq, Eq)]
pub enum ConversationStatus {
    InProgress,
    Success,
    Error,
    TransientError,
    Cancelled,
    WaitingForEvents,
    Blocked { blocked_action: String },
}

/// The CLI agents that a terminal session can run.
#[derive(Debug, Clone, Copy, PartialEq, Eq, Structural)]
pub enum CLIAgent {
    Claude,
    Codex,
    OpenCode,
    Unknown,
}

/// The status a CLI agent session reports.
#[derive(Debug, Clone, PartialEq, Eq)]
pub enum CLIAgentSessionStatus {
    InProgress,
    Success,
    Blocked { message: String },
}

/// The conversation status that a CLI agent session status stands for.
pub open spec fn spec_to_conversation_status(status: CLIAgentSessionStatus) -> ConversationStatus {
    match status {
        CLIAgentSessionStatus::InProgress => ConversationStatus::InProgress,
        CLIAgentSessionStatus::Success => ConversationStatus::Success,
        CLIAgentSessionStatus::Blocked { message } => ConversationStatus::Blocked {
            blocked_action: message,
        },
    }
}

impl CLIAgentSessionStatus {
    /// The conversation status that this session status stands for.
    pub fn to_conversation_status(&self) -> (status: ConversationStatus)
        ensures
            status == spec_to_conversation_status(*self),
    {
        match self {
            CLIAgentSessionStatus::InProgress => ConversationStatus::InProgress,
            CLIAgentSessionStatus::Success => ConversationStatus::Success,
            CLIAgentSessionStatus::Blocked { message } => ConversationStatus::Blocked {
                blocked_action: message.clone(),
            },
        }
    }
}

/// What is known of the conversation held in a CLI agent session.
#[derive(Debug, Clone, PartialEq, Eq)]
pub struct CLIAgentSessionContext {
    /// The prompt the user last sent to the agent, if any.
    pub query: Option<String>,
}

impl CLIAgentSessionContext {
    /// The prompt the user last sent to the agent, if any.
    pub fn latest_user_prompt(&self) -> (prompt: Option<&String>)
        ensures
            prompt is Some <==> self.query is Some,
            prompt matches Some(p) ==> *p == self.query->0,
    {
        self.query.as_ref()
    }
}

/// A CLI agent running in a terminal session.
#[derive(Debug, Clone, PartialEq, Eq)]
pub struct CLIAgentSession {
    pub agent: CLIAgent,
    pub status: CLIAgentSessionStatus,
    pub session_context: CLIAgentSessionContext,
    /// Whether the agent has sent a structured status notification, after
    /// which its status is reported reliably.
    pub received_rich_notification: bool,
}

impl CLIAgentSession {
    /// Whether the session's status comes from structured notifications.
    pub open spec fn spec_supports_rich_status(&self) -> bool {
        self.received_rich_notification
    }

    /// Whether the session's status comes from structured notifications.
    pub fn supports_rich_status(&self) -> (rich: bool)
        ensures
            rich == self.spec_supports_rich_status(),
    {
        self.received_rich_notification
    }
}

} // verus!
