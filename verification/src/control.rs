//! Local control: actions, errors, and the checks that decide whether a
//! control request is served.
use vstd::prelude::*;
use vstd::string::*;
use crate::text::{decimal, owned, str_eq, u32_to_decimal};

verus! {

/// The local-control protocol version this app speaks.
pub const PROTOCOL_VERSION: u32 = 1;

/// Why a control request failed.
#[derive(Debug, Clone, Copy, PartialEq, Eq, Structural)]
pub enum ErrorCode {
    ProtocolVersionUnsupported,
    LocalControlDisabled,
    UnsupportedAction,
    InvalidSelector,
    InvalidParams,
    MissingTarget,
    Internal,
}

/// A failed control request: its code, a message and optional details.
#[derive(Debug, Clone, PartialEq, Eq)]
pub struct ControlError {
    pub code: ErrorCode,
    pub message: String,
    pub details: Option<String>,
}

impl ControlError {
    /// An error without details.
    pub fn new(code: ErrorCode, message: String) -> (e: ControlError)
        ensures
            e.code == code,
            e.message@ == message@,
            e.details is None,
    {
        ControlError { code, message, details: None }
    }

    /// An error with details.
    pub fn with_details(code: ErrorCode, message: String, details: String) -> (e: ControlError)
        ensures
            e.code == code,
            e.message@ == message@,
            e.details matches Some(d) && d@ == details@,
    {
        ControlError { code, message, details: Some(details) }
    }
}

/// The actions a control request can ask for.
#[derive(Debug, Clone, Copy, PartialEq, Eq, Structural)]
pub enum ActionKind {
    ActionList,
    AppActive,
    WindowList,
    WindowCreate,
    TabList,
    TabCreate,
    PaneList,
    PaneSplit,
    PaneFocus,
    SessionList,
    InputSendKeys,
    BlockList,
    BlockRead,
}

/// The canonical name of an action.
pub open spec fn spec_action_name(kind: ActionKind) -> Seq<char> {
    match kind {
        ActionKind::ActionList => "action.list"@,
        ActionKind::AppActive => "app.active"@,
        ActionKind::WindowList => "window.list"@,
        ActionKind::WindowCreate => "window.create"@,
        ActionKind::TabList => "tab.list"@,
        ActionKind::TabCreate => "tab.create"@,
        ActionKind::PaneList => "pane.list"@,
        ActionKind::PaneSplit => "pane.split"@,
        ActionKind::PaneFocus => "pane.focus"@,
        ActionKind::SessionList => "session.list"@,
        ActionKind::InputSendKeys => "input.send_keys"@,
        ActionKind::BlockList => "block.list"@,
        ActionKind::BlockRead => "block.read"@,
    }
}

/// Every action, in declaration order.
pub open spec fn spec_all_actions() -> Seq<ActionKind> {
    seq![
        ActionKind::ActionList,
        ActionKind::AppActive,
        ActionKind::WindowList,
        ActionKind::WindowCreate,
        ActionKind::TabList,
        ActionKind::TabCreate,
        ActionKind::PaneList,
        ActionKind::PaneSplit,
        ActionKind::PaneFocus,
        ActionKind::SessionList,
        ActionKind::InputSendKeys,
        ActionKind::BlockList,
        ActionKind::BlockRead,
    ]
}

/// The action whose canonical name is `name`, if any.
pub open spec fn spec_action_from_name(name: Seq<char>) -> Option<ActionKind> {
    if name == "action.list"@ {
        Some(ActionKind::ActionList)
    } else if name == "app.active"@ {
        Some(ActionKind::AppActive)
    } else if name == "window.list"@ {
        Some(ActionKind::WindowList)
    } else if name == "window.create"@ {
        Some(ActionKind::WindowCreate)
    } else if name == "tab.list"@ {
        Some(ActionKind::TabList)
    } else if name == "tab.create"@ {
        Some(ActionKind::TabCreate)
    } else if name == "pane.list"@ {
        Some(ActionKind::PaneList)
    } else if name == "pane.split"@ {
        Some(ActionKind::PaneSplit)
    } else if name == "pane.focus"@ {
        Some(ActionKind::PaneFocus)
    } else if name == "session.list"@ {
        Some(ActionKind::SessionList)
    } else if name == "input.send_keys"@ {
        Some(ActionKind::InputSendKeys)
    } else if name == "block.list"@ {
        Some(ActionKind::BlockList)
    } else if name == "block.read"@ {
        Some(ActionKind::BlockRead)
    } else {
        None
    }
}

impl ActionKind {
    /// Every action, in declaration order.
    pub fn all() -> (kinds: Vec<ActionKind>)
        ensures
            kinds@ == spec_all_actions(),
    {
        let kinds = vec![
            ActionKind::ActionList,
            ActionKind::AppActive,
            ActionKind::WindowList,
            ActionKind::WindowCreate,
            ActionKind::TabList,
            ActionKind::TabCreate,
            ActionKind::PaneList,
            ActionKind::PaneSplit,
            ActionKind::PaneFocus,
            ActionKind::SessionList,
            ActionKind::InputSendKeys,
            ActionKind::BlockList,
            ActionKind::BlockRead,
        ];
        assert(kinds@ =~= spec_all_actions());
        kinds
    }

    /// The canonical name of the action.
    pub fn as_str(self) -> (name: &'static str)
        ensures
            name@ == spec_action_name(self),
    {
        match self {
            ActionKind::ActionList => "action.list",
            ActionKind::AppActive => "app.active",
            ActionKind::WindowList => "window.list",
            ActionKind::WindowCreate => "window.create",
            ActionKind::TabList => "tab.list",
            ActionKind::TabCreate => "tab.create",
            ActionKind::PaneList => "pane.list",
            ActionKind::PaneSplit => "pane.split",
            ActionKind::PaneFocus => "pane.focus",
            ActionKind::SessionList => "session.list",
            ActionKind::InputSendKeys => "input.send_keys",
            ActionKind::BlockList => "block.list",
            ActionKind::BlockRead => "block.read",
        }
    }

    /// The action whose canonical name is `name`, if any.
    pub fn from_name(name: &str) -> (kind: Option<ActionKind>)
        ensures
            kind == spec_action_from_name(name@),
    {
        if str_eq(name, "action.list") {
            return Some(ActionKind::ActionList);
        }
        if str_eq(name, "app.active") {
            return Some(ActionKind::AppActive);
        }
        if str_eq(name, "window.list") {
            return Some(ActionKind::WindowList);
        }
        if str_eq(name, "window.create") {
            return Some(ActionKind::WindowCreate);
        }
        if str_eq(name, "tab.list") {
            return Some(ActionKind::TabList);
        }
        if str_eq(name, "tab.create") {
            return Some(ActionKind::TabCreate);
        }
        if str_eq(name, "pane.list") {
            return Some(ActionKind::PaneList);
        }
        if str_eq(name, "pane.split") {
            return Some(ActionKind::PaneSplit);
        }
        if str_eq(name, "pane.focus") {
            return Some(ActionKind::PaneFocus);
        }
        if str_eq(name, "session.list") {
            return Some(ActionKind::SessionList);
        }
        if str_eq(name, "input.send_keys") {
            return Some(ActionKind::InputSendKeys);
        }
        if str_eq(name, "block.list") {
            return Some(ActionKind::BlockList);
        }
        if str_eq(name, "block.read") {
            return Some(ActionKind::BlockRead);
        }
        None
    }
}

/// An action's name leads back to the action, and whatever action a name
/// leads to has that name.
pub proof fn lemma_action_name_round_trip(kind: ActionKind, name: Seq<char>)
    ensures
        spec_action_from_name(spec_action_name(kind)) == Some(kind),
        spec_action_from_name(name) matches Some(k) ==> spec_action_name(k) == name,
{
    reveal_strlit("action.list");
    reveal_strlit("app.active");
    reveal_strlit("window.list");
    reveal_strlit("window.create");
    reveal_strlit("tab.list");
    reveal_strlit("tab.create");
    reveal_strlit("pane.list");
    reveal_strlit("pane.split");
    reveal_strlit("pane.focus");
    reveal_strlit("session.list");
    reveal_strlit("input.send_keys");
    reveal_strlit("block.list");
    reveal_strlit("block.read");
    match kind {
        ActionKind::ActionList => {
        },
        ActionKind::AppActive => {
            assert("app.active"@.len() != "action.list"@.len());
        },
        ActionKind::WindowList => {
            assert("window.list"@[0] != "action.list"@[0]);
            assert("window.list"@.len() != "app.active"@.len());
        },
        ActionKind::WindowCreate => {
            assert("window.create"@.len() != "action.list"@.len());
            assert("window.create"@.len() != "app.active"@.len());
            assert("window.create"@.len() != "window.list"@.len());
        },
        ActionKind::TabList => {
            assert("tab.list"@.len() != "action.list"@.len());
            assert("tab.list"@.len() != "app.active"@.len());
            assert("tab.list"@.len() != "window.list"@.len());
            assert("tab.list"@.len() != "window.create"@.len());
        },
        ActionKind::TabCreate => {
            assert("tab.create"@.len() != "action.list"@.len());
            assert("tab.create"@[0] != "app.active"@[0]);
            assert("tab.create"@.len() != "window.list"@.len());
            assert("tab.create"@.len() != "window.create"@.len());
            assert("tab.create"@.len() != "tab.list"@.len());
        },
        ActionKind::PaneList => {
            assert("pane.list"@.len() != "action.list"@.len());
            assert("pane.list"@.len() != "app.active"@.len());
            assert("pane.list"@.len() != "window.list"@.len());
            assert("pane.list"@.len() != "window.create"@.len());
            assert("pane.list"@.len() != "tab.list"@.len());
            assert("pane.list"@.len() != "tab.create"@.len());
        },
        ActionKind::PaneSplit => {
            assert("pane.split"@.len() != "action.list"@.len());
            assert("pane.split"@[0] != "app.active"@[0]);
            assert("pane.split"@.len() != "window.list"@.len());
            assert("pane.split"@.len() != "window.create"@.len());
            assert("pane.split"@.len() != "tab.list"@.len());
            assert("pane.split"@[0] != "tab.create"@[0]);
            assert("pane.split"@.len() != "pane.list"@.len());
        },
        ActionKind::PaneFocus => {
            assert("pane.focus"@.len() != "action.list"@.len());
            assert("pane.focus"@[0] != "app.active"@[0]);
            assert("pane.focus"@.len() != "window.list"@.len());
            assert("pane.focus"@.len() != "window.create"@.len());
            assert("pane.focus"@.len() != "tab.list"@.len());
            assert("pane.focus"@[0] != "tab.create"@[0]);
            assert("pane.focus"@.len() != "pane.list"@.len());
            assert("pane.focus"@[5] != "pane.split"@[5]);
        },
        ActionKind::SessionList => {
            assert("session.list"@.len() != "action.list"@.len());
            assert("session.list"@.len() != "app.active"@.len());
            assert("session.list"@.len() != "window.list"@.len());
            assert("session.list"@.len() != "window.create"@.len());
            assert("session.list"@.len() != "tab.list"@.len());
            assert("session.list"@.len() != "tab.create"@.len());
            assert("session.list"@.len() != "pane.list"@.len());
            assert("session.list"@.len() != "pane.split"@.len());
            assert("session.list"@.len() != "pane.focus"@.len());
        },
        ActionKind::InputSendKeys => {
            assert("input.send_keys"@.len() != "action.list"@.len());
            assert("input.send_keys"@.len() != "app.active"@.len());
            assert("input.send_keys"@.len() != "window.list"@.len());
            assert("input.send_keys"@.len() != "window.create"@.len());
            assert("input.send_keys"@.len() != "tab.list"@.len());
            assert("input.send_keys"@.len() != "tab.create"@.len());
            assert("input.send_keys"@.len() != "pane.list"@.len());
            assert("input.send_keys"@.len() != "pane.split"@.len());
            assert("input.send_keys"@.len() != "pane.focus"@.len());
            assert("input.send_keys"@.len() != "session.list"@.len());
        },
        ActionKind::BlockList => {
            assert("block.list"@.len() != "action.list"@.len());
            assert("block.list"@[0] != "app.active"@[0]);
            assert("block.list"@.len() != "window.list"@.len());
            assert("block.list"@.len() != "window.create"@.len());
            assert("block.list"@.len() != "tab.list"@.len());
            assert("block.list"@[0] != "tab.create"@[0]);
            assert("block.list"@.len() != "pane.list"@.len());
            assert("block.list"@[0] != "pane.split"@[0]);
            assert("block.list"@[0] != "pane.focus"@[0]);
            assert("block.list"@.len() != "session.list"@.len());
            assert("block.list"@.len() != "input.send_keys"@.len());
        },
        ActionKind::BlockRead => {
            assert("block.read"@.len() != "action.list"@.len());
            assert("block.read"@[0] != "app.active"@[0]);
            assert("block.read"@.len() != "window.list"@.len());
            assert("block.read"@.len() != "window.create"@.len());
            assert("block.read"@.len() != "tab.list"@.len());
            assert("block.read"@[0] != "tab.create"@[0]);
            assert("block.read"@.len() != "pane.list"@.len());
            assert("block.read"@[0] != "pane.split"@[0]);
            assert("block.read"@[0] != "pane.focus"@[0]);
            assert("block.read"@.len() != "session.list"@.len());
            assert("block.read"@.len() != "input.send_keys"@.len());
            assert("block.read"@[6] != "block.list"@[6]);
        },
    }
}

/// The actions the app serves, in declaration order: every action of
/// `ActionKind` is served.
pub fn capabilities() -> (kinds: Vec<ActionKind>)
    ensures
        kinds@ == spec_all_actions(),
{
    ActionKind::all()
}

/// The message of a protocol version mismatch.
pub open spec fn protocol_version_message(version: u32) -> Seq<char> {
    "unsupported protocol version "@ + decimal(version as nat)
}

/// Accepts a request of this app's protocol version and refuses any other.
pub fn ensure_protocol_version(protocol_version: u32) -> (r: Result<(), ControlError>)
    ensures
        r is Ok <==> protocol_version == PROTOCOL_VERSION,
        r matches Err(e) ==> e.code == ErrorCode::ProtocolVersionUnsupported
            && e.message@ == protocol_version_message(protocol_version) && e.details is None,
{
    if protocol_version == PROTOCOL_VERSION {
        return Ok(());
    }
    let mut message = owned("unsupported protocol version ");
    let digits = u32_to_decimal(protocol_version);
    message.append(digits.as_str());
    Err(ControlError::new(ErrorCode::ProtocolVersionUnsupported, message))
}

/// Accepts a request where the control CLI feature is enabled.
pub fn ensure_feature_enabled(warp_control_cli_enabled: bool) -> (r: Result<(), ControlError>)
    ensures
        r is Ok <==> warp_control_cli_enabled,
        r matches Err(e) ==> e.code == ErrorCode::LocalControlDisabled && e.message@
            == "Warp control CLI is disabled by feature flag"@ && e.details is None,
{
    if warp_control_cli_enabled {
        return Ok(());
    }
    Err(
        ControlError::new(
            ErrorCode::LocalControlDisabled,
            owned("Warp control CLI is disabled by feature flag"),
        ),
    )
}

/// Accepts a request where the control runtime runs: the control CLI feature
/// or the built-in MCP server is enabled.
pub fn ensure_control_runtime_enabled(warp_control_cli_enabled: bool, warp_control_mcp_enabled: bool) -> (r: Result<(), ControlError>)
    ensures
        r is Ok <==> (warp_control_cli_enabled || warp_control_mcp_enabled),
        r matches Err(e) ==> e.code == ErrorCode::LocalControlDisabled && e.message@
            == "Warp control is disabled"@ && e.details is None,
{
    if warp_control_cli_enabled || warp_control_mcp_enabled {
        return Ok(());
    }
    Err(ControlError::new(ErrorCode::LocalControlDisabled, owned("Warp control is disabled")))
}

/// The message of an action refused because local control is off.
pub open spec fn access_disabled_message(action: ActionKind) -> Seq<char> {
    spec_action_name(action) + " is disabled for local control and the built-in Warp MCP server"@
}

/// Accepts an action where local control or the built-in MCP server is
/// enabled.
pub fn ensure_control_access_allowed(
    local_control_enabled: bool,
    warp_control_mcp_enabled: bool,
    action: ActionKind,
) -> (r: Result<(), ControlError>)
    ensures
        r is Ok <==> (local_control_enabled || warp_control_mcp_enabled),
        r matches Err(e) ==> e.code == ErrorCode::LocalControlDisabled && e.message@
            == access_disabled_message(action) && e.details is None,
{
    if !local_control_enabled && !warp_control_mcp_enabled {
        let mut message = owned(action.as_str());
        message.append(" is disabled for local control and the built-in Warp MCP server");
        return Err(ControlError::new(ErrorCode::LocalControlDisabled, message));
    }
    Ok(())
}

/// Accepts an action by the local control settings alone.
pub fn ensure_settings_allow_action(local_control_enabled: bool, action: ActionKind) -> (r: Result<
    (),
    ControlError,
>)
    ensures
        r is Ok <==> local_control_enabled,
        r matches Err(e) ==> e.code == ErrorCode::LocalControlDisabled && e.message@
            == access_disabled_message(action) && e.details is None,
{
    ensure_control_access_allowed(local_control_enabled, false, action)
}

/// Accepts an action by the local control and MCP server settings.
pub fn ensure_action_allowed(
    local_control_enabled: bool,
    warp_control_mcp_enabled: bool,
    action: ActionKind,
) -> (r: Result<(), ControlError>)
    ensures
        r is Ok <==> (local_control_enabled || warp_control_mcp_enabled),
        r matches Err(e) ==> e.code == ErrorCode::LocalControlDisabled && e.message@
            == access_disabled_message(action) && e.details is None,
{
    ensure_control_access_allowed(local_control_enabled, warp_control_mcp_enabled, action)
}

/// The canonical name of every action.
pub proof fn lemma_action_names()
    ensures
        spec_action_name(ActionKind::ActionList) == "action.list"@,
        spec_action_name(ActionKind::AppActive) == "app.active"@,
        spec_action_name(ActionKind::WindowList) == "window.list"@,
        spec_action_name(ActionKind::WindowCreate) == "window.create"@,
        spec_action_name(ActionKind::TabList) == "tab.list"@,
        spec_action_name(ActionKind::TabCreate) == "tab.create"@,
        spec_action_name(ActionKind::PaneList) == "pane.list"@,
        spec_action_name(ActionKind::PaneSplit) == "pane.split"@,
        spec_action_name(ActionKind::PaneFocus) == "pane.focus"@,
        spec_action_name(ActionKind::SessionList) == "session.list"@,
        spec_action_name(ActionKind::InputSendKeys) == "input.send_keys"@,
        spec_action_name(ActionKind::BlockList) == "block.list"@,
        spec_action_name(ActionKind::BlockRead) == "block.read"@,
{
}

/// The message refusing an action begins with the action's name.
pub proof fn lemma_access_disabled_message_names_action(action: ActionKind)
    ensures
        access_disabled_message(action).subrange(0, spec_action_name(action).len() as int)
            == spec_action_name(action),
{
    assert(access_disabled_message(action).subrange(0, spec_action_name(action).len() as int)
        =~= spec_action_name(action));
}

} // verus!
