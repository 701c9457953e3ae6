//! The built-in MCP server's decisions: which Warp instance a tool call goes
//! to, and the control parameters that each tool's arguments stand for.
use vstd::prelude::*;
use vstd::string::*;
use crate::control::{spec_action_from_name, ActionKind, ControlError, ErrorCode};
use crate::text::{
    digits_value, is_white_space, lemma_trimmed_shape, owned, parse_int_error_text, parse_u32,
    parses_as_u32, str_eq, trim, trimmed, unsigned_digits,
};

verus! {

/// The command-line flag that starts the app as an MCP server.
pub const MCP_SERVER_MODE_FLAG: &'static str = "--warp-mcp-server";

/// The environment variable naming the default Warp instance by id.
pub const DEFAULT_INSTANCE_ID_ENV: &'static str = "WARP_MCP_DEFAULT_INSTANCE_ID";

/// The environment variable naming the default Warp instance by process id.
pub const DEFAULT_PID_ENV: &'static str = "WARP_MCP_DEFAULT_PID";

/// Declares `serde_json::Value`, the JSON that tool arguments carry through
/// unchanged.
#[verifier::external_type_specification]
#[verifier::external_body]
pub struct ExJsonValue(serde_json::Value);

/// The id of a running Warp instance.
#[derive(Debug, Clone, PartialEq, Eq)]
pub struct InstanceId(pub String);

/// Which running Warp instance a request goes to.
#[derive(Debug, Clone, PartialEq, Eq)]
pub enum InstanceSelector {
    Id(InstanceId),
    Pid(u32),
    Active,
}

/// The instance arguments of a tool.
pub struct InstanceParams {
    pub instance_id: Option<String>,
    pub pid: Option<u32>,
}

/// The arguments of a tool that takes only a target.
pub struct TargetOnlyParams {
    pub instance_id: Option<String>,
    pub pid: Option<u32>,
    pub target: Option<serde_json::Value>,
}

/// The arguments of the generic control tool.
pub struct WarpControlParams {
    pub action: String,
    pub params: Option<serde_json::Value>,
    pub target: Option<serde_json::Value>,
    pub instance_id: Option<String>,
    pub pid: Option<u32>,
}

/// The kind of tab a tool creates.
#[derive(Debug, Clone, Copy, PartialEq, Eq, Structural)]
pub enum McpTabType {
    Terminal,
    Agent,
    CloudAgent,
    Default,
}

/// The arguments of the window and tab creation tools.
pub struct CreateTabParams {
    pub tab_type: Option<McpTabType>,
    pub shell: Option<String>,
    pub target: Option<serde_json::Value>,
    pub instance_id: Option<String>,
    pub pid: Option<u32>,
}

/// The arguments of the pane split tool.
pub struct DirectionToolParams {
    pub direction: String,
    pub target: Option<serde_json::Value>,
    pub instance_id: Option<String>,
    pub pid: Option<u32>,
}

/// The arguments of the key sending tool.
pub struct SendKeysParams {
    pub text: Option<String>,
    pub keys: Vec<String>,
    pub target: Option<serde_json::Value>,
    pub instance_id: Option<String>,
    pub pid: Option<u32>,
}

/// The arguments of the block listing tool.
pub struct ListBlocksParams {
    pub limit: Option<u32>,
    pub include_hidden: Option<bool>,
    pub include_output: Option<bool>,
    pub max_output_chars: Option<usize>,
    pub target: Option<serde_json::Value>,
    pub instance_id: Option<String>,
    pub pid: Option<u32>,
}

/// The arguments of the block reading tool.
pub struct ReadBlockParams {
    pub block_id: Option<String>,
    pub index: Option<u32>,
    pub include_output: Option<bool>,
    pub max_output_chars: Option<usize>,
    pub target: Option<serde_json::Value>,
    pub instance_id: Option<String>,
    pub pid: Option<u32>,
}

/// The kind of tab a control request creates.
#[derive(Debug, Clone, Copy, PartialEq, Eq, Structural)]
pub enum TabType {
    Terminal,
    Agent,
    CloudAgent,
    Default,
}

/// The parameters of a window or tab creation request.
#[derive(Debug, Clone, PartialEq, Eq)]
pub struct TabCreateParams {
    pub tab_type: Option<TabType>,
    pub shell: Option<String>,
}

/// A direction to split or move in.
#[derive(Debug, Clone, Copy, PartialEq, Eq, Structural)]
pub enum Direction {
    Left,
    Right,
    Up,
    Down,
    Previous,
    Next,
}

/// The parameters of a pane split request.
#[derive(Debug, Clone, Copy, PartialEq, Eq, Structural)]
pub struct DirectionParams {
    pub direction: Direction,
}

/// The parameters of a key sending request.
#[derive(Debug, Clone, PartialEq, Eq)]
pub struct KeySequenceParams {
    pub keys: Vec<String>,
    pub text: Option<String>,
}

/// The parameters of a block listing request.
#[derive(Debug, Clone, Copy, PartialEq, Eq, Structural)]
pub struct BlockQueryParams {
    pub limit: Option<u32>,
    pub include_hidden: bool,
    pub include_output: bool,
    pub max_output_chars: Option<usize>,
}

/// The parameters of a block reading request.
#[derive(Debug, Clone, PartialEq, Eq)]
pub struct BlockReadParams {
    pub block_id: Option<String>,
    pub index: Option<u32>,
    pub include_output: bool,
    pub max_output_chars: Option<usize>,
}

/// The view of an optional string.
pub open spec fn opt_string_view(s: Option<String>) -> Option<Seq<char>> {
    match s {
        Some(t) => Some(t@),
        None => None,
    }
}

/// The message of a request that names an instance both by id and by pid.
pub open spec fn conflicting_selector_message() -> Seq<char> {
    "instance_id and pid cannot both be set"@
}

/// The message of an environment that names a default instance both by id
/// and by pid.
pub open spec fn conflicting_default_message() -> Seq<char> {
    "WARP_MCP_DEFAULT_INSTANCE_ID and WARP_MCP_DEFAULT_PID cannot both be set"@
}

/// The instance a request goes to: the one it names, by id or by pid; where
/// it names none, the default one, by id or by pid; where there is none, the
/// active one. Naming an instance both ways, in the request or in the
/// defaults, is an error.
pub open spec fn spec_instance_selector(
    instance_id: Option<Seq<char>>,
    pid: Option<u32>,
    default_instance_id: Option<Seq<char>>,
    default_pid: Option<u32>,
) -> Option<SelectorView> {
    match (instance_id, pid) {
        (Some(_), Some(_)) => None,
        (Some(id), None) => Some(SelectorView::Id(id)),
        (None, Some(p)) => Some(SelectorView::Pid(p)),
        (None, None) => match (default_instance_id, default_pid) {
            (Some(_), Some(_)) => None,
            (Some(id), None) => Some(SelectorView::Id(id)),
            (None, Some(p)) => Some(SelectorView::Pid(p)),
            (None, None) => Some(SelectorView::Active),
        },
    }
}

/// An instance selector as plain values.
pub enum SelectorView {
    Id(Seq<char>),
    Pid(u32),
    Active,
}

impl View for InstanceSelector {
    type V = SelectorView;

    open spec fn view(&self) -> SelectorView {
        match self {
            InstanceSelector::Id(id) => SelectorView::Id(id.0@),
            InstanceSelector::Pid(p) => SelectorView::Pid(*p),
            InstanceSelector::Active => SelectorView::Active,
        }
    }
}

/// The instance a request goes to (see `spec_instance_selector`).
pub fn instance_selector_with_defaults(
    instance_id: Option<String>,
    pid: Option<u32>,
    default_instance_id: Option<String>,
    default_pid: Option<u32>,
) -> (r: Result<InstanceSelector, ControlError>)
    ensures
        match spec_instance_selector(
            opt_string_view(instance_id),
            pid,
            opt_string_view(default_instance_id),
            default_pid,
        ) {
            Some(sel) => r matches Ok(s) && s@ == sel,
            None => r matches Err(e) && e.code == ErrorCode::InvalidSelector && e.details is None
                && e.message@ == (if instance_id is Some && pid is Some {
                conflicting_selector_message()
            } else {
                conflicting_default_message()
            }),
        },
{
    match (instance_id, pid) {
        (Some(_), Some(_)) => Err(
            ControlError::new(
                ErrorCode::InvalidSelector,
                owned("instance_id and pid cannot both be set"),
            ),
        ),
        (Some(instance_id), None) => Ok(InstanceSelector::Id(InstanceId(instance_id))),
        (None, Some(pid)) => Ok(InstanceSelector::Pid(pid)),
        (None, None) => match (default_instance_id, default_pid) {
            (Some(_), Some(_)) => Err(
                ControlError::new(
                    ErrorCode::InvalidSelector,
                    owned("WARP_MCP_DEFAULT_INSTANCE_ID and WARP_MCP_DEFAULT_PID cannot both be set"),
                ),
            ),
            (Some(instance_id), None) => Ok(InstanceSelector::Id(InstanceId(instance_id))),
            (None, Some(pid)) => Ok(InstanceSelector::Pid(pid)),
            (None, None) => Ok(InstanceSelector::Active),
        },
    }
}

/// An environment value as a setting: trimmed, and absent where it is empty.
pub open spec fn spec_env_setting(raw: Option<Seq<char>>) -> Option<Seq<char>> {
    match raw {
        Some(v) => if trimmed(v).len() > 0 {
            Some(trimmed(v))
        } else {
            None
        },
        None => None,
    }
}

/// An environment value as a setting: trimmed, and absent where it is empty.
fn env_setting(raw: Option<String>) -> (r: Option<String>)
    ensures
        opt_string_view(r) == spec_env_setting(opt_string_view(raw)),
{
    match raw {
        Some(value) => {
            let t = trim(value.as_str());
            if t.is_empty() {
                None
            } else {
                Some(owned(t))
            }
        },
        None => None,
    }
}

/// The default instance id, from the raw value of its environment variable.
pub fn default_instance_id_from_env_value(raw: Option<String>) -> (id: Option<String>)
    ensures
        opt_string_view(id) == spec_env_setting(opt_string_view(raw)),
{
    env_setting(raw)
}

/// The message of a default pid that is no process id.
pub open spec fn invalid_default_pid_message() -> Seq<char> {
    "WARP_MCP_DEFAULT_PID must be a process id"@
}

/// The default process id, from the raw value of its environment variable:
/// none where it is unset or blank; its value where it is a `u32`; otherwise
/// an error.
pub fn default_pid_from_env_value(raw: Option<String>) -> (r: Result<Option<u32>, ControlError>)
    ensures
        match spec_env_setting(opt_string_view(raw)) {
            None => r == Ok::<Option<u32>, ControlError>(None),
            Some(v) => if parses_as_u32(v) {
                r matches Ok(Some(p)) && p == digits_value(unsigned_digits(v))
            } else {
                r matches Err(e) && e.code == ErrorCode::InvalidSelector && e.message@
                    == invalid_default_pid_message() && e.details is Some
            },
        },
{
    let value = match env_setting(raw) {
        Some(v) => v,
        None => return Ok(None),
    };
    match parse_u32(value.as_str()) {
        Ok(pid) => Ok(Some(pid)),
        Err(err) => Err(
            ControlError::with_details(
                ErrorCode::InvalidSelector,
                owned("WARP_MCP_DEFAULT_PID must be a process id"),
                parse_int_error_text(&err),
            ),
        ),
    }
}

/// The instance a request goes to, where the defaults come from the raw
/// values of their environment variables.
pub fn instance_selector(
    instance_id: Option<String>,
    pid: Option<u32>,
    raw_default_instance_id: Option<String>,
    raw_default_pid: Option<String>,
) -> (r: Result<InstanceSelector, ControlError>)
    ensures
        match default_pid_from_env_value_spec(opt_string_view(raw_default_pid)) {
            None => r matches Err(e) && e.code == ErrorCode::InvalidSelector && e.message@
                == invalid_default_pid_message() && e.details is Some,
            Some(default_pid) => match spec_instance_selector(
                opt_string_view(instance_id),
                pid,
                spec_env_setting(opt_string_view(raw_default_instance_id)),
                default_pid,
            ) {
                Some(sel) => r matches Ok(s) && s@ == sel,
                None => r matches Err(e) && e.code == ErrorCode::InvalidSelector && e.details is None
                    && e.message@ == (if instance_id is Some && pid is Some {
                    conflicting_selector_message()
                } else {
                    conflicting_default_message()
                }),
            },
        },
{
    let default_instance_id = default_instance_id_from_env_value(raw_default_instance_id);
    let default_pid = match default_pid_from_env_value(raw_default_pid) {
        Ok(p) => p,
        Err(e) => return Err(e),
    };
    instance_selector_with_defaults(instance_id, pid, default_instance_id, default_pid)
}

/// The default pid that a raw environment value stands for; `None` where the
/// value is no process id.
pub open spec fn default_pid_from_env_value_spec(raw: Option<Seq<char>>) -> Option<Option<u32>> {
    match spec_env_setting(raw) {
        None => Some(None),
        Some(v) => if parses_as_u32(v) {
            Some(Some(digits_value(unsigned_digits(v)) as u32))
        } else {
            None
        },
    }
}

/// The message of a control action name that names no action.
pub open spec fn unknown_action_message(name: Seq<char>) -> Seq<char> {
    "unknown Warp control action `"@ + name + "`"@
}

/// The action that the generic control tool's action name stands for.
pub fn resolve_control_action(name: &str) -> (r: Result<ActionKind, ControlError>)
    ensures
        match spec_action_from_name(name@) {
            Some(kind) => r == Ok::<ActionKind, ControlError>(kind),
            None => r matches Err(e) && e.code == ErrorCode::UnsupportedAction && e.message@
                == unknown_action_message(name@) && e.details is None,
        },
{
    let action = match ActionKind::from_name(name) {
        Some(a) => a,
        None => {
            let mut message = owned("unknown Warp control action `");
            message.append(name);
            message.append("`");
            return Err(ControlError::new(ErrorCode::UnsupportedAction, message));
        },
    };
    Ok(action)
}

/// The control tab type that a tool's tab type stands for.
pub open spec fn spec_tab_type(t: McpTabType) -> TabType {
    match t {
        McpTabType::Terminal => TabType::Terminal,
        McpTabType::Agent => TabType::Agent,
        McpTabType::CloudAgent => TabType::CloudAgent,
        McpTabType::Default => TabType::Default,
    }
}

/// The parameters of a window or tab creation request: the tool's tab type
/// and shell.
pub fn tab_create_params(params: &CreateTabParams) -> (r: Result<TabCreateParams, ControlError>)
    ensures
        r matches Ok(p) && p.tab_type == (match params.tab_type {
            Some(t) => Some(spec_tab_type(t)),
            None => None,
        }) && p.shell == params.shell,
{
    let tab_type = match params.tab_type {
        Some(McpTabType::Terminal) => Some(TabType::Terminal),
        Some(McpTabType::Agent) => Some(TabType::Agent),
        Some(McpTabType::CloudAgent) => Some(TabType::CloudAgent),
        Some(McpTabType::Default) => Some(TabType::Default),
        None => None,
    };
    let shell = match &params.shell {
        Some(s) => Some(s.clone()),
        None => None,
    };
    Ok(TabCreateParams { tab_type, shell })
}

/// The direction that a direction name stands for.
pub open spec fn spec_direction(name: Seq<char>) -> Option<Direction> {
    if name == "left"@ {
        Some(Direction::Left)
    } else if name == "right"@ {
        Some(Direction::Right)
    } else if name == "up"@ {
        Some(Direction::Up)
    } else if name == "down"@ {
        Some(Direction::Down)
    } else if name == "previous"@ {
        Some(Direction::Previous)
    } else if name == "next"@ {
        Some(Direction::Next)
    } else {
        None
    }
}

/// The message of a direction name that names no direction.
pub open spec fn invalid_direction_message() -> Seq<char> {
    "direction must be left, right, up, down, previous, or next"@
}

/// The parameters of a pane split request: the direction the tool names.
pub fn direction_params(params: &DirectionToolParams) -> (r: Result<DirectionParams, ControlError>)
    ensures
        match spec_direction(params.direction@) {
            Some(d) => r == Ok::<DirectionParams, ControlError>(DirectionParams { direction: d }),
            None => r matches Err(e) && e.code == ErrorCode::InvalidParams && e.message@
                == invalid_direction_message() && e.details is None,
        },
{
    let name = params.direction.as_str();
    let direction = if str_eq(name, "left") {
        Direction::Left
    } else if str_eq(name, "right") {
        Direction::Right
    } else if str_eq(name, "up") {
        Direction::Up
    } else if str_eq(name, "down") {
        Direction::Down
    } else if str_eq(name, "previous") {
        Direction::Previous
    } else if str_eq(name, "next") {
        Direction::Next
    } else {
        return Err(
            ControlError::new(
                ErrorCode::InvalidParams,
                owned("direction must be left, right, up, down, previous, or next"),
            ),
        );
    };
    Ok(DirectionParams { direction })
}

/// The parameters of a key sending request: the tool's keys and text.
pub fn key_sequence_params(keys: Vec<String>, text: Option<String>) -> (r: KeySequenceParams)
    ensures
        r.keys == keys,
        r.text == text,
{
    KeySequenceParams { keys, text }
}

/// The parameters of a block listing request: hidden blocks and output are
/// left out unless the tool asks for them.
pub fn block_query_params(params: &ListBlocksParams) -> (r: BlockQueryParams)
    ensures
        r.limit == params.limit,
        r.include_hidden == (params.include_hidden == Some(true)),
        r.include_output == (params.include_output == Some(true)),
        r.max_output_chars == params.max_output_chars,
{
    BlockQueryParams {
        limit: params.limit,
        include_hidden: match params.include_hidden {
            Some(b) => b,
            None => false,
        },
        include_output: match params.include_output {
            Some(b) => b,
            None => false,
        },
        max_output_chars: params.max_output_chars,
    }
}

/// The parameters of a block reading request: output is included unless the
/// tool asks to leave it out.
pub fn block_read_params(params: &ReadBlockParams) -> (r: BlockReadParams)
    ensures
        r.block_id == params.block_id,
        r.index == params.index,
        r.include_output == (params.include_output != Some(false)),
        r.max_output_chars == params.max_output_chars,
{
    BlockReadParams {
        block_id: match &params.block_id {
            Some(s) => Some(s.clone()),
            None => None,
        },
        index: params.index,
        include_output: match params.include_output {
            Some(b) => b,
            None => true,
        },
        max_output_chars: params.max_output_chars,
    }
}

/// The actions whose results make up the active context, in the order of its
/// parts: the active chain, then windows, tabs, panes and sessions.
pub open spec fn spec_active_context_actions() -> Seq<ActionKind> {
    seq![
        ActionKind::AppActive,
        ActionKind::WindowList,
        ActionKind::TabList,
        ActionKind::PaneList,
        ActionKind::SessionList,
    ]
}

/// The key under which each part of the active context is reported, in the
/// order of `spec_active_context_actions`.
pub open spec fn spec_active_context_keys() -> Seq<Seq<char>> {
    seq!["active"@, "windows"@, "tabs"@, "panes"@, "sessions"@]
}

/// What gathering the active context does next.
#[derive(Debug, Clone, Copy, PartialEq, Eq)]
pub enum ActiveContextStep {
    /// Send `action` and report its result under `key`.
    Request { action: ActionKind, key: &'static str },
    /// Every part is gathered: answer with all of them.
    Finished,
    /// A request failed: answer with its error and send nothing more.
    Stop,
}

/// The next step of gathering the active context, after `completed` parts
/// were gathered and, where `failed`, the last request failed. The parts are
/// requested one at a time in the order of `spec_active_context_actions`; the
/// first failure ends the gathering.
pub fn active_context_step(completed: usize, failed: bool) -> (step: ActiveContextStep)
    ensures
        failed ==> step == ActiveContextStep::Stop,
        !failed && completed < 5 ==> (step matches ActiveContextStep::Request { action, key }
            && action == spec_active_context_actions()[completed as int] && key@
            == spec_active_context_keys()[completed as int]),
        !failed && completed >= 5 ==> step == ActiveContextStep::Finished,
{
    if failed {
        return ActiveContextStep::Stop;
    }
    match completed {
        0 => ActiveContextStep::Request { action: ActionKind::AppActive, key: "active" },
        1 => ActiveContextStep::Request { action: ActionKind::WindowList, key: "windows" },
        2 => ActiveContextStep::Request { action: ActionKind::TabList, key: "tabs" },
        3 => ActiveContextStep::Request { action: ActionKind::PaneList, key: "panes" },
        4 => ActiveContextStep::Request { action: ActionKind::SessionList, key: "sessions" },
        _ => ActiveContextStep::Finished,
    }
}

/// The active context is gathered from five distinct requests reported under
/// five distinct keys.
pub proof fn lemma_active_context_parts_distinct(i: int, j: int)
    requires
        0 <= i < j < 5,
    ensures
        spec_active_context_actions()[i] != spec_active_context_actions()[j],
        spec_active_context_keys()[i] != spec_active_context_keys()[j],
{
    reveal_strlit("active");
    reveal_strlit("windows");
    reveal_strlit("tabs");
    reveal_strlit("panes");
    reveal_strlit("sessions");
    assert("active"@.len() != "windows"@.len());
    assert("active"@.len() != "tabs"@.len());
    assert("active"@.len() != "panes"@.len());
    assert("active"@.len() != "sessions"@.len());
    assert("windows"@.len() != "tabs"@.len());
    assert("windows"@.len() != "panes"@.len());
    assert("windows"@.len() != "sessions"@.len());
    assert("tabs"@.len() != "panes"@.len());
    assert("tabs"@.len() != "sessions"@.len());
    assert("panes"@.len() != "sessions"@.len());
}

/// An instance that the request itself names wins over the defaults, and a
/// request that names an instance both by id and by pid is refused whatever
/// the defaults are.
pub proof fn lemma_explicit_selector_overrides_defaults(
    instance_id: Option<Seq<char>>,
    pid: Option<u32>,
    default_instance_id: Option<Seq<char>>,
    default_pid: Option<u32>,
)
    requires
        instance_id is Some || pid is Some,
    ensures
        spec_instance_selector(instance_id, pid, default_instance_id, default_pid)
            == spec_instance_selector(instance_id, pid, None, None),
        (instance_id is Some && pid is Some) ==> spec_instance_selector(
            instance_id,
            pid,
            default_instance_id,
            default_pid,
        ) is None,
{
}

/// A request that names no instance, in an environment that names none,
/// goes to the active instance.
pub proof fn lemma_no_selector_means_active()
    ensures
        spec_instance_selector(None, None, None, None) == Some(SelectorView::Active),
{
}

/// Every direction has one name, and names lead to directions one to one.
pub proof fn lemma_direction_names(name: Seq<char>, other: Seq<char>)
    ensures
        spec_direction("left"@) == Some(Direction::Left),
        spec_direction("right"@) == Some(Direction::Right),
        spec_direction("up"@) == Some(Direction::Up),
        spec_direction("down"@) == Some(Direction::Down),
        spec_direction("previous"@) == Some(Direction::Previous),
        spec_direction("next"@) == Some(Direction::Next),
        spec_direction(name) is Some && spec_direction(name) == spec_direction(other) ==> name
            == other,
{
    reveal_strlit("left");
    reveal_strlit("right");
    reveal_strlit("up");
    reveal_strlit("down");
    reveal_strlit("previous");
    reveal_strlit("next");
    assert("right"@.len() != "left"@.len());
    assert("up"@.len() != "left"@.len());
    assert("up"@.len() != "right"@.len());
    assert("down"@[0] != "left"@[0]);
    assert("down"@.len() != "right"@.len());
    assert("down"@.len() != "up"@.len());
    assert("previous"@.len() != "left"@.len());
    assert("previous"@.len() != "right"@.len());
    assert("previous"@.len() != "up"@.len());
    assert("previous"@.len() != "down"@.len());
    assert("next"@[0] != "left"@[0]);
    assert("next"@.len() != "right"@.len());
    assert("next"@.len() != "up"@.len());
    assert("next"@[0] != "down"@[0]);
    assert("next"@.len() != "previous"@.len());
}

/// Which instance a request goes to, case by case: the instance the request
/// names by id or by pid; where it names none, the default named by id or by
/// pid; where there is no default either, the active one. Two names for one
/// request, or two defaults, are refused.
pub proof fn lemma_instance_selection_cases(
    id: Seq<char>,
    pid: u32,
    default_id: Option<Seq<char>>,
    default_pid: Option<u32>,
    other_id: Seq<char>,
    other_pid: u32,
)
    ensures
        spec_instance_selector(Some(id), None, default_id, default_pid) == Some(SelectorView::Id(id)),
        spec_instance_selector(None, Some(pid), default_id, default_pid) == Some(
            SelectorView::Pid(pid),
        ),
        spec_instance_selector(Some(id), Some(pid), default_id, default_pid) is None,
        spec_instance_selector(None, None, Some(other_id), None) == Some(
            SelectorView::Id(other_id),
        ),
        spec_instance_selector(None, None, None, Some(other_pid)) == Some(
            SelectorView::Pid(other_pid),
        ),
        spec_instance_selector(None, None, Some(other_id), Some(other_pid)) is None,
{
}

/// A tool's tab type becomes the control tab type of the same name, and
/// different tool tab types stay different.
pub proof fn lemma_tab_types_map_by_name(a: McpTabType, b: McpTabType)
    ensures
        spec_tab_type(McpTabType::Terminal) == TabType::Terminal,
        spec_tab_type(McpTabType::Agent) == TabType::Agent,
        spec_tab_type(McpTabType::CloudAgent) == TabType::CloudAgent,
        spec_tab_type(McpTabType::Default) == TabType::Default,
        a != b ==> spec_tab_type(a) != spec_tab_type(b),
{
}

/// An environment setting is the variable's value with its surrounding
/// whitespace removed: it is a part of the raw value, it neither starts nor
/// ends with whitespace, and a blank or unset variable is no setting.
pub proof fn lemma_env_setting_is_trimmed_value(raw: Option<Seq<char>>)
    ensures
        raw is None ==> spec_env_setting(raw) is None,
        raw matches Some(v) ==> (spec_env_setting(raw) is None <==> trimmed(v).len() == 0),
        spec_env_setting(raw) matches Some(t) ==> t.len() > 0 && !is_white_space(t[0])
            && !is_white_space(t.last()) && exists|i: int, j: int|
            #![trigger raw->0.subrange(i, j)]
            0 <= i <= j <= raw->0.len() && t == raw->0.subrange(i, j),
{
    if let Some(v) = raw {
        lemma_trimmed_shape(v);
    }
}

/// The parts of the active context and their keys: the active chain under
/// `active`, then windows, tabs, panes and sessions under their own names.
pub proof fn lemma_active_context_parts()
    ensures
        spec_active_context_actions() == seq![
            ActionKind::AppActive,
            ActionKind::WindowList,
            ActionKind::TabList,
            ActionKind::PaneList,
            ActionKind::SessionList,
        ],
        spec_active_context_keys() == seq!["active"@, "windows"@, "tabs"@, "panes"@, "sessions"@],
{
}

} // verus!
