//! Pane settings: the color mode, the activity states a pane can show and the
//! colors each state is painted with.
use vstd::prelude::*;
use crate::setting_path::{spec_hierarchy, spec_toml_key, toml_path_hierarchy, toml_path_key};

verus! {

/// How panes are colored.
#[derive(Debug, Clone, Copy, PartialEq, Eq, Structural)]
pub enum PaneColorMode {
    Off,
    Activity,
}

impl Default for PaneColorMode {
    fn default() -> (mode: Self)
        ensures
            mode == PaneColorMode::Off,
    {
        PaneColorMode::Off
    }
}

impl PaneColorMode {
    /// The label shown for this mode in the settings UI.
    pub fn display_name(self) -> (name: &'static str)
        ensures
            name@ == (match self {
                PaneColorMode::Off => "Off"@,
                PaneColorMode::Activity => "Activity"@,
            }),
    {
        match self {
            PaneColorMode::Off => "Off",
            PaneColorMode::Activity => "Activity",
        }
    }
}

/// The terminal colors a pane can be painted with.
#[derive(Debug, Clone, Copy, PartialEq, Eq, Structural)]
pub enum AnsiColorIdentifier {
    Black,
    Red,
    Green,
    Yellow,
    Blue,
    Magenta,
    Cyan,
    White,
}

/// What an agent in a pane is doing, as far as pane coloring is concerned.
#[derive(Debug, Clone, Copy, PartialEq, Eq, Structural)]
pub enum PaneActivityState {
    Working,
    NeedsHelp,
    RequiresAttention,
    NotWorking,
}

/// The activity states, in the order of their index.
pub open spec fn all_pane_activity_states() -> Seq<PaneActivityState> {
    seq![
        PaneActivityState::Working,
        PaneActivityState::NeedsHelp,
        PaneActivityState::RequiresAttention,
        PaneActivityState::NotWorking,
    ]
}

/// The position of a state among all states.
pub open spec fn spec_state_index(state: PaneActivityState) -> nat {
    match state {
        PaneActivityState::Working => 0,
        PaneActivityState::NeedsHelp => 1,
        PaneActivityState::RequiresAttention => 2,
        PaneActivityState::NotWorking => 3,
    }
}

/// The color a state gets when the user has chosen none.
pub open spec fn spec_default_color(state: PaneActivityState) -> AnsiColorIdentifier {
    match state {
        PaneActivityState::Working => AnsiColorIdentifier::Red,
        PaneActivityState::NeedsHelp => AnsiColorIdentifier::Yellow,
        PaneActivityState::RequiresAttention => AnsiColorIdentifier::Yellow,
        PaneActivityState::NotWorking => AnsiColorIdentifier::Black,
    }
}

impl PaneActivityState {
    /// Every activity state, each once, in the order of `index`.
    pub const ALL: [PaneActivityState; 4] = [
        PaneActivityState::Working,
        PaneActivityState::NeedsHelp,
        PaneActivityState::RequiresAttention,
        PaneActivityState::NotWorking,
    ];

    /// The number of activity states.
    pub const COUNT: usize = 4;

    /// The label shown for this state in the settings UI.
    pub fn display_name(self) -> (name: &'static str)
        ensures
            name@ == (match self {
                PaneActivityState::Working => "Working"@,
                PaneActivityState::NeedsHelp => "Needs help"@,
                PaneActivityState::RequiresAttention => "Requires attention"@,
                PaneActivityState::NotWorking => "Not working"@,
            }),
    {
        match self {
            PaneActivityState::Working => "Working",
            PaneActivityState::NeedsHelp => "Needs help",
            PaneActivityState::RequiresAttention => "Requires attention",
            PaneActivityState::NotWorking => "Not working",
        }
    }

    /// The color this state is painted with by default.
    pub fn default_color(self) -> (color: AnsiColorIdentifier)
        ensures
            color == spec_default_color(self),
    {
        match self {
            PaneActivityState::Working => AnsiColorIdentifier::Red,
            PaneActivityState::NeedsHelp => AnsiColorIdentifier::Yellow,
            PaneActivityState::RequiresAttention => AnsiColorIdentifier::Yellow,
            PaneActivityState::NotWorking => AnsiColorIdentifier::Black,
        }
    }

    /// The position of this state in `all()`.
    pub fn index(self) -> (i: usize)
        ensures
            i == spec_state_index(self),
            i < PaneActivityState::COUNT,
    {
        match self {
            PaneActivityState::Working => 0,
            PaneActivityState::NeedsHelp => 1,
            PaneActivityState::RequiresAttention => 2,
            PaneActivityState::NotWorking => 3,
        }
    }
}

/// Indexing is a one-to-one numbering of the activity states: `ALL` lists
/// each state once, every state sits at its own index in it, and every
/// position of it holds the state whose index it is.
pub proof fn lemma_state_index_numbers_all_states(state: PaneActivityState, i: int)
    requires
        0 <= i < PaneActivityState::COUNT,
    ensures
        PaneActivityState::ALL@ == all_pane_activity_states(),
        PaneActivityState::ALL@.len() == PaneActivityState::COUNT,
        PaneActivityState::ALL@[spec_state_index(state) as int] == state,
        spec_state_index(PaneActivityState::ALL@[i]) == i,
{
    assert(PaneActivityState::ALL@ =~= all_pane_activity_states());
}

/// Pane colors for agent activity states.
#[derive(Debug, Clone, Copy, PartialEq, Eq, Structural)]
pub struct PaneActivityColors {
    pub working: AnsiColorIdentifier,
    pub needs_help: AnsiColorIdentifier,
    pub requires_attention: AnsiColorIdentifier,
    pub not_working: AnsiColorIdentifier,
}

impl PaneActivityColors {
    /// The color stored for `state`.
    pub open spec fn spec_color_for(self, state: PaneActivityState) -> AnsiColorIdentifier {
        match state {
            PaneActivityState::Working => self.working,
            PaneActivityState::NeedsHelp => self.needs_help,
            PaneActivityState::RequiresAttention => self.requires_attention,
            PaneActivityState::NotWorking => self.not_working,
        }
    }

    /// The color panes in `state` are painted with.
    pub fn color_for(&self, state: PaneActivityState) -> (color: AnsiColorIdentifier)
        ensures
            color == self.spec_color_for(state),
            state == PaneActivityState::Working ==> color == self.working,
            state == PaneActivityState::NeedsHelp ==> color == self.needs_help,
            state == PaneActivityState::RequiresAttention ==> color == self.requires_attention,
            state == PaneActivityState::NotWorking ==> color == self.not_working,
    {
        match state {
            PaneActivityState::Working => self.working,
            PaneActivityState::NeedsHelp => self.needs_help,
            PaneActivityState::RequiresAttention => self.requires_attention,
            PaneActivityState::NotWorking => self.not_working,
        }
    }

    /// These colors with `state` painted `color`.
    pub open spec fn spec_with_color(self, state: PaneActivityState, color: AnsiColorIdentifier) -> Self {
        match state {
            PaneActivityState::Working => PaneActivityColors { working: color, ..self },
            PaneActivityState::NeedsHelp => PaneActivityColors { needs_help: color, ..self },
            PaneActivityState::RequiresAttention => PaneActivityColors {
                requires_attention: color,
                ..self
            },
            PaneActivityState::NotWorking => PaneActivityColors { not_working: color, ..self },
        }
    }

    /// A copy of these colors with `state` painted `color` and every other
    /// state left as it was.
    pub fn with_color(&self, state: PaneActivityState, color: AnsiColorIdentifier) -> (colors: Self)
        ensures
            colors == self.spec_with_color(state, color),
            colors.working == (if state == PaneActivityState::Working {
                color
            } else {
                self.working
            }),
            colors.needs_help == (if state == PaneActivityState::NeedsHelp {
                color
            } else {
                self.needs_help
            }),
            colors.requires_attention == (if state == PaneActivityState::RequiresAttention {
                color
            } else {
                self.requires_attention
            }),
            colors.not_working == (if state == PaneActivityState::NotWorking {
                color
            } else {
                self.not_working
            }),
    {
        let mut colors = *self;
        match state {
            PaneActivityState::Working => colors.working = color,
            PaneActivityState::NeedsHelp => colors.needs_help = color,
            PaneActivityState::RequiresAttention => colors.requires_attention = color,
            PaneActivityState::NotWorking => colors.not_working = color,
        }
        colors
    }
}

/// Every state painted its default color.
pub open spec fn spec_default_colors() -> PaneActivityColors {
    PaneActivityColors {
        working: AnsiColorIdentifier::Red,
        needs_help: AnsiColorIdentifier::Yellow,
        requires_attention: AnsiColorIdentifier::Yellow,
        not_working: AnsiColorIdentifier::Black,
    }
}

impl Default for PaneActivityColors {
    fn default() -> (colors: Self)
        ensures
            colors == spec_default_colors(),
            forall|state: PaneActivityState|
                #[trigger] colors.spec_color_for(state) == spec_default_color(state),
    {
        PaneActivityColors {
            working: PaneActivityState::Working.default_color(),
            needs_help: PaneActivityState::NeedsHelp.default_color(),
            requires_attention: PaneActivityState::RequiresAttention.default_color(),
            not_working: PaneActivityState::NotWorking.default_color(),
        }
    }
}


/// The table of an optional setting path.
pub open spec fn spec_path_hierarchy(path: Option<Seq<char>>) -> Option<Seq<char>> {
    match path {
        Some(p) => spec_hierarchy(p),
        None => None,
    }
}

/// The key of an optional setting path (empty where there is no path).
pub open spec fn spec_path_key(path: Option<Seq<char>>) -> Seq<char> {
    match path {
        Some(p) => spec_toml_key(p),
        None => Seq::empty(),
    }
}

/// The view of an optional string.
pub open spec fn opt_view(s: Option<&str>) -> Option<Seq<char>> {
    match s {
        Some(t) => Some(t@),
        None => None,
    }
}

fn hierarchy_of(path: Option<&'static str>) -> (table: Option<&'static str>)
    ensures
        opt_view(table) == spec_path_hierarchy(opt_view(path)),
{
    match path {
        Some(p) => toml_path_hierarchy(p),
        None => None,
    }
}

fn key_of(path: Option<&'static str>) -> (key: &'static str)
    ensures
        key@ == spec_path_key(opt_view(path)),
{
    match path {
        Some(p) => toml_path_key(p),
        None => {
            let empty = "";
            proof {
                reveal_strlit("");
            }
            empty
        },
    }
}

/// The TOML path of the pane color mode setting.
pub open spec fn color_mode_path() -> Seq<char> {
    "appearance.panes.color_mode"@
}

/// The TOML path of the pane activity colors setting.
pub open spec fn activity_colors_path() -> Seq<char> {
    "appearance.panes.activity_colors"@
}

/// The TOML path of the inactive-pane dimming setting.
pub open spec fn dim_inactive_panes_path() -> Seq<char> {
    "appearance.panes.should_dim_inactive_panes"@
}

/// The TOML path of the focus-on-hover setting.
pub open spec fn focus_pane_on_hover_path() -> Seq<char> {
    "appearance.panes.focus_pane_on_hover"@
}

/// The TOML path of the activity background tint setting.
pub open spec fn activity_background_path() -> Seq<char> {
    "appearance.panes.activity_background"@
}

impl PaneColorMode {
    /// Where the setting is stored in the TOML settings file.
    pub fn toml_path() -> (path: Option<&'static str>)
        ensures
            opt_view(path) == Some(color_mode_path()),
    {
        Some("appearance.panes.color_mode")
    }

    /// The TOML table that holds the setting.
    pub fn hierarchy() -> (table: Option<&'static str>)
        ensures
            opt_view(table) == spec_hierarchy(color_mode_path()),
    {
        hierarchy_of(Self::toml_path())
    }

    /// The setting's key inside its TOML table.
    pub fn toml_key() -> (key: &'static str)
        ensures
            key@ == spec_toml_key(color_mode_path()),
    {
        key_of(Self::toml_path())
    }
}

impl PaneActivityColors {
    /// Where the setting is stored in the TOML settings file.
    pub fn toml_path() -> (path: Option<&'static str>)
        ensures
            opt_view(path) == Some(activity_colors_path()),
    {
        Some("appearance.panes.activity_colors")
    }

    /// The TOML table that holds the setting.
    pub fn hierarchy() -> (table: Option<&'static str>)
        ensures
            opt_view(table) == spec_hierarchy(activity_colors_path()),
    {
        hierarchy_of(Self::toml_path())
    }

    /// The setting's key inside its TOML table.
    pub fn toml_key() -> (key: &'static str)
        ensures
            key@ == spec_toml_key(activity_colors_path()),
    {
        key_of(Self::toml_path())
    }
}

/// Whether inactive panes are visually dimmed.
#[derive(Debug, Clone, Copy, PartialEq, Eq, Structural)]
pub struct ShouldDimInactivePanes(pub bool);

/// Whether panes are focused when hovered over.
#[derive(Debug, Clone, Copy, PartialEq, Eq, Structural)]
pub struct FocusPaneOnHover(pub bool);

/// Whether activity colors tint pane backgrounds.
#[derive(Debug, Clone, Copy, PartialEq, Eq, Structural)]
pub struct PaneActivityBackground(pub bool);

impl Default for ShouldDimInactivePanes {
    fn default() -> (setting: Self)
        ensures
            setting.0 == false,
    {
        ShouldDimInactivePanes(false)
    }
}

impl Default for FocusPaneOnHover {
    fn default() -> (setting: Self)
        ensures
            setting.0 == false,
    {
        FocusPaneOnHover(false)
    }
}

impl Default for PaneActivityBackground {
    fn default() -> (setting: Self)
        ensures
            setting.0 == false,
    {
        PaneActivityBackground(false)
    }
}

impl ShouldDimInactivePanes {
    /// Where the setting is stored in the TOML settings file.
    pub fn toml_path() -> (path: Option<&'static str>)
        ensures
            opt_view(path) == Some(dim_inactive_panes_path()),
    {
        Some("appearance.panes.should_dim_inactive_panes")
    }

    /// The TOML table that holds the setting.
    pub fn hierarchy() -> (table: Option<&'static str>)
        ensures
            opt_view(table) == spec_hierarchy(dim_inactive_panes_path()),
    {
        hierarchy_of(Self::toml_path())
    }

    /// The setting's key inside its TOML table.
    pub fn toml_key() -> (key: &'static str)
        ensures
            key@ == spec_toml_key(dim_inactive_panes_path()),
    {
        key_of(Self::toml_path())
    }
}

impl FocusPaneOnHover {
    /// Where the setting is stored in the TOML settings file.
    pub fn toml_path() -> (path: Option<&'static str>)
        ensures
            opt_view(path) == Some(focus_pane_on_hover_path()),
    {
        Some("appearance.panes.focus_pane_on_hover")
    }

    /// The TOML table that holds the setting.
    pub fn hierarchy() -> (table: Option<&'static str>)
        ensures
            opt_view(table) == spec_hierarchy(focus_pane_on_hover_path()),
    {
        hierarchy_of(Self::toml_path())
    }

    /// The setting's key inside its TOML table.
    pub fn toml_key() -> (key: &'static str)
        ensures
            key@ == spec_toml_key(focus_pane_on_hover_path()),
    {
        key_of(Self::toml_path())
    }
}

impl PaneActivityBackground {
    /// Where the setting is stored in the TOML settings file.
    pub fn toml_path() -> (path: Option<&'static str>)
        ensures
            opt_view(path) == Some(activity_background_path()),
    {
        Some("appearance.panes.activity_background")
    }

    /// The TOML table that holds the setting.
    pub fn hierarchy() -> (table: Option<&'static str>)
        ensures
            opt_view(table) == spec_hierarchy(activity_background_path()),
    {
        hierarchy_of(Self::toml_path())
    }

    /// The setting's key inside its TOML table.
    pub fn toml_key() -> (key: &'static str)
        ensures
            key@ == spec_toml_key(activity_background_path()),
    {
        key_of(Self::toml_path())
    }
}

/// The pane settings group.
#[derive(Debug, Clone, Copy, PartialEq, Eq, Structural)]
pub struct PaneSettings {
    pub should_dim_inactive_panes: ShouldDimInactivePanes,
    pub focus_panes_on_hover: FocusPaneOnHover,
    pub pane_color_mode: PaneColorMode,
    pub pane_activity_background: PaneActivityBackground,
    pub pane_activity_colors: PaneActivityColors,
}

impl Default for PaneSettings {
    fn default() -> (settings: Self)
        ensures
            settings.should_dim_inactive_panes.0 == false,
            settings.focus_panes_on_hover.0 == false,
            settings.pane_color_mode == PaneColorMode::Off,
            settings.pane_activity_background.0 == false,
            settings.pane_activity_colors == spec_default_colors(),
    {
        PaneSettings {
            should_dim_inactive_panes: ShouldDimInactivePanes::default(),
            focus_panes_on_hover: FocusPaneOnHover::default(),
            pane_color_mode: PaneColorMode::default(),
            pane_activity_background: PaneActivityBackground::default(),
            pane_activity_colors: PaneActivityColors::default(),
        }
    }
}

/// Reading a color back after setting it gives the color that was set, and
/// setting one state's color leaves every other state's color as it was.
pub proof fn lemma_color_for_after_with_color(
    colors: PaneActivityColors,
    state: PaneActivityState,
    color: AnsiColorIdentifier,
    other: PaneActivityState,
)
    ensures
        colors.spec_with_color(state, color).spec_color_for(state) == color,
        other != state ==> colors.spec_with_color(state, color).spec_color_for(other)
            == colors.spec_color_for(other),
{
}

/// Setting a state to the color it already has changes nothing.
pub proof fn lemma_with_same_color_is_identity(colors: PaneActivityColors, state: PaneActivityState)
    ensures
        colors.spec_with_color(state, colors.spec_color_for(state)) == colors,
{
}

/// Of two colors set for the same state, the later one wins.
pub proof fn lemma_with_color_last_write_wins(
    colors: PaneActivityColors,
    state: PaneActivityState,
    first: AnsiColorIdentifier,
    second: AnsiColorIdentifier,
)
    ensures
        colors.spec_with_color(state, first).spec_with_color(state, second)
            == colors.spec_with_color(state, second),
{
}

/// Colors set for two different states do not interfere: the order in which
/// they are set does not matter.
pub proof fn lemma_with_color_commutes(
    colors: PaneActivityColors,
    s1: PaneActivityState,
    c1: AnsiColorIdentifier,
    s2: PaneActivityState,
    c2: AnsiColorIdentifier,
)
    requires
        s1 != s2,
    ensures
        colors.spec_with_color(s1, c1).spec_with_color(s2, c2) == colors.spec_with_color(
            s2,
            c2,
        ).spec_with_color(s1, c1),
{
}

/// Each activity state reads the color stored in the field named for it.
pub proof fn lemma_color_for_reads_named_field(colors: PaneActivityColors)
    ensures
        colors.spec_color_for(PaneActivityState::Working) == colors.working,
        colors.spec_color_for(PaneActivityState::NeedsHelp) == colors.needs_help,
        colors.spec_color_for(PaneActivityState::RequiresAttention) == colors.requires_attention,
        colors.spec_color_for(PaneActivityState::NotWorking) == colors.not_working,
{
}

/// Setting a state's color writes exactly the field named for that state and
/// leaves the other three fields as they were.
pub proof fn lemma_with_color_writes_named_field(
    colors: PaneActivityColors,
    state: PaneActivityState,
    color: AnsiColorIdentifier,
)
    ensures
        ({
            let updated = colors.spec_with_color(state, color);
            &&& updated.working == (if state == PaneActivityState::Working {
                color
            } else {
                colors.working
            })
            &&& updated.needs_help == (if state == PaneActivityState::NeedsHelp {
                color
            } else {
                colors.needs_help
            })
            &&& updated.requires_attention == (if state == PaneActivityState::RequiresAttention {
                color
            } else {
                colors.requires_attention
            })
            &&& updated.not_working == (if state == PaneActivityState::NotWorking {
                color
            } else {
                colors.not_working
            })
        }),
{
}

/// The default colors: working red, needing help and requiring attention
/// yellow, not working black.
pub proof fn lemma_default_colors()
    ensures
        spec_default_colors().working == AnsiColorIdentifier::Red,
        spec_default_colors().needs_help == AnsiColorIdentifier::Yellow,
        spec_default_colors().requires_attention == AnsiColorIdentifier::Yellow,
        spec_default_colors().not_working == AnsiColorIdentifier::Black,
        spec_default_color(PaneActivityState::Working) == AnsiColorIdentifier::Red,
        spec_default_color(PaneActivityState::NeedsHelp) == AnsiColorIdentifier::Yellow,
        spec_default_color(PaneActivityState::RequiresAttention) == AnsiColorIdentifier::Yellow,
        spec_default_color(PaneActivityState::NotWorking) == AnsiColorIdentifier::Black,
        forall|state: PaneActivityState|
            #[trigger] spec_default_colors().spec_color_for(state) == spec_default_color(state),
{
}

} // verus!
