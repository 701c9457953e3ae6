use warp_pane_activity::pane_settings::{
    AnsiColorIdentifier, FocusPaneOnHover, PaneActivityBackground, PaneActivityColors,
    PaneActivityState, PaneColorMode, PaneSettings, ShouldDimInactivePanes,
};
use warp_pane_activity::setting_path::{toml_path_hierarchy, toml_path_key};

#[test]
fn pane_color_mode_defaults_to_off() {
    let settings = PaneSettings::default();
    assert_eq!(settings.pane_color_mode, PaneColorMode::Off);
    assert!(!settings.pane_activity_background.0);
}

#[test]
fn pane_activity_colors_default_to_requested_mapping() {
    let colors = PaneActivityColors::default();

    assert_eq!(
        colors.color_for(PaneActivityState::Working),
        AnsiColorIdentifier::Red
    );
    assert_eq!(
        colors.color_for(PaneActivityState::NeedsHelp),
        AnsiColorIdentifier::Yellow
    );
    assert_eq!(
        colors.color_for(PaneActivityState::RequiresAttention),
        AnsiColorIdentifier::Yellow
    );
    assert_eq!(
        colors.color_for(PaneActivityState::NotWorking),
        AnsiColorIdentifier::Black
    );
}

#[test]
fn pane_color_mode_uses_panes_path() {
    assert_eq!(
        PaneColorMode::toml_path(),
        Some("appearance.panes.color_mode")
    );
    assert_eq!(PaneColorMode::hierarchy(), Some("appearance.panes"));
    assert_eq!(PaneColorMode::toml_key(), "color_mode");
}

#[test]
fn pane_activity_colors_uses_panes_path() {
    assert_eq!(
        PaneActivityColors::toml_path(),
        Some("appearance.panes.activity_colors")
    );
    assert_eq!(PaneActivityColors::hierarchy(), Some("appearance.panes"));
    assert_eq!(PaneActivityColors::toml_key(), "activity_colors");
}

#[test]
fn pane_activity_background_uses_panes_path() {
    assert_eq!(
        PaneActivityBackground::toml_path(),
        Some("appearance.panes.activity_background")
    );
    assert_eq!(
        PaneActivityBackground::hierarchy(),
        Some("appearance.panes")
    );
    assert_eq!(PaneActivityBackground::toml_key(), "activity_background");
}

#[test]
fn pane_activity_colors_can_update_one_activity_color() {
    let colors = PaneActivityColors::default()
        .with_color(PaneActivityState::NeedsHelp, AnsiColorIdentifier::Cyan);

    assert_eq!(
        colors.color_for(PaneActivityState::NeedsHelp),
        AnsiColorIdentifier::Cyan
    );
    assert_eq!(
        colors.color_for(PaneActivityState::Working),
        AnsiColorIdentifier::Red
    );
}

#[test]
fn other_pane_settings_use_panes_path() {
    assert_eq!(
        ShouldDimInactivePanes::toml_path(),
        Some("appearance.panes.should_dim_inactive_panes")
    );
    assert_eq!(ShouldDimInactivePanes::hierarchy(), Some("appearance.panes"));
    assert_eq!(
        ShouldDimInactivePanes::toml_key(),
        "should_dim_inactive_panes"
    );
    assert_eq!(
        FocusPaneOnHover::toml_path(),
        Some("appearance.panes.focus_pane_on_hover")
    );
    assert_eq!(FocusPaneOnHover::hierarchy(), Some("appearance.panes"));
    assert_eq!(FocusPaneOnHover::toml_key(), "focus_pane_on_hover");
}

#[test]
fn pane_settings_default_to_off() {
    let settings = PaneSettings::default();
    assert!(!settings.should_dim_inactive_panes.0);
    assert!(!settings.focus_panes_on_hover.0);
    assert_eq!(settings.pane_activity_colors, PaneActivityColors::default());
    assert_eq!(PaneColorMode::default(), PaneColorMode::Off);
}

#[test]
fn toml_path_without_table_is_its_own_key() {
    assert_eq!(toml_path_hierarchy("theme"), None);
    assert_eq!(toml_path_key("theme"), "theme");
    assert_eq!(toml_path_hierarchy("a.b.c"), Some("a.b"));
    assert_eq!(toml_path_key("a.b.c"), "c");
    assert_eq!(toml_path_hierarchy(".x"), Some(""));
    assert_eq!(toml_path_key("x."), "");
}

#[test]
fn display_names() {
    assert_eq!(PaneColorMode::Off.display_name(), "Off");
    assert_eq!(PaneColorMode::Activity.display_name(), "Activity");
    assert_eq!(PaneActivityState::Working.display_name(), "Working");
    assert_eq!(PaneActivityState::NeedsHelp.display_name(), "Needs help");
    assert_eq!(
        PaneActivityState::RequiresAttention.display_name(),
        "Requires attention"
    );
    assert_eq!(PaneActivityState::NotWorking.display_name(), "Not working");
}

#[test]
fn state_index_numbers_all_states() {
    assert_eq!(PaneActivityState::ALL.len(), PaneActivityState::COUNT);
    for (i, state) in PaneActivityState::ALL.iter().enumerate() {
        assert_eq!(state.index(), i);
    }
    assert_eq!(PaneActivityState::RequiresAttention.index(), 2);
}

#[test]
fn default_colors_per_state() {
    assert_eq!(
        PaneActivityState::Working.default_color(),
        AnsiColorIdentifier::Red
    );
    assert_eq!(
        PaneActivityState::NotWorking.default_color(),
        AnsiColorIdentifier::Black
    );
}

#[test]
fn with_color_laws_on_values() {
    let colors = PaneActivityColors::default();
    let same = colors.with_color(PaneActivityState::Working, AnsiColorIdentifier::Red);
    assert_eq!(same, colors);
    let twice = colors
        .with_color(PaneActivityState::NotWorking, AnsiColorIdentifier::Blue)
        .with_color(PaneActivityState::NotWorking, AnsiColorIdentifier::Green);
    assert_eq!(
        twice,
        colors.with_color(PaneActivityState::NotWorking, AnsiColorIdentifier::Green)
    );
    let ab = colors
        .with_color(PaneActivityState::Working, AnsiColorIdentifier::Magenta)
        .with_color(PaneActivityState::NeedsHelp, AnsiColorIdentifier::White);
    let ba = colors
        .with_color(PaneActivityState::NeedsHelp, AnsiColorIdentifier::White)
        .with_color(PaneActivityState::Working, AnsiColorIdentifier::Magenta);
    assert_eq!(ab, ba);
    assert_eq!(
        ab.color_for(PaneActivityState::RequiresAttention),
        AnsiColorIdentifier::Yellow
    );
}
