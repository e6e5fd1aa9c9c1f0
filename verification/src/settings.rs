//! Where the panel sits, and what it is registered as.

use crate::panel::ZrushPanel;
use vstd::prelude::*;

verus! {

/// The side of the window a panel is docked to.
#[derive(Debug, Clone, Copy, PartialEq, Eq, Structural)]
pub enum DockSide {
    Left,
    Right,
}

/// The places that docks have.
#[derive(Debug, Clone, Copy, PartialEq, Eq, Structural)]
pub enum DockPosition {
    Left,
    Bottom,
    Right,
}

/// The panel's part of the settings, as far as it is written.
#[derive(Debug, Clone, Copy, PartialEq, Eq, Structural)]
pub struct PanelSettingsContent {
    pub dock: Option<DockSide>,
}

/// The settings, as far as the panel reads them.
#[derive(Debug, Clone, Copy, PartialEq, Eq, Structural)]
pub struct SettingsContent {
    pub zrush_panel: Option<PanelSettingsContent>,
}

/// The panel's side lives in the settings because a dock moves a panel only
/// when it sees the settings change. Storing it anywhere else leaves the menu
/// entry inert.
#[derive(Debug, Clone, Copy, PartialEq, Eq, Structural)]
pub struct ZrushPanelSettings {
    pub dock: DockSide,
}

impl SettingsContent {
    /// The settings of a panel that was moved to `position`.
    pub open spec fn placed_at(position: DockPosition) -> Self {
        SettingsContent {
            zrush_panel: Some(PanelSettingsContent { dock: Some(side_of(position)) }),
        }
    }

    /// The side that is written down, where one is.
    pub open spec fn dock(self) -> Option<DockSide> {
        match self.zrush_panel {
            Some(panel) => panel.dock,
            None => None,
        }
    }
}

impl ZrushPanelSettings {
    /// Reads the panel's settings. The defaults write a side down, so there is
    /// one to read.
    pub fn from_settings(content: &SettingsContent) -> (settings: Self)
        requires
            content.dock() is Some,
        ensures
            Some(settings.dock) == content.dock(),
    {
        ZrushPanelSettings { dock: content.zrush_panel.unwrap().dock.unwrap() }
    }
}

/// The side of the window that a place is on. A panel sent to the bottom goes
/// to the left.
pub open spec fn side_of(position: DockPosition) -> DockSide {
    match position {
        DockPosition::Left | DockPosition::Bottom => DockSide::Left,
        DockPosition::Right => DockSide::Right,
    }
}

/// The place of the panel that is docked to a side.
pub open spec fn position_on(side: DockSide) -> DockPosition {
    match side {
        DockSide::Left => DockPosition::Left,
        DockSide::Right => DockPosition::Right,
    }
}

/// Whether the panel can be docked there.
pub open spec fn dockable(position: DockPosition) -> bool {
    position == DockPosition::Left || position == DockPosition::Right
}

impl ZrushPanel {
    pub fn persistent_name() -> (name: &'static str)
        ensures
            name@ == "Zrush"@,
    {
        "Zrush"
    }

    pub fn panel_key() -> (key: &'static str)
        ensures
            key@ == "ZrushPanel"@,
    {
        "ZrushPanel"
    }

    /// Where the settings place the panel.
    pub fn position(settings: &ZrushPanelSettings) -> (position: DockPosition)
        ensures
            position == position_on(settings.dock),
    {
        match settings.dock {
            DockSide::Left => DockPosition::Left,
            DockSide::Right => DockPosition::Right,
        }
    }

    /// Whether the panel can be docked at `position`.
    pub fn position_is_valid(position: DockPosition) -> (valid: bool)
        ensures
            valid == dockable(position),
    {
        match position {
            DockPosition::Left => true,
            DockPosition::Right => true,
            DockPosition::Bottom => false,
        }
    }

    /// Writes down where the panel was moved to.
    pub fn set_position(content: &mut SettingsContent, position: DockPosition)
        ensures
            *final(content) == SettingsContent::placed_at(position),
    {
        let side = match position {
            DockPosition::Left => DockSide::Left,
            DockPosition::Bottom => DockSide::Left,
            DockPosition::Right => DockSide::Right,
        };
        content.zrush_panel = Some(PanelSettingsContent { dock: Some(side) });
    }

    pub fn icon_tooltip() -> (tooltip: Option<&'static str>)
        ensures
            tooltip matches Some(tooltip) && tooltip@ == "Zrush"@,
    {
        Some("Zrush")
    }

    pub fn starts_open() -> (open: bool)
        ensures
            open,
    {
        true
    }

    pub fn activation_priority() -> (priority: u32)
        ensures
            priority == 3,
    {
        3
    }
}

/// A panel moved to a place where it can be docked is found there when the
/// settings are read again, and one sent anywhere ends where it can be docked.
pub proof fn law_a_moved_panel_stays_where_it_was_put(position: DockPosition)
    ensures
        SettingsContent::placed_at(position).dock() is Some,
        dockable(position) ==> position_on(SettingsContent::placed_at(position).dock()->0)
            == position,
        dockable(position_on(SettingsContent::placed_at(position).dock()->0)),
{
}

/// A panel moved left or right is on that side, one sent to the bottom is on the
/// left, and each side is the place of its name.
pub proof fn law_places_and_sides_match(position: DockPosition, content: SettingsContent)
    ensures
        side_of(position) == DockSide::Right <==> position == DockPosition::Right,
        position_on(DockSide::Left) == DockPosition::Left,
        position_on(DockSide::Right) == DockPosition::Right,
        dockable(position) <==> position != DockPosition::Bottom,
        SettingsContent::placed_at(position).zrush_panel matches Some(panel) && (
        panel.dock matches Some(side) && (side == DockSide::Right <==> position
            == DockPosition::Right)),
        content.dock() is Some <==> content.zrush_panel is Some && content.zrush_panel->0.dock
            is Some,
        content.dock() is Some ==> content.dock() == content.zrush_panel->0.dock,
{
}

} // verus!
