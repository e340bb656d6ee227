//! Shell tweak capability model: which GNOME Shell behavioural tweaks
//! each version supports, how tweak values are encoded in packs, and
//! how the UI groups and labels them. Pure policy.

use vstd::prelude::*;
use crate::shell_version::ShellVersion;
use crate::text::{chars_of, i32_text, i32_to_text, lemma_parse_i32_text, owned, parse_i32_chars, parse_i32_spec, str_eq};
use crate::theme_capability::ControlSupport;

verus! {

/// A visual grouping of shell tweaks for UI layout.
#[derive(Debug, Clone, Copy, PartialEq, Eq, Hash, Structural)]
pub enum ShellTweakSurface {
    Motion,
    Panel,
    Overview,
    Workspaces,
    WindowManagement,
    Fonts,
}

impl ShellTweakSurface {
    pub open spec fn label_text(self) -> Seq<char> {
        match self {
            ShellTweakSurface::Motion => "Motion & Animations"@,
            ShellTweakSurface::Panel => "Panel"@,
            ShellTweakSurface::Overview => "Overview"@,
            ShellTweakSurface::Workspaces => "Workspaces"@,
            ShellTweakSurface::WindowManagement => "Window Management"@,
            ShellTweakSurface::Fonts => "Fonts & Cursor"@,
        }
    }

    /// Human-readable group title.
    pub fn label(self) -> (r: &'static str)
        ensures
            r@ == self.label_text(),
    {
        match self {
            ShellTweakSurface::Motion => "Motion & Animations",
            ShellTweakSurface::Panel => "Panel",
            ShellTweakSurface::Overview => "Overview",
            ShellTweakSurface::Workspaces => "Workspaces",
            ShellTweakSurface::WindowManagement => "Window Management",
            ShellTweakSurface::Fonts => "Fonts & Cursor",
        }
    }

    /// Render order: surfaces appear top-to-bottom in this sequence.
    pub const ALL: [ShellTweakSurface; 6] = [
        ShellTweakSurface::Panel,
        ShellTweakSurface::Overview,
        ShellTweakSurface::Workspaces,
        ShellTweakSurface::WindowManagement,
        ShellTweakSurface::Fonts,
        ShellTweakSurface::Motion,
    ];
}

/// Identifies one GNOME Shell behavioural tweak.
#[derive(Debug, Clone, Copy, PartialEq, Eq, Hash, Structural)]
pub enum ShellTweakId {
    TopBarPosition,
    ShowClock,
    ClockFormat,
    ShowWeekday,
    ShowBattery,
    OverviewHotCorner,
    WorkspaceThumbnails,
    AppsGridColumns,
    WorkspacesOnAllMonitors,
    DynamicWorkspaces,
    ReducedMotion,
    WindowAnimationSpeed,
    EnableAnimations,
    FocusMode,
    AttachModalDialogs,
    TitlebarDoubleClickAction,
    ButtonLayout,
    NumWorkspaces,
    CursorSize,
    FontAntialiasing,
    FontHinting,
    OverviewBlur,
    FloatingDock,
}

/// Where the GNOME panel sits.
#[derive(Debug, Clone, Copy, PartialEq, Eq, Structural)]
pub enum PanelPosition {
    Top,
    Bottom,
}

/// Coarse type tag used by the UI to pick a row widget.
#[derive(Debug, Clone, Copy, PartialEq, Eq, Structural)]
pub enum TweakKind {
    Bool,
    Int,
    Enum,
    Position,
}

impl ShellTweakId {
    pub open spec fn slug_text(self) -> Seq<char> {
        match self {
            ShellTweakId::TopBarPosition => "top_bar_position"@,
            ShellTweakId::ShowClock => "show_clock"@,
            ShellTweakId::ClockFormat => "clock_format"@,
            ShellTweakId::ShowWeekday => "show_weekday"@,
            ShellTweakId::ShowBattery => "show_battery"@,
            ShellTweakId::OverviewHotCorner => "overview_hot_corner"@,
            ShellTweakId::WorkspaceThumbnails => "workspace_thumbnails"@,
            ShellTweakId::AppsGridColumns => "apps_grid_columns"@,
            ShellTweakId::WorkspacesOnAllMonitors => "workspaces_on_all_monitors"@,
            ShellTweakId::DynamicWorkspaces => "dynamic_workspaces"@,
            ShellTweakId::ReducedMotion => "reduced_motion"@,
            ShellTweakId::WindowAnimationSpeed => "window_animation_speed"@,
            ShellTweakId::EnableAnimations => "enable_animations"@,
            ShellTweakId::FocusMode => "focus_mode"@,
            ShellTweakId::AttachModalDialogs => "attach_modal_dialogs"@,
            ShellTweakId::TitlebarDoubleClickAction => "titlebar_double_click_action"@,
            ShellTweakId::ButtonLayout => "button_layout"@,
            ShellTweakId::NumWorkspaces => "num_workspaces"@,
            ShellTweakId::CursorSize => "cursor_size"@,
            ShellTweakId::FontAntialiasing => "font_antialiasing"@,
            ShellTweakId::FontHinting => "font_hinting"@,
            ShellTweakId::OverviewBlur => "overview_blur"@,
            ShellTweakId::FloatingDock => "floating_dock"@,
        }
    }

    /// Canonical, stable snake_case identifier used in packs.
    pub fn slug(self) -> (r: &'static str)
        ensures
            r@ == self.slug_text(),
    {
        match self {
            ShellTweakId::TopBarPosition => "top_bar_position",
            ShellTweakId::ShowClock => "show_clock",
            ShellTweakId::ClockFormat => "clock_format",
            ShellTweakId::ShowWeekday => "show_weekday",
            ShellTweakId::ShowBattery => "show_battery",
            ShellTweakId::OverviewHotCorner => "overview_hot_corner",
            ShellTweakId::WorkspaceThumbnails => "workspace_thumbnails",
            ShellTweakId::AppsGridColumns => "apps_grid_columns",
            ShellTweakId::WorkspacesOnAllMonitors => "workspaces_on_all_monitors",
            ShellTweakId::DynamicWorkspaces => "dynamic_workspaces",
            ShellTweakId::ReducedMotion => "reduced_motion",
            ShellTweakId::WindowAnimationSpeed => "window_animation_speed",
            ShellTweakId::EnableAnimations => "enable_animations",
            ShellTweakId::FocusMode => "focus_mode",
            ShellTweakId::AttachModalDialogs => "attach_modal_dialogs",
            ShellTweakId::TitlebarDoubleClickAction => "titlebar_double_click_action",
            ShellTweakId::ButtonLayout => "button_layout",
            ShellTweakId::NumWorkspaces => "num_workspaces",
            ShellTweakId::CursorSize => "cursor_size",
            ShellTweakId::FontAntialiasing => "font_antialiasing",
            ShellTweakId::FontHinting => "font_hinting",
            ShellTweakId::OverviewBlur => "overview_blur",
            ShellTweakId::FloatingDock => "floating_dock",
        }
    }

    pub open spec fn surface_spec(self) -> ShellTweakSurface {
        match self {
            ShellTweakId::TopBarPosition => ShellTweakSurface::Panel,
            ShellTweakId::ShowClock => ShellTweakSurface::Panel,
            ShellTweakId::ClockFormat => ShellTweakSurface::Panel,
            ShellTweakId::ShowWeekday => ShellTweakSurface::Panel,
            ShellTweakId::ShowBattery => ShellTweakSurface::Panel,
            ShellTweakId::OverviewHotCorner => ShellTweakSurface::Overview,
            ShellTweakId::WorkspaceThumbnails => ShellTweakSurface::Overview,
            ShellTweakId::AppsGridColumns => ShellTweakSurface::Overview,
            ShellTweakId::WorkspacesOnAllMonitors => ShellTweakSurface::Workspaces,
            ShellTweakId::DynamicWorkspaces => ShellTweakSurface::Workspaces,
            ShellTweakId::ReducedMotion => ShellTweakSurface::Motion,
            ShellTweakId::WindowAnimationSpeed => ShellTweakSurface::Motion,
            ShellTweakId::EnableAnimations => ShellTweakSurface::Motion,
            ShellTweakId::FocusMode => ShellTweakSurface::WindowManagement,
            ShellTweakId::AttachModalDialogs => ShellTweakSurface::WindowManagement,
            ShellTweakId::TitlebarDoubleClickAction => ShellTweakSurface::WindowManagement,
            ShellTweakId::ButtonLayout => ShellTweakSurface::WindowManagement,
            ShellTweakId::NumWorkspaces => ShellTweakSurface::Workspaces,
            ShellTweakId::CursorSize => ShellTweakSurface::Fonts,
            ShellTweakId::FontAntialiasing => ShellTweakSurface::Fonts,
            ShellTweakId::FontHinting => ShellTweakSurface::Fonts,
            ShellTweakId::OverviewBlur => ShellTweakSurface::Overview,
            ShellTweakId::FloatingDock => ShellTweakSurface::Overview,
        }
    }

    /// Which surface this tweak belongs to.
    pub fn surface(self) -> (r: ShellTweakSurface)
        ensures
            r == self.surface_spec(),
    {
        match self {
            ShellTweakId::TopBarPosition => ShellTweakSurface::Panel,
            ShellTweakId::ShowClock => ShellTweakSurface::Panel,
            ShellTweakId::ClockFormat => ShellTweakSurface::Panel,
            ShellTweakId::ShowWeekday => ShellTweakSurface::Panel,
            ShellTweakId::ShowBattery => ShellTweakSurface::Panel,
            ShellTweakId::OverviewHotCorner => ShellTweakSurface::Overview,
            ShellTweakId::WorkspaceThumbnails => ShellTweakSurface::Overview,
            ShellTweakId::AppsGridColumns => ShellTweakSurface::Overview,
            ShellTweakId::WorkspacesOnAllMonitors => ShellTweakSurface::Workspaces,
            ShellTweakId::DynamicWorkspaces => ShellTweakSurface::Workspaces,
            ShellTweakId::ReducedMotion => ShellTweakSurface::Motion,
            ShellTweakId::WindowAnimationSpeed => ShellTweakSurface::Motion,
            ShellTweakId::EnableAnimations => ShellTweakSurface::Motion,
            ShellTweakId::FocusMode => ShellTweakSurface::WindowManagement,
            ShellTweakId::AttachModalDialogs => ShellTweakSurface::WindowManagement,
            ShellTweakId::TitlebarDoubleClickAction => ShellTweakSurface::WindowManagement,
            ShellTweakId::ButtonLayout => ShellTweakSurface::WindowManagement,
            ShellTweakId::NumWorkspaces => ShellTweakSurface::Workspaces,
            ShellTweakId::CursorSize => ShellTweakSurface::Fonts,
            ShellTweakId::FontAntialiasing => ShellTweakSurface::Fonts,
            ShellTweakId::FontHinting => ShellTweakSurface::Fonts,
            ShellTweakId::OverviewBlur => ShellTweakSurface::Overview,
            ShellTweakId::FloatingDock => ShellTweakSurface::Overview,
        }
    }

    pub open spec fn label_text(self) -> Seq<char> {
        match self {
            ShellTweakId::TopBarPosition => "Top Bar Position"@,
            ShellTweakId::ShowClock => "Show Date in Clock"@,
            ShellTweakId::ClockFormat => "Clock Format"@,
            ShellTweakId::ShowWeekday => "Show Weekday"@,
            ShellTweakId::ShowBattery => "Show Battery Percentage"@,
            ShellTweakId::OverviewHotCorner => "Hot Corner"@,
            ShellTweakId::WorkspaceThumbnails => "Workspace Thumbnails"@,
            ShellTweakId::AppsGridColumns => "App Grid Columns"@,
            ShellTweakId::WorkspacesOnAllMonitors => "Workspaces on All Monitors"@,
            ShellTweakId::DynamicWorkspaces => "Dynamic Workspaces"@,
            ShellTweakId::ReducedMotion => "Reduce Motion"@,
            ShellTweakId::WindowAnimationSpeed => "Animation Speed"@,
            ShellTweakId::EnableAnimations => "Enable Animations"@,
            ShellTweakId::FocusMode => "Window Focus Mode"@,
            ShellTweakId::AttachModalDialogs => "Attach Modal Dialogs"@,
            ShellTweakId::TitlebarDoubleClickAction => "Titlebar Double-Click"@,
            ShellTweakId::ButtonLayout => "Window Button Layout"@,
            ShellTweakId::NumWorkspaces => "Fixed Workspace Count"@,
            ShellTweakId::CursorSize => "Cursor Size"@,
            ShellTweakId::FontAntialiasing => "Font Antialiasing"@,
            ShellTweakId::FontHinting => "Font Hinting"@,
            ShellTweakId::OverviewBlur => "Overview Background Blur"@,
            ShellTweakId::FloatingDock => "Floating Dock"@,
        }
    }

    /// UI title for a row rendering this tweak.
    pub fn label(self) -> (r: &'static str)
        ensures
            r@ == self.label_text(),
    {
        match self {
            ShellTweakId::TopBarPosition => "Top Bar Position",
            ShellTweakId::ShowClock => "Show Date in Clock",
            ShellTweakId::ClockFormat => "Clock Format",
            ShellTweakId::ShowWeekday => "Show Weekday",
            ShellTweakId::ShowBattery => "Show Battery Percentage",
            ShellTweakId::OverviewHotCorner => "Hot Corner",
            ShellTweakId::WorkspaceThumbnails => "Workspace Thumbnails",
            ShellTweakId::AppsGridColumns => "App Grid Columns",
            ShellTweakId::WorkspacesOnAllMonitors => "Workspaces on All Monitors",
            ShellTweakId::DynamicWorkspaces => "Dynamic Workspaces",
            ShellTweakId::ReducedMotion => "Reduce Motion",
            ShellTweakId::WindowAnimationSpeed => "Animation Speed",
            ShellTweakId::EnableAnimations => "Enable Animations",
            ShellTweakId::FocusMode => "Window Focus Mode",
            ShellTweakId::AttachModalDialogs => "Attach Modal Dialogs",
            ShellTweakId::TitlebarDoubleClickAction => "Titlebar Double-Click",
            ShellTweakId::ButtonLayout => "Window Button Layout",
            ShellTweakId::NumWorkspaces => "Fixed Workspace Count",
            ShellTweakId::CursorSize => "Cursor Size",
            ShellTweakId::FontAntialiasing => "Font Antialiasing",
            ShellTweakId::FontHinting => "Font Hinting",
            ShellTweakId::OverviewBlur => "Overview Background Blur",
            ShellTweakId::FloatingDock => "Floating Dock",
        }
    }

    pub open spec fn subtitle_text(self) -> Seq<char> {
        match self {
            ShellTweakId::TopBarPosition => "Where the GNOME panel sits on screen"@,
            ShellTweakId::ShowClock => "Append the date next to the clock"@,
            ShellTweakId::ClockFormat => "12-hour or 24-hour time"@,
            ShellTweakId::ShowWeekday => "Prefix the clock with the current weekday"@,
            ShellTweakId::ShowBattery => "Display the remaining battery as a percentage"@,
            ShellTweakId::OverviewHotCorner => "Activate the overview by moving the cursor to the corner"@,
            ShellTweakId::WorkspaceThumbnails => "Show workspace thumbnails along the side of the overview"@,
            ShellTweakId::AppsGridColumns => "Number of columns in the app grid"@,
            ShellTweakId::WorkspacesOnAllMonitors => "Extend workspaces across every display"@,
            ShellTweakId::DynamicWorkspaces => "Add and remove workspaces automatically as needed"@,
            ShellTweakId::ReducedMotion => "Minimize animations system-wide"@,
            ShellTweakId::WindowAnimationSpeed => "Relative speed multiplier for shell animations"@,
            ShellTweakId::EnableAnimations => "Window, workspace, and overview animations"@,
            ShellTweakId::FocusMode => "How windows gain focus when the cursor enters them"@,
            ShellTweakId::AttachModalDialogs => "Pin modal dialogs to their parent window"@,
            ShellTweakId::TitlebarDoubleClickAction => "Action when double-clicking a window titlebar"@,
            ShellTweakId::ButtonLayout => "Position of minimize, maximize, and close buttons"@,
            ShellTweakId::NumWorkspaces => "Fixed number of workspaces when dynamic workspaces are off"@,
            ShellTweakId::CursorSize => "Size of the mouse cursor, in pixels"@,
            ShellTweakId::FontAntialiasing => "How fonts are smoothed when rendered"@,
            ShellTweakId::FontHinting => "How aggressively fonts snap to the pixel grid"@,
            ShellTweakId::OverviewBlur => "Dim the overview background; Blur My Shell adds wallpaper blur"@,
            ShellTweakId::FloatingDock => "Always-visible floating dock via the Dash to Dock extension"@,
        }
    }

    /// Longer description shown as the row subtitle.
    pub fn subtitle(self) -> (r: &'static str)
        ensures
            r@ == self.subtitle_text(),
    {
        match self {
            ShellTweakId::TopBarPosition => "Where the GNOME panel sits on screen",
            ShellTweakId::ShowClock => "Append the date next to the clock",
            ShellTweakId::ClockFormat => "12-hour or 24-hour time",
            ShellTweakId::ShowWeekday => "Prefix the clock with the current weekday",
            ShellTweakId::ShowBattery => "Display the remaining battery as a percentage",
            ShellTweakId::OverviewHotCorner => "Activate the overview by moving the cursor to the corner",
            ShellTweakId::WorkspaceThumbnails => "Show workspace thumbnails along the side of the overview",
            ShellTweakId::AppsGridColumns => "Number of columns in the app grid",
            ShellTweakId::WorkspacesOnAllMonitors => "Extend workspaces across every display",
            ShellTweakId::DynamicWorkspaces => "Add and remove workspaces automatically as needed",
            ShellTweakId::ReducedMotion => "Minimize animations system-wide",
            ShellTweakId::WindowAnimationSpeed => "Relative speed multiplier for shell animations",
            ShellTweakId::EnableAnimations => "Window, workspace, and overview animations",
            ShellTweakId::FocusMode => "How windows gain focus when the cursor enters them",
            ShellTweakId::AttachModalDialogs => "Pin modal dialogs to their parent window",
            ShellTweakId::TitlebarDoubleClickAction => "Action when double-clicking a window titlebar",
            ShellTweakId::ButtonLayout => "Position of minimize, maximize, and close buttons",
            ShellTweakId::NumWorkspaces => "Fixed number of workspaces when dynamic workspaces are off",
            ShellTweakId::CursorSize => "Size of the mouse cursor, in pixels",
            ShellTweakId::FontAntialiasing => "How fonts are smoothed when rendered",
            ShellTweakId::FontHinting => "How aggressively fonts snap to the pixel grid",
            ShellTweakId::OverviewBlur => "Dim the overview background; Blur My Shell adds wallpaper blur",
            ShellTweakId::FloatingDock => "Always-visible floating dock via the Dash to Dock extension",
        }
    }

    pub open spec fn kind(self) -> TweakKind {
        match self {
            ShellTweakId::TopBarPosition => TweakKind::Position,
            ShellTweakId::ShowClock => TweakKind::Bool,
            ShellTweakId::ClockFormat => TweakKind::Enum,
            ShellTweakId::ShowWeekday => TweakKind::Bool,
            ShellTweakId::ShowBattery => TweakKind::Bool,
            ShellTweakId::OverviewHotCorner => TweakKind::Bool,
            ShellTweakId::WorkspaceThumbnails => TweakKind::Bool,
            ShellTweakId::AppsGridColumns => TweakKind::Int,
            ShellTweakId::WorkspacesOnAllMonitors => TweakKind::Bool,
            ShellTweakId::DynamicWorkspaces => TweakKind::Bool,
            ShellTweakId::ReducedMotion => TweakKind::Bool,
            ShellTweakId::WindowAnimationSpeed => TweakKind::Int,
            ShellTweakId::EnableAnimations => TweakKind::Bool,
            ShellTweakId::FocusMode => TweakKind::Enum,
            ShellTweakId::AttachModalDialogs => TweakKind::Bool,
            ShellTweakId::TitlebarDoubleClickAction => TweakKind::Enum,
            ShellTweakId::ButtonLayout => TweakKind::Enum,
            ShellTweakId::NumWorkspaces => TweakKind::Int,
            ShellTweakId::CursorSize => TweakKind::Int,
            ShellTweakId::FontAntialiasing => TweakKind::Enum,
            ShellTweakId::FontHinting => TweakKind::Enum,
            ShellTweakId::OverviewBlur => TweakKind::Bool,
            ShellTweakId::FloatingDock => TweakKind::Bool,
        }
    }

    /// The broad value type this tweak carries.
    pub fn value_kind(self) -> (r: TweakKind)
        ensures
            r == self.kind(),
    {
        match self {
            ShellTweakId::TopBarPosition => TweakKind::Position,
            ShellTweakId::ShowClock => TweakKind::Bool,
            ShellTweakId::ClockFormat => TweakKind::Enum,
            ShellTweakId::ShowWeekday => TweakKind::Bool,
            ShellTweakId::ShowBattery => TweakKind::Bool,
            ShellTweakId::OverviewHotCorner => TweakKind::Bool,
            ShellTweakId::WorkspaceThumbnails => TweakKind::Bool,
            ShellTweakId::AppsGridColumns => TweakKind::Int,
            ShellTweakId::WorkspacesOnAllMonitors => TweakKind::Bool,
            ShellTweakId::DynamicWorkspaces => TweakKind::Bool,
            ShellTweakId::ReducedMotion => TweakKind::Bool,
            ShellTweakId::WindowAnimationSpeed => TweakKind::Int,
            ShellTweakId::EnableAnimations => TweakKind::Bool,
            ShellTweakId::FocusMode => TweakKind::Enum,
            ShellTweakId::AttachModalDialogs => TweakKind::Bool,
            ShellTweakId::TitlebarDoubleClickAction => TweakKind::Enum,
            ShellTweakId::ButtonLayout => TweakKind::Enum,
            ShellTweakId::NumWorkspaces => TweakKind::Int,
            ShellTweakId::CursorSize => TweakKind::Int,
            ShellTweakId::FontAntialiasing => TweakKind::Enum,
            ShellTweakId::FontHinting => TweakKind::Enum,
            ShellTweakId::OverviewBlur => TweakKind::Bool,
            ShellTweakId::FloatingDock => TweakKind::Bool,
        }
    }

    pub open spec fn options_text(self) -> Seq<(Seq<char>, Seq<char>)> {
        match self {
            ShellTweakId::TopBarPosition => Seq::empty(),
            ShellTweakId::ShowClock => Seq::empty(),
            ShellTweakId::ClockFormat => seq![("24h"@, "24-hour"@), ("12h"@, "12-hour"@)],
            ShellTweakId::ShowWeekday => Seq::empty(),
            ShellTweakId::ShowBattery => Seq::empty(),
            ShellTweakId::OverviewHotCorner => Seq::empty(),
            ShellTweakId::WorkspaceThumbnails => Seq::empty(),
            ShellTweakId::AppsGridColumns => Seq::empty(),
            ShellTweakId::WorkspacesOnAllMonitors => Seq::empty(),
            ShellTweakId::DynamicWorkspaces => Seq::empty(),
            ShellTweakId::ReducedMotion => Seq::empty(),
            ShellTweakId::WindowAnimationSpeed => Seq::empty(),
            ShellTweakId::EnableAnimations => Seq::empty(),
            ShellTweakId::FocusMode => seq![("click"@, "Click to Focus"@), ("sloppy"@, "Focus Follows Mouse"@), ("mouse"@, "Mouse (raise-on-click off)"@)],
            ShellTweakId::AttachModalDialogs => Seq::empty(),
            ShellTweakId::TitlebarDoubleClickAction => seq![("toggle-maximize"@, "Toggle Maximize"@), ("minimize"@, "Minimize"@), ("toggle-shade"@, "Toggle Shade"@), ("lower"@, "Lower Window"@), ("menu"@, "Window Menu"@), ("none"@, "Do Nothing"@)],
            ShellTweakId::ButtonLayout => seq![(":close"@, "Close only"@), (":minimize,close"@, "Minimize + Close"@), (":minimize,maximize,close"@, "Standard (right)"@), ("close,maximize,minimize:"@, "Left side"@)],
            ShellTweakId::NumWorkspaces => Seq::empty(),
            ShellTweakId::CursorSize => Seq::empty(),
            ShellTweakId::FontAntialiasing => seq![("rgba"@, "Subpixel (RGBA)"@), ("grayscale"@, "Grayscale"@), ("none"@, "None"@)],
            ShellTweakId::FontHinting => seq![("slight"@, "Slight"@), ("medium"@, "Medium"@), ("full"@, "Full"@), ("none"@, "None"@)],
            ShellTweakId::OverviewBlur => Seq::empty(),
            ShellTweakId::FloatingDock => Seq::empty(),
        }
    }

    /// For enum-valued tweaks, the `(value, label)` pairs to offer, in
    /// render order; empty for other tweaks.
    pub fn enum_options(self) -> (r: &'static [(&'static str, &'static str)])
        ensures
            r@.map_values(|p: (&'static str, &'static str)| (p.0@, p.1@)) == self.options_text(),
    {
        match self {
            ShellTweakId::ClockFormat => {
                let r: &'static [(&'static str, &'static str)] = &[("24h", "24-hour"), ("12h", "12-hour")];
                assert(r@.map_values(|p: (&'static str, &'static str)| (p.0@, p.1@)) =~= self.options_text());
                r
            },
            ShellTweakId::FocusMode => {
                let r: &'static [(&'static str, &'static str)] = &[("click", "Click to Focus"), ("sloppy", "Focus Follows Mouse"), ("mouse", "Mouse (raise-on-click off)")];
                assert(r@.map_values(|p: (&'static str, &'static str)| (p.0@, p.1@)) =~= self.options_text());
                r
            },
            ShellTweakId::TitlebarDoubleClickAction => {
                let r: &'static [(&'static str, &'static str)] = &[("toggle-maximize", "Toggle Maximize"), ("minimize", "Minimize"), ("toggle-shade", "Toggle Shade"), ("lower", "Lower Window"), ("menu", "Window Menu"), ("none", "Do Nothing")];
                assert(r@.map_values(|p: (&'static str, &'static str)| (p.0@, p.1@)) =~= self.options_text());
                r
            },
            ShellTweakId::ButtonLayout => {
                let r: &'static [(&'static str, &'static str)] = &[(":close", "Close only"), (":minimize,close", "Minimize + Close"), (":minimize,maximize,close", "Standard (right)"), ("close,maximize,minimize:", "Left side")];
                assert(r@.map_values(|p: (&'static str, &'static str)| (p.0@, p.1@)) =~= self.options_text());
                r
            },
            ShellTweakId::FontAntialiasing => {
                let r: &'static [(&'static str, &'static str)] = &[("rgba", "Subpixel (RGBA)"), ("grayscale", "Grayscale"), ("none", "None")];
                assert(r@.map_values(|p: (&'static str, &'static str)| (p.0@, p.1@)) =~= self.options_text());
                r
            },
            ShellTweakId::FontHinting => {
                let r: &'static [(&'static str, &'static str)] = &[("slight", "Slight"), ("medium", "Medium"), ("full", "Full"), ("none", "None")];
                assert(r@.map_values(|p: (&'static str, &'static str)| (p.0@, p.1@)) =~= self.options_text());
                r
            },
            _ => {
                let r: &'static [(&'static str, &'static str)] = &[];
                assert(r@.map_values(|p: (&'static str, &'static str)| (p.0@, p.1@)) =~= self.options_text());
                r
            },
        }
    }

    /// Reverse of [`Self::slug`]: the id whose slug is `s`, if any.
    pub open spec fn from_slug_spec(s: Seq<char>) -> Option<ShellTweakId> {
        if s == "top_bar_position"@ {
            Some(ShellTweakId::TopBarPosition)
        } else if s == "show_clock"@ {
            Some(ShellTweakId::ShowClock)
        } else if s == "clock_format"@ {
            Some(ShellTweakId::ClockFormat)
        } else if s == "show_weekday"@ {
            Some(ShellTweakId::ShowWeekday)
        } else if s == "show_battery"@ {
            Some(ShellTweakId::ShowBattery)
        } else if s == "overview_hot_corner"@ {
            Some(ShellTweakId::OverviewHotCorner)
        } else if s == "workspace_thumbnails"@ {
            Some(ShellTweakId::WorkspaceThumbnails)
        } else if s == "apps_grid_columns"@ {
            Some(ShellTweakId::AppsGridColumns)
        } else if s == "workspaces_on_all_monitors"@ {
            Some(ShellTweakId::WorkspacesOnAllMonitors)
        } else if s == "dynamic_workspaces"@ {
            Some(ShellTweakId::DynamicWorkspaces)
        } else if s == "reduced_motion"@ {
            Some(ShellTweakId::ReducedMotion)
        } else if s == "window_animation_speed"@ {
            Some(ShellTweakId::WindowAnimationSpeed)
        } else if s == "enable_animations"@ {
            Some(ShellTweakId::EnableAnimations)
        } else if s == "focus_mode"@ {
            Some(ShellTweakId::FocusMode)
        } else if s == "attach_modal_dialogs"@ {
            Some(ShellTweakId::AttachModalDialogs)
        } else if s == "titlebar_double_click_action"@ {
            Some(ShellTweakId::TitlebarDoubleClickAction)
        } else if s == "button_layout"@ {
            Some(ShellTweakId::ButtonLayout)
        } else if s == "num_workspaces"@ {
            Some(ShellTweakId::NumWorkspaces)
        } else if s == "cursor_size"@ {
            Some(ShellTweakId::CursorSize)
        } else if s == "font_antialiasing"@ {
            Some(ShellTweakId::FontAntialiasing)
        } else if s == "font_hinting"@ {
            Some(ShellTweakId::FontHinting)
        } else if s == "overview_blur"@ {
            Some(ShellTweakId::OverviewBlur)
        } else if s == "floating_dock"@ {
            Some(ShellTweakId::FloatingDock)
        } else {
            None
        }
    }

    /// Reverse of [`Self::slug`]. Unknown slugs give `None` so pack
    /// import can skip them.
    pub fn from_slug(slug: &str) -> (r: Option<Self>)
        ensures
            r == Self::from_slug_spec(slug@),
    {
        if str_eq(slug, "top_bar_position") {
            Some(ShellTweakId::TopBarPosition)
        } else if str_eq(slug, "show_clock") {
            Some(ShellTweakId::ShowClock)
        } else if str_eq(slug, "clock_format") {
            Some(ShellTweakId::ClockFormat)
        } else if str_eq(slug, "show_weekday") {
            Some(ShellTweakId::ShowWeekday)
        } else if str_eq(slug, "show_battery") {
            Some(ShellTweakId::ShowBattery)
        } else if str_eq(slug, "overview_hot_corner") {
            Some(ShellTweakId::OverviewHotCorner)
        } else if str_eq(slug, "workspace_thumbnails") {
            Some(ShellTweakId::WorkspaceThumbnails)
        } else if str_eq(slug, "apps_grid_columns") {
            Some(ShellTweakId::AppsGridColumns)
        } else if str_eq(slug, "workspaces_on_all_monitors") {
            Some(ShellTweakId::WorkspacesOnAllMonitors)
        } else if str_eq(slug, "dynamic_workspaces") {
            Some(ShellTweakId::DynamicWorkspaces)
        } else if str_eq(slug, "reduced_motion") {
            Some(ShellTweakId::ReducedMotion)
        } else if str_eq(slug, "window_animation_speed") {
            Some(ShellTweakId::WindowAnimationSpeed)
        } else if str_eq(slug, "enable_animations") {
            Some(ShellTweakId::EnableAnimations)
        } else if str_eq(slug, "focus_mode") {
            Some(ShellTweakId::FocusMode)
        } else if str_eq(slug, "attach_modal_dialogs") {
            Some(ShellTweakId::AttachModalDialogs)
        } else if str_eq(slug, "titlebar_double_click_action") {
            Some(ShellTweakId::TitlebarDoubleClickAction)
        } else if str_eq(slug, "button_layout") {
            Some(ShellTweakId::ButtonLayout)
        } else if str_eq(slug, "num_workspaces") {
            Some(ShellTweakId::NumWorkspaces)
        } else if str_eq(slug, "cursor_size") {
            Some(ShellTweakId::CursorSize)
        } else if str_eq(slug, "font_antialiasing") {
            Some(ShellTweakId::FontAntialiasing)
        } else if str_eq(slug, "font_hinting") {
            Some(ShellTweakId::FontHinting)
        } else if str_eq(slug, "overview_blur") {
            Some(ShellTweakId::OverviewBlur)
        } else if str_eq(slug, "floating_dock") {
            Some(ShellTweakId::FloatingDock)
        } else {
            None
        }
    }
}

/// Every tweak's slug reads back as that tweak.
pub proof fn lemma_slug_round_trip(id: ShellTweakId)
    ensures
        ShellTweakId::from_slug_spec(id.slug_text()) == Some(id),
{
    reveal_strlit("top_bar_position");
    reveal_strlit("show_clock");
    reveal_strlit("clock_format");
    reveal_strlit("show_weekday");
    reveal_strlit("show_battery");
    reveal_strlit("overview_hot_corner");
    reveal_strlit("workspace_thumbnails");
    reveal_strlit("apps_grid_columns");
    reveal_strlit("workspaces_on_all_monitors");
    reveal_strlit("dynamic_workspaces");
    reveal_strlit("reduced_motion");
    reveal_strlit("window_animation_speed");
    reveal_strlit("enable_animations");
    reveal_strlit("focus_mode");
    reveal_strlit("attach_modal_dialogs");
    reveal_strlit("titlebar_double_click_action");
    reveal_strlit("button_layout");
    reveal_strlit("num_workspaces");
    reveal_strlit("cursor_size");
    reveal_strlit("font_antialiasing");
    reveal_strlit("font_hinting");
    reveal_strlit("overview_blur");
    reveal_strlit("floating_dock");
    match id {
        ShellTweakId::TopBarPosition => {
        },
        ShellTweakId::ShowClock => {
            assert("show_clock"@.len() != "top_bar_position"@.len());
        },
        ShellTweakId::ClockFormat => {
            assert("clock_format"@.len() != "top_bar_position"@.len());
            assert("clock_format"@.len() != "show_clock"@.len());
        },
        ShellTweakId::ShowWeekday => {
            assert("show_weekday"@.len() != "top_bar_position"@.len());
            assert("show_weekday"@.len() != "show_clock"@.len());
            assert("show_weekday"@[0] != "clock_format"@[0]);
        },
        ShellTweakId::ShowBattery => {
            assert("show_battery"@.len() != "top_bar_position"@.len());
            assert("show_battery"@.len() != "show_clock"@.len());
            assert("show_battery"@[0] != "clock_format"@[0]);
            assert("show_battery"@[5] != "show_weekday"@[5]);
        },
        ShellTweakId::OverviewHotCorner => {
            assert("overview_hot_corner"@.len() != "top_bar_position"@.len());
            assert("overview_hot_corner"@.len() != "show_clock"@.len());
            assert("overview_hot_corner"@.len() != "clock_format"@.len());
            assert("overview_hot_corner"@.len() != "show_weekday"@.len());
            assert("overview_hot_corner"@.len() != "show_battery"@.len());
        },
        ShellTweakId::WorkspaceThumbnails => {
            assert("workspace_thumbnails"@.len() != "top_bar_position"@.len());
            assert("workspace_thumbnails"@.len() != "show_clock"@.len());
            assert("workspace_thumbnails"@.len() != "clock_format"@.len());
            assert("workspace_thumbnails"@.len() != "show_weekday"@.len());
            assert("workspace_thumbnails"@.len() != "show_battery"@.len());
            assert("workspace_thumbnails"@.len() != "overview_hot_corner"@.len());
        },
        ShellTweakId::AppsGridColumns => {
            assert("apps_grid_columns"@.len() != "top_bar_position"@.len());
            assert("apps_grid_columns"@.len() != "show_clock"@.len());
            assert("apps_grid_columns"@.len() != "clock_format"@.len());
            assert("apps_grid_columns"@.len() != "show_weekday"@.len());
            assert("apps_grid_columns"@.len() != "show_battery"@.len());
            assert("apps_grid_columns"@.len() != "overview_hot_corner"@.len());
            assert("apps_grid_columns"@.len() != "workspace_thumbnails"@.len());
        },
        ShellTweakId::WorkspacesOnAllMonitors => {
            assert("workspaces_on_all_monitors"@.len() != "top_bar_position"@.len());
            assert("workspaces_on_all_monitors"@.len() != "show_clock"@.len());
            assert("workspaces_on_all_monitors"@.len() != "clock_format"@.len());
            assert("workspaces_on_all_monitors"@.len() != "show_weekday"@.len());
            assert("workspaces_on_all_monitors"@.len() != "show_battery"@.len());
            assert("workspaces_on_all_monitors"@.len() != "overview_hot_corner"@.len());
            assert("workspaces_on_all_monitors"@.len() != "workspace_thumbnails"@.len());
            assert("workspaces_on_all_monitors"@.len() != "apps_grid_columns"@.len());
        },
        ShellTweakId::DynamicWorkspaces => {
            assert("dynamic_workspaces"@.len() != "top_bar_position"@.len());
            assert("dynamic_workspaces"@.len() != "show_clock"@.len());
            assert("dynamic_workspaces"@.len() != "clock_format"@.len());
            assert("dynamic_workspaces"@.len() != "show_weekday"@.len());
            assert("dynamic_workspaces"@.len() != "show_battery"@.len());
            assert("dynamic_workspaces"@.len() != "overview_hot_corner"@.len());
            assert("dynamic_workspaces"@.len() != "workspace_thumbnails"@.len());
            assert("dynamic_workspaces"@.len() != "apps_grid_columns"@.len());
            assert("dynamic_workspaces"@.len() != "workspaces_on_all_monitors"@.len());
        },
        ShellTweakId::ReducedMotion => {
            assert("reduced_motion"@.len() != "top_bar_position"@.len());
            assert("reduced_motion"@.len() != "show_clock"@.len());
            assert("reduced_motion"@.len() != "clock_format"@.len());
            assert("reduced_motion"@.len() != "show_weekday"@.len());
            assert("reduced_motion"@.len() != "show_battery"@.len());
            assert("reduced_motion"@.len() != "overview_hot_corner"@.len());
            assert("reduced_motion"@.len() != "workspace_thumbnails"@.len());
            assert("reduced_motion"@.len() != "apps_grid_columns"@.len());
            assert("reduced_motion"@.len() != "workspaces_on_all_monitors"@.len());
            assert("reduced_motion"@.len() != "dynamic_workspaces"@.len());
        },
        ShellTweakId::WindowAnimationSpeed => {
            assert("window_animation_speed"@.len() != "top_bar_position"@.len());
            assert("window_animation_speed"@.len() != "show_clock"@.len());
            assert("window_animation_speed"@.len() != "clock_format"@.len());
            assert("window_animation_speed"@.len() != "show_weekday"@.len());
            assert("window_animation_speed"@.len() != "show_battery"@.len());
            assert("window_animation_speed"@.len() != "overview_hot_corner"@.len());
            assert("window_animation_speed"@.len() != "workspace_thumbnails"@.len());
            assert("window_animation_speed"@.len() != "apps_grid_columns"@.len());
            assert("window_animation_speed"@.len() != "workspaces_on_all_monitors"@.len());
            assert("window_animation_speed"@.len() != "dynamic_workspaces"@.len());
            assert("window_animation_speed"@.len() != "reduced_motion"@.len());
        },
        ShellTweakId::EnableAnimations => {
            assert("enable_animations"@.len() != "top_bar_position"@.len());
            assert("enable_animations"@.len() != "show_clock"@.len());
            assert("enable_animations"@.len() != "clock_format"@.len());
            assert("enable_animations"@.len() != "show_weekday"@.len());
            assert("enable_animations"@.len() != "show_battery"@.len());
            assert("enable_animations"@.len() != "overview_hot_corner"@.len());
            assert("enable_animations"@.len() != "workspace_thumbnails"@.len());
            assert("enable_animations"@[0] != "apps_grid_columns"@[0]);
            assert("enable_animations"@.len() != "workspaces_on_all_monitors"@.len());
            assert("enable_animations"@.len() != "dynamic_workspaces"@.len());
            assert("enable_animations"@.len() != "reduced_motion"@.len());
            assert("enable_animations"@.len() != "window_animation_speed"@.len());
        },
        ShellTweakId::FocusMode => {
            assert("focus_mode"@.len() != "top_bar_position"@.len());
            assert("focus_mode"@[0] != "show_clock"@[0]);
            assert("focus_mode"@.len() != "clock_format"@.len());
            assert("focus_mode"@.len() != "show_weekday"@.len());
            assert("focus_mode"@.len() != "show_battery"@.len());
            assert("focus_mode"@.len() != "overview_hot_corner"@.len());
            assert("focus_mode"@.len() != "workspace_thumbnails"@.len());
            assert("focus_mode"@.len() != "apps_grid_columns"@.len());
            assert("focus_mode"@.len() != "workspaces_on_all_monitors"@.len());
            assert("focus_mode"@.len() != "dynamic_workspaces"@.len());
            assert("focus_mode"@.len() != "reduced_motion"@.len());
            assert("focus_mode"@.len() != "window_animation_speed"@.len());
            assert("focus_mode"@.len() != "enable_animations"@.len());
        },
        ShellTweakId::AttachModalDialogs => {
            assert("attach_modal_dialogs"@.len() != "top_bar_position"@.len());
            assert("attach_modal_dialogs"@.len() != "show_clock"@.len());
            assert("attach_modal_dialogs"@.len() != "clock_format"@.len());
            assert("attach_modal_dialogs"@.len() != "show_weekday"@.len());
            assert("attach_modal_dialogs"@.len() != "show_battery"@.len());
            assert("attach_modal_dialogs"@.len() != "overview_hot_corner"@.len());
            assert("attach_modal_dialogs"@[0] != "workspace_thumbnails"@[0]);
            assert("attach_modal_dialogs"@.len() != "apps_grid_columns"@.len());
            assert("attach_modal_dialogs"@.len() != "workspaces_on_all_monitors"@.len());
            assert("attach_modal_dialogs"@.len() != "dynamic_workspaces"@.len());
            assert("attach_modal_dialogs"@.len() != "reduced_motion"@.len());
            assert("attach_modal_dialogs"@.len() != "window_animation_speed"@.len());
            assert("attach_modal_dialogs"@.len() != "enable_animations"@.len());
            assert("attach_modal_dialogs"@.len() != "focus_mode"@.len());
        },
        ShellTweakId::TitlebarDoubleClickAction => {
            assert("titlebar_double_click_action"@.len() != "top_bar_position"@.len());
            assert("titlebar_double_click_action"@.len() != "show_clock"@.len());
            assert("titlebar_double_click_action"@.len() != "clock_format"@.len());
            assert("titlebar_double_click_action"@.len() != "show_weekday"@.len());
            assert("titlebar_double_click_action"@.len() != "show_battery"@.len());
            assert("titlebar_double_click_action"@.len() != "overview_hot_corner"@.len());
            assert("titlebar_double_click_action"@.len() != "workspace_thumbnails"@.len());
            assert("titlebar_double_click_action"@.len() != "apps_grid_columns"@.len());
            assert("titlebar_double_click_action"@.len() != "workspaces_on_all_monitors"@.len());
            assert("titlebar_double_click_action"@.len() != "dynamic_workspaces"@.len());
            assert("titlebar_double_click_action"@.len() != "reduced_motion"@.len());
            assert("titlebar_double_click_action"@.len() != "window_animation_speed"@.len());
            assert("titlebar_double_click_action"@.len() != "enable_animations"@.len());
            assert("titlebar_double_click_action"@.len() != "focus_mode"@.len());
            assert("titlebar_double_click_action"@.len() != "attach_modal_dialogs"@.len());
        },
        ShellTweakId::ButtonLayout => {
            assert("button_layout"@.len() != "top_bar_position"@.len());
            assert("button_layout"@.len() != "show_clock"@.len());
            assert("button_layout"@.len() != "clock_format"@.len());
            assert("button_layout"@.len() != "show_weekday"@.len());
            assert("button_layout"@.len() != "show_battery"@.len());
            assert("button_layout"@.len() != "overview_hot_corner"@.len());
            assert("button_layout"@.len() != "workspace_thumbnails"@.len());
            assert("button_layout"@.len() != "apps_grid_columns"@.len());
            assert("button_layout"@.len() != "workspaces_on_all_monitors"@.len());
            assert("button_layout"@.len() != "dynamic_workspaces"@.len());
            assert("button_layout"@.len() != "reduced_motion"@.len());
            assert("button_layout"@.len() != "window_animation_speed"@.len());
            assert("button_layout"@.len() != "enable_animations"@.len());
            assert("button_layout"@.len() != "focus_mode"@.len());
            assert("button_layout"@.len() != "attach_modal_dialogs"@.len());
            assert("button_layout"@.len() != "titlebar_double_click_action"@.len());
        },
        ShellTweakId::NumWorkspaces => {
            assert("num_workspaces"@.len() != "top_bar_position"@.len());
            assert("num_workspaces"@.len() != "show_clock"@.len());
            assert("num_workspaces"@.len() != "clock_format"@.len());
            assert("num_workspaces"@.len() != "show_weekday"@.len());
            assert("num_workspaces"@.len() != "show_battery"@.len());
            assert("num_workspaces"@.len() != "overview_hot_corner"@.len());
            assert("num_workspaces"@.len() != "workspace_thumbnails"@.len());
            assert("num_workspaces"@.len() != "apps_grid_columns"@.len());
            assert("num_workspaces"@.len() != "workspaces_on_all_monitors"@.len());
            assert("num_workspaces"@.len() != "dynamic_workspaces"@.len());
            assert("num_workspaces"@[0] != "reduced_motion"@[0]);
            assert("num_workspaces"@.len() != "window_animation_speed"@.len());
            assert("num_workspaces"@.len() != "enable_animations"@.len());
            assert("num_workspaces"@.len() != "focus_mode"@.len());
            assert("num_workspaces"@.len() != "attach_modal_dialogs"@.len());
            assert("num_workspaces"@.len() != "titlebar_double_click_action"@.len());
            assert("num_workspaces"@.len() != "button_layout"@.len());
        },
        ShellTweakId::CursorSize => {
            assert("cursor_size"@.len() != "top_bar_position"@.len());
            assert("cursor_size"@.len() != "show_clock"@.len());
            assert("cursor_size"@.len() != "clock_format"@.len());
            assert("cursor_size"@.len() != "show_weekday"@.len());
            assert("cursor_size"@.len() != "show_battery"@.len());
            assert("cursor_size"@.len() != "overview_hot_corner"@.len());
            assert("cursor_size"@.len() != "workspace_thumbnails"@.len());
            assert("cursor_size"@.len() != "apps_grid_columns"@.len());
            assert("cursor_size"@.len() != "workspaces_on_all_monitors"@.len());
            assert("cursor_size"@.len() != "dynamic_workspaces"@.len());
            assert("cursor_size"@.len() != "reduced_motion"@.len());
            assert("cursor_size"@.len() != "window_animation_speed"@.len());
            assert("cursor_size"@.len() != "enable_animations"@.len());
            assert("cursor_size"@.len() != "focus_mode"@.len());
            assert("cursor_size"@.len() != "attach_modal_dialogs"@.len());
            assert("cursor_size"@.len() != "titlebar_double_click_action"@.len());
            assert("cursor_size"@.len() != "button_layout"@.len());
            assert("cursor_size"@.len() != "num_workspaces"@.len());
        },
        ShellTweakId::FontAntialiasing => {
            assert("font_antialiasing"@.len() != "top_bar_position"@.len());
            assert("font_antialiasing"@.len() != "show_clock"@.len());
            assert("font_antialiasing"@.len() != "clock_format"@.len());
            assert("font_antialiasing"@.len() != "show_weekday"@.len());
            assert("font_antialiasing"@.len() != "show_battery"@.len());
            assert("font_antialiasing"@.len() != "overview_hot_corner"@.len());
            assert("font_antialiasing"@.len() != "workspace_thumbnails"@.len());
            assert("font_antialiasing"@[0] != "apps_grid_columns"@[0]);
            assert("font_antialiasing"@.len() != "workspaces_on_all_monitors"@.len());
            assert("font_antialiasing"@.len() != "dynamic_workspaces"@.len());
            assert("font_antialiasing"@.len() != "reduced_motion"@.len());
            assert("font_antialiasing"@.len() != "window_animation_speed"@.len());
            assert("font_antialiasing"@[0] != "enable_animations"@[0]);
            assert("font_antialiasing"@.len() != "focus_mode"@.len());
            assert("font_antialiasing"@.len() != "attach_modal_dialogs"@.len());
            assert("font_antialiasing"@.len() != "titlebar_double_click_action"@.len());
            assert("font_antialiasing"@.len() != "button_layout"@.len());
            assert("font_antialiasing"@.len() != "num_workspaces"@.len());
            assert("font_antialiasing"@.len() != "cursor_size"@.len());
        },
        ShellTweakId::FontHinting => {
            assert("font_hinting"@.len() != "top_bar_position"@.len());
            assert("font_hinting"@.len() != "show_clock"@.len());
            assert("font_hinting"@[0] != "clock_format"@[0]);
            assert("font_hinting"@[0] != "show_weekday"@[0]);
            assert("font_hinting"@[0] != "show_battery"@[0]);
            assert("font_hinting"@.len() != "overview_hot_corner"@.len());
            assert("font_hinting"@.len() != "workspace_thumbnails"@.len());
            assert("font_hinting"@.len() != "apps_grid_columns"@.len());
            assert("font_hinting"@.len() != "workspaces_on_all_monitors"@.len());
            assert("font_hinting"@.len() != "dynamic_workspaces"@.len());
            assert("font_hinting"@.len() != "reduced_motion"@.len());
            assert("font_hinting"@.len() != "window_animation_speed"@.len());
            assert("font_hinting"@.len() != "enable_animations"@.len());
            assert("font_hinting"@.len() != "focus_mode"@.len());
            assert("font_hinting"@.len() != "attach_modal_dialogs"@.len());
            assert("font_hinting"@.len() != "titlebar_double_click_action"@.len());
            assert("font_hinting"@.len() != "button_layout"@.len());
            assert("font_hinting"@.len() != "num_workspaces"@.len());
            assert("font_hinting"@.len() != "cursor_size"@.len());
            assert("font_hinting"@.len() != "font_antialiasing"@.len());
        },
        ShellTweakId::OverviewBlur => {
            assert("overview_blur"@.len() != "top_bar_position"@.len());
            assert("overview_blur"@.len() != "show_clock"@.len());
            assert("overview_blur"@.len() != "clock_format"@.len());
            assert("overview_blur"@.len() != "show_weekday"@.len());
            assert("overview_blur"@.len() != "show_battery"@.len());
            assert("overview_blur"@.len() != "overview_hot_corner"@.len());
            assert("overview_blur"@.len() != "workspace_thumbnails"@.len());
            assert("overview_blur"@.len() != "apps_grid_columns"@.len());
            assert("overview_blur"@.len() != "workspaces_on_all_monitors"@.len());
            assert("overview_blur"@.len() != "dynamic_workspaces"@.len());
            assert("overview_blur"@.len() != "reduced_motion"@.len());
            assert("overview_blur"@.len() != "window_animation_speed"@.len());
            assert("overview_blur"@.len() != "enable_animations"@.len());
            assert("overview_blur"@.len() != "focus_mode"@.len());
            assert("overview_blur"@.len() != "attach_modal_dialogs"@.len());
            assert("overview_blur"@.len() != "titlebar_double_click_action"@.len());
            assert("overview_blur"@[0] != "button_layout"@[0]);
            assert("overview_blur"@.len() != "num_workspaces"@.len());
            assert("overview_blur"@.len() != "cursor_size"@.len());
            assert("overview_blur"@.len() != "font_antialiasing"@.len());
            assert("overview_blur"@.len() != "font_hinting"@.len());
        },
        ShellTweakId::FloatingDock => {
            assert("floating_dock"@.len() != "top_bar_position"@.len());
            assert("floating_dock"@.len() != "show_clock"@.len());
            assert("floating_dock"@.len() != "clock_format"@.len());
            assert("floating_dock"@.len() != "show_weekday"@.len());
            assert("floating_dock"@.len() != "show_battery"@.len());
            assert("floating_dock"@.len() != "overview_hot_corner"@.len());
            assert("floating_dock"@.len() != "workspace_thumbnails"@.len());
            assert("floating_dock"@.len() != "apps_grid_columns"@.len());
            assert("floating_dock"@.len() != "workspaces_on_all_monitors"@.len());
            assert("floating_dock"@.len() != "dynamic_workspaces"@.len());
            assert("floating_dock"@.len() != "reduced_motion"@.len());
            assert("floating_dock"@.len() != "window_animation_speed"@.len());
            assert("floating_dock"@.len() != "enable_animations"@.len());
            assert("floating_dock"@.len() != "focus_mode"@.len());
            assert("floating_dock"@.len() != "attach_modal_dialogs"@.len());
            assert("floating_dock"@.len() != "titlebar_double_click_action"@.len());
            assert("floating_dock"@[0] != "button_layout"@[0]);
            assert("floating_dock"@.len() != "num_workspaces"@.len());
            assert("floating_dock"@.len() != "cursor_size"@.len());
            assert("floating_dock"@.len() != "font_antialiasing"@.len());
            assert("floating_dock"@.len() != "font_hinting"@.len());
            assert("floating_dock"@[0] != "overview_blur"@[0]);
        },
    }
}

/// Type-tagged value carried by a [`ShellTweak`].
#[derive(Debug, Clone, PartialEq)]
pub enum TweakValue {
    Bool(bool),
    Int(i32),
    /// A short, stable enum variant tag (e.g. `"24h"`).
    Enum(String),
    Position(PanelPosition),
}

/// A tweak value with its text payload taken by view.
pub enum TweakValueView {
    Bool(bool),
    Int(i32),
    Enum(Seq<char>),
    Position(PanelPosition),
}

impl View for TweakValue {
    type V = TweakValueView;

    open spec fn view(&self) -> TweakValueView {
        match self {
            TweakValue::Bool(b) => TweakValueView::Bool(*b),
            TweakValue::Int(i) => TweakValueView::Int(*i),
            TweakValue::Enum(s) => TweakValueView::Enum(s@),
            TweakValue::Position(p) => TweakValueView::Position(*p),
        }
    }
}

impl TweakValueView {
    pub open spec fn kind(self) -> TweakKind {
        match self {
            TweakValueView::Bool(_) => TweakKind::Bool,
            TweakValueView::Int(_) => TweakKind::Int,
            TweakValueView::Enum(_) => TweakKind::Enum,
            TweakValueView::Position(_) => TweakKind::Position,
        }
    }

    /// The text stored in a pack for this value.
    pub open spec fn toml_text(self) -> Seq<char> {
        match self {
            TweakValueView::Bool(b) => if b { "true"@ } else { "false"@ },
            TweakValueView::Int(i) => i32_text(i),
            TweakValueView::Enum(s) => s,
            TweakValueView::Position(PanelPosition::Top) => "top"@,
            TweakValueView::Position(PanelPosition::Bottom) => "bottom"@,
        }
    }
}

/// What `TweakValue::parse_for_id` reads from `raw` for tweak `id`:
/// the id fixes the value type.
pub open spec fn parse_for_id_spec(id: ShellTweakId, raw: Seq<char>) -> Option<TweakValueView> {
    match id.kind() {
        TweakKind::Bool => if raw == "true"@ {
            Some(TweakValueView::Bool(true))
        } else if raw == "false"@ {
            Some(TweakValueView::Bool(false))
        } else {
            None
        },
        TweakKind::Int => match parse_i32_spec(raw) {
            Some(i) => Some(TweakValueView::Int(i)),
            None => None,
        },
        TweakKind::Enum => Some(TweakValueView::Enum(raw)),
        TweakKind::Position => if raw == "top"@ {
            Some(TweakValueView::Position(PanelPosition::Top))
        } else if raw == "bottom"@ {
            Some(TweakValueView::Position(PanelPosition::Bottom))
        } else {
            None
        },
    }
}

impl TweakValue {
    /// Encode the value as a short string for storage in packs. The
    /// accompanying id disambiguates the type on parse.
    pub fn as_toml_string(&self) -> (s: String)
        ensures
            s@ == self@.toml_text(),
    {
        match self {
            TweakValue::Bool(b) => if *b { owned("true") } else { owned("false") },
            TweakValue::Int(i) => i32_to_text(*i),
            TweakValue::Enum(s) => s.clone(),
            TweakValue::Position(PanelPosition::Top) => owned("top"),
            TweakValue::Position(PanelPosition::Bottom) => owned("bottom"),
        }
    }

    /// Parse a pack-serialised value for tweak `id`; `None` on any
    /// parse failure so pack loading skips malformed entries.
    pub fn parse_for_id(id: ShellTweakId, raw: &str) -> (r: Option<Self>)
        ensures
            match r {
                Some(v) => parse_for_id_spec(id, raw@) == Some(v@),
                None => parse_for_id_spec(id, raw@) is None,
            },
    {
        match id.value_kind() {
            TweakKind::Bool => if str_eq(raw, "true") {
                Some(TweakValue::Bool(true))
            } else if str_eq(raw, "false") {
                Some(TweakValue::Bool(false))
            } else {
                None
            },
            TweakKind::Int => {
                let v = chars_of(raw);
                match parse_i32_chars(&v) {
                    Some(i) => Some(TweakValue::Int(i)),
                    None => None,
                }
            },
            TweakKind::Enum => Some(TweakValue::Enum(owned(raw))),
            TweakKind::Position => if str_eq(raw, "top") {
                Some(TweakValue::Position(PanelPosition::Top))
            } else if str_eq(raw, "bottom") {
                Some(TweakValue::Position(PanelPosition::Bottom))
            } else {
                None
            },
        }
    }
}

/// A value encoded for a pack reads back as the same value, for every
/// tweak whose type matches the value's.
pub proof fn lemma_tweak_value_round_trip(id: ShellTweakId, v: TweakValueView)
    requires
        v.kind() == id.kind(),
    ensures
        parse_for_id_spec(id, v.toml_text()) == Some(v),
{
    reveal_strlit("true");
    reveal_strlit("false");
    reveal_strlit("top");
    reveal_strlit("bottom");
    match v {
        TweakValueView::Int(i) => {
            lemma_parse_i32_text(i);
        },
        _ => {},
    }
}

/// One shell tweak with the value to apply or the value just read.
#[derive(Debug, Clone, PartialEq)]
pub struct ShellTweak {
    pub id: ShellTweakId,
    pub value: TweakValue,
}

/// Per-tweak metadata for one GNOME version: how well the tweak is
/// supported, plus an optional safe range for integer values.
#[derive(Debug, Clone, PartialEq, Eq)]
pub struct TweakHint {
    pub id: ShellTweakId,
    pub support: ControlSupport,
    /// If set, integer values outside this range are clamped or
    /// degraded on this version.
    pub safe_range: Option<(i32, i32)>,
}

/// The capability table for GNOME major version `major`, in the order
/// the profile lists it.
pub open spec fn tweak_hints(major: u32) -> Seq<TweakHint> {
    seq![
        TweakHint { id: ShellTweakId::EnableAnimations, support: ControlSupport::Full, safe_range: None },
        TweakHint { id: ShellTweakId::ReducedMotion, support: ControlSupport::Unsupported { reason: "Redundant with Enable Animations on stock GNOME" }, safe_range: None },
        TweakHint { id: ShellTweakId::WindowAnimationSpeed, support: ControlSupport::Unsupported { reason: "Requires a Shell extension to scale animation speeds" }, safe_range: Some((1i32, 8i32)) },
        TweakHint { id: ShellTweakId::ShowClock, support: ControlSupport::Full, safe_range: None },
        TweakHint { id: ShellTweakId::ClockFormat, support: ControlSupport::Full, safe_range: None },
        TweakHint { id: ShellTweakId::ShowWeekday, support: ControlSupport::Full, safe_range: None },
        TweakHint { id: ShellTweakId::ShowBattery, support: ControlSupport::Full, safe_range: None },
        TweakHint { id: ShellTweakId::TopBarPosition, support: ControlSupport::Unsupported { reason: "Requires a Shell extension to move the panel" }, safe_range: None },
        TweakHint { id: ShellTweakId::DynamicWorkspaces, support: ControlSupport::Full, safe_range: None },
        TweakHint { id: ShellTweakId::WorkspacesOnAllMonitors, support: ControlSupport::Full, safe_range: None },
        TweakHint { id: ShellTweakId::AttachModalDialogs, support: ControlSupport::Full, safe_range: None },
        TweakHint { id: ShellTweakId::FocusMode, support: ControlSupport::Full, safe_range: None },
        TweakHint { id: ShellTweakId::OverviewHotCorner, support: ControlSupport::Full, safe_range: None },
        TweakHint { id: ShellTweakId::WorkspaceThumbnails, support: ControlSupport::Unsupported { reason: "Requires a Shell extension to toggle thumbnails" }, safe_range: None },
        TweakHint { id: ShellTweakId::AppsGridColumns, support: if major >= 46 {
            ControlSupport::Degraded { reason: "Changes require a shell restart to take effect" }
        } else {
            ControlSupport::Unsupported { reason: "Apps grid layout key was added in GNOME 46" }
        }, safe_range: Some((4i32, 8i32)) },
        TweakHint { id: ShellTweakId::OverviewBlur, support: ControlSupport::Full, safe_range: None },
        TweakHint { id: ShellTweakId::FloatingDock, support: ControlSupport::Degraded { reason: "Requires the Dash to Dock extension" }, safe_range: None },
        TweakHint { id: ShellTweakId::CursorSize, support: ControlSupport::Full, safe_range: Some((16i32, 96i32)) },
        TweakHint { id: ShellTweakId::FontAntialiasing, support: ControlSupport::Full, safe_range: None },
        TweakHint { id: ShellTweakId::FontHinting, support: ControlSupport::Full, safe_range: None },
        TweakHint { id: ShellTweakId::TitlebarDoubleClickAction, support: ControlSupport::Full, safe_range: None },
        TweakHint { id: ShellTweakId::ButtonLayout, support: ControlSupport::Full, safe_range: None },
        TweakHint { id: ShellTweakId::NumWorkspaces, support: ControlSupport::Full, safe_range: Some((1i32, 8i32)) },
]
}

/// The first hint for `id` in `hints`.
pub open spec fn find_hint(hints: Seq<TweakHint>, id: ShellTweakId) -> Option<TweakHint>
    decreases hints.len(),
{
    if hints.len() == 0 {
        None
    } else if hints[0].id == id {
        Some(hints[0])
    } else {
        find_hint(hints.drop_first(), id)
    }
}

/// The ids of `hints` whose support is not `Unsupported`, in order.
pub open spec fn supported_of(hints: Seq<TweakHint>) -> Seq<ShellTweakId>
    decreases hints.len(),
{
    if hints.len() == 0 {
        Seq::empty()
    } else if hints.last().support is Unsupported {
        supported_of(hints.drop_last())
    } else {
        supported_of(hints.drop_last()).push(hints.last().id)
    }
}

/// Every tweak has a hint in every version's profile.
pub proof fn lemma_profile_covers_every_tweak(major: u32, id: ShellTweakId)
    ensures
        find_hint(tweak_hints(major), id) is Some,
        find_hint(tweak_hints(major), id)->0.id == id,
{
    reveal_with_fuel(find_hint, 24);
}

/// Enable Animations is fully supported on every version.
pub proof fn lemma_enable_animations_always_full(major: u32)
    ensures
        find_hint(tweak_hints(major), ShellTweakId::EnableAnimations)->0.support == ControlSupport::Full,
{
    reveal_with_fuel(find_hint, 24);
}

/// The tweaks that wait on a bundled Shell extension (Reduce Motion,
/// Animation Speed, Top Bar Position, Workspace Thumbnails) are
/// unsupported on every version.
pub proof fn lemma_extension_placeholders_unsupported(major: u32)
    ensures
        find_hint(tweak_hints(major), ShellTweakId::ReducedMotion)->0.support is Unsupported,
        find_hint(tweak_hints(major), ShellTweakId::WindowAnimationSpeed)->0.support is Unsupported,
        find_hint(tweak_hints(major), ShellTweakId::TopBarPosition)->0.support is Unsupported,
        find_hint(tweak_hints(major), ShellTweakId::WorkspaceThumbnails)->0.support is Unsupported,
{
    reveal_with_fuel(find_hint, 24);
}

/// App Grid Columns is degraded (restart needed) from GNOME 46 on and
/// unsupported before.
pub proof fn lemma_apps_grid_columns_support(major: u32)
    ensures
        major >= 46 ==> find_hint(tweak_hints(major), ShellTweakId::AppsGridColumns)->0.support is Degraded,
        major < 46 ==> find_hint(tweak_hints(major), ShellTweakId::AppsGridColumns)->0.support is Unsupported,
{
    reveal_with_fuel(find_hint, 24);
}

/// The tweaks backed by a stock GSettings key: animations, clock,
/// weekday, battery, workspaces, window management, hot corner, overview
/// blur, cursor, fonts, titlebar and buttons.
pub open spec fn stock_gsettings_tweak(id: ShellTweakId) -> bool {
    id == ShellTweakId::EnableAnimations || id == ShellTweakId::ShowClock
        || id == ShellTweakId::ClockFormat || id == ShellTweakId::ShowWeekday
        || id == ShellTweakId::ShowBattery || id == ShellTweakId::DynamicWorkspaces
        || id == ShellTweakId::WorkspacesOnAllMonitors || id == ShellTweakId::AttachModalDialogs
        || id == ShellTweakId::FocusMode || id == ShellTweakId::OverviewHotCorner
        || id == ShellTweakId::OverviewBlur || id == ShellTweakId::CursorSize
        || id == ShellTweakId::FontAntialiasing || id == ShellTweakId::FontHinting
        || id == ShellTweakId::TitlebarDoubleClickAction || id == ShellTweakId::ButtonLayout
        || id == ShellTweakId::NumWorkspaces
}

/// Every tweak backed by a stock GSettings key is fully supported on
/// every version, and Floating Dock is degraded (it needs Dash to Dock)
/// on every version.
pub proof fn lemma_stock_tweaks_always_full(major: u32, id: ShellTweakId)
    ensures
        stock_gsettings_tweak(id) ==> find_hint(tweak_hints(major), id)->0.support == ControlSupport::Full,
        find_hint(tweak_hints(major), ShellTweakId::FloatingDock)->0.support is Degraded,
{
    reveal_with_fuel(find_hint, 24);
}

/// The integer tweaks' safe ranges on every version: animation speed 1
/// to 8, app grid columns 4 to 8, cursor size 16 to 96, workspaces 1 to
/// 8; no other tweak has a range.
pub proof fn lemma_tweak_safe_ranges(major: u32, id: ShellTweakId)
    ensures
        find_hint(tweak_hints(major), id)->0.safe_range == (match id {
            ShellTweakId::WindowAnimationSpeed => Some((1i32, 8i32)),
            ShellTweakId::AppsGridColumns => Some((4i32, 8i32)),
            ShellTweakId::CursorSize => Some((16i32, 96i32)),
            ShellTweakId::NumWorkspaces => Some((1i32, 8i32)),
            _ => None::<(i32, i32)>,
        }),
{
    reveal_with_fuel(find_hint, 24);
}

/// The tweaks a profile supports, in declaration order: all but the four
/// that wait on a Shell extension (Reduce Motion, Animation Speed, Top
/// Bar Position, Workspace Thumbnails), and App Grid Columns only from
/// GNOME 46 on.
pub proof fn lemma_supported_tweaks_by_version(major: u32)
    ensures
        supported_of(tweak_hints(major)) == (if major >= 46 {
            seq![
                ShellTweakId::EnableAnimations, ShellTweakId::ShowClock, ShellTweakId::ClockFormat,
                ShellTweakId::ShowWeekday, ShellTweakId::ShowBattery, ShellTweakId::DynamicWorkspaces,
                ShellTweakId::WorkspacesOnAllMonitors, ShellTweakId::AttachModalDialogs, ShellTweakId::FocusMode,
                ShellTweakId::OverviewHotCorner, ShellTweakId::AppsGridColumns, ShellTweakId::OverviewBlur,
                ShellTweakId::FloatingDock, ShellTweakId::CursorSize, ShellTweakId::FontAntialiasing,
                ShellTweakId::FontHinting, ShellTweakId::TitlebarDoubleClickAction, ShellTweakId::ButtonLayout,
                ShellTweakId::NumWorkspaces,
            ]
        } else {
            seq![
                ShellTweakId::EnableAnimations, ShellTweakId::ShowClock, ShellTweakId::ClockFormat,
                ShellTweakId::ShowWeekday, ShellTweakId::ShowBattery, ShellTweakId::DynamicWorkspaces,
                ShellTweakId::WorkspacesOnAllMonitors, ShellTweakId::AttachModalDialogs, ShellTweakId::FocusMode,
                ShellTweakId::OverviewHotCorner, ShellTweakId::OverviewBlur,
                ShellTweakId::FloatingDock, ShellTweakId::CursorSize, ShellTweakId::FontAntialiasing,
                ShellTweakId::FontHinting, ShellTweakId::TitlebarDoubleClickAction, ShellTweakId::ButtonLayout,
                ShellTweakId::NumWorkspaces,
            ]
        }),
{
    reveal_with_fuel(supported_of, 24);
    let h = tweak_hints(major);
    if major >= 46 {
        assert(supported_of(h) =~= seq![
            ShellTweakId::EnableAnimations, ShellTweakId::ShowClock, ShellTweakId::ClockFormat,
            ShellTweakId::ShowWeekday, ShellTweakId::ShowBattery, ShellTweakId::DynamicWorkspaces,
            ShellTweakId::WorkspacesOnAllMonitors, ShellTweakId::AttachModalDialogs, ShellTweakId::FocusMode,
            ShellTweakId::OverviewHotCorner, ShellTweakId::AppsGridColumns, ShellTweakId::OverviewBlur,
            ShellTweakId::FloatingDock, ShellTweakId::CursorSize, ShellTweakId::FontAntialiasing,
            ShellTweakId::FontHinting, ShellTweakId::TitlebarDoubleClickAction, ShellTweakId::ButtonLayout,
            ShellTweakId::NumWorkspaces,
        ]);
    } else {
        assert(supported_of(h) =~= seq![
            ShellTweakId::EnableAnimations, ShellTweakId::ShowClock, ShellTweakId::ClockFormat,
            ShellTweakId::ShowWeekday, ShellTweakId::ShowBattery, ShellTweakId::DynamicWorkspaces,
            ShellTweakId::WorkspacesOnAllMonitors, ShellTweakId::AttachModalDialogs, ShellTweakId::FocusMode,
            ShellTweakId::OverviewHotCorner, ShellTweakId::OverviewBlur,
            ShellTweakId::FloatingDock, ShellTweakId::CursorSize, ShellTweakId::FontAntialiasing,
            ShellTweakId::FontHinting, ShellTweakId::TitlebarDoubleClickAction, ShellTweakId::ButtonLayout,
            ShellTweakId::NumWorkspaces,
        ]);
    }
}

/// Capability profile for a specific GNOME version.
#[derive(Debug, Clone)]
pub struct ShellTweakProfile {
    pub version_major: u32,
    pub hints: Vec<TweakHint>,
}

impl ShellTweakProfile {
    /// The capability profile for `version`: single source of truth for
    /// shell-tweak compatibility policy.
    pub fn for_version(version: &ShellVersion) -> (r: Self)
        ensures
            r.version_major == version.major,
            r.hints@ == tweak_hints(version.major),
    {
        let major = version.major;
        let mut hints: Vec<TweakHint> = Vec::new();
        hints.push(TweakHint { id: ShellTweakId::EnableAnimations, support: ControlSupport::Full, safe_range: None });
        hints.push(TweakHint { id: ShellTweakId::ReducedMotion, support: ControlSupport::Unsupported { reason: "Redundant with Enable Animations on stock GNOME" }, safe_range: None });
        hints.push(TweakHint { id: ShellTweakId::WindowAnimationSpeed, support: ControlSupport::Unsupported { reason: "Requires a Shell extension to scale animation speeds" }, safe_range: Some((1i32, 8i32)) });
        hints.push(TweakHint { id: ShellTweakId::ShowClock, support: ControlSupport::Full, safe_range: None });
        hints.push(TweakHint { id: ShellTweakId::ClockFormat, support: ControlSupport::Full, safe_range: None });
        hints.push(TweakHint { id: ShellTweakId::ShowWeekday, support: ControlSupport::Full, safe_range: None });
        hints.push(TweakHint { id: ShellTweakId::ShowBattery, support: ControlSupport::Full, safe_range: None });
        hints.push(TweakHint { id: ShellTweakId::TopBarPosition, support: ControlSupport::Unsupported { reason: "Requires a Shell extension to move the panel" }, safe_range: None });
        hints.push(TweakHint { id: ShellTweakId::DynamicWorkspaces, support: ControlSupport::Full, safe_range: None });
        hints.push(TweakHint { id: ShellTweakId::WorkspacesOnAllMonitors, support: ControlSupport::Full, safe_range: None });
        hints.push(TweakHint { id: ShellTweakId::AttachModalDialogs, support: ControlSupport::Full, safe_range: None });
        hints.push(TweakHint { id: ShellTweakId::FocusMode, support: ControlSupport::Full, safe_range: None });
        hints.push(TweakHint { id: ShellTweakId::OverviewHotCorner, support: ControlSupport::Full, safe_range: None });
        hints.push(TweakHint { id: ShellTweakId::WorkspaceThumbnails, support: ControlSupport::Unsupported { reason: "Requires a Shell extension to toggle thumbnails" }, safe_range: None });
        hints.push(TweakHint {
            id: ShellTweakId::AppsGridColumns,
            support: if major >= 46 {
                ControlSupport::Degraded { reason: "Changes require a shell restart to take effect" }
            } else {
                ControlSupport::Unsupported { reason: "Apps grid layout key was added in GNOME 46" }
            },
            safe_range: Some((4i32, 8i32)),
        });
        hints.push(TweakHint { id: ShellTweakId::OverviewBlur, support: ControlSupport::Full, safe_range: None });
        hints.push(TweakHint { id: ShellTweakId::FloatingDock, support: ControlSupport::Degraded { reason: "Requires the Dash to Dock extension" }, safe_range: None });
        hints.push(TweakHint { id: ShellTweakId::CursorSize, support: ControlSupport::Full, safe_range: Some((16i32, 96i32)) });
        hints.push(TweakHint { id: ShellTweakId::FontAntialiasing, support: ControlSupport::Full, safe_range: None });
        hints.push(TweakHint { id: ShellTweakId::FontHinting, support: ControlSupport::Full, safe_range: None });
        hints.push(TweakHint { id: ShellTweakId::TitlebarDoubleClickAction, support: ControlSupport::Full, safe_range: None });
        hints.push(TweakHint { id: ShellTweakId::ButtonLayout, support: ControlSupport::Full, safe_range: None });
        hints.push(TweakHint { id: ShellTweakId::NumWorkspaces, support: ControlSupport::Full, safe_range: Some((1i32, 8i32)) });
        assert(hints@ =~= tweak_hints(major));
        ShellTweakProfile { version_major: major, hints }
    }

    /// The first hint for `id`, if the profile knows it.
    pub fn hint_for(&self, id: ShellTweakId) -> (r: Option<&TweakHint>)
        ensures
            match r {
                Some(h) => find_hint(self.hints@, id) == Some(*h),
                None => find_hint(self.hints@, id) is None,
            },
    {
        let mut i: usize = 0;
        assert(self.hints@.subrange(0, self.hints@.len() as int) =~= self.hints@);
        while i < self.hints.len()
            invariant
                i <= self.hints@.len(),
                find_hint(self.hints@, id) == find_hint(self.hints@.subrange(i as int, self.hints@.len() as int), id),
            decreases self.hints@.len() - i,
        {
            proof {
                let s = self.hints@.subrange(i as int, self.hints@.len() as int);
                assert(s[0] == self.hints@[i as int]);
                assert(s.drop_first() =~= self.hints@.subrange(i + 1, self.hints@.len() as int));
            }
            if self.hints[i].id == id {
                return Some(&self.hints[i]);
            }
            i = i + 1;
        }
        None
    }

    /// Tweaks supported (Full or Degraded) on this version, in
    /// declaration order.
    pub fn supported_ids(&self) -> (r: Vec<ShellTweakId>)
        ensures
            r@ == supported_of(self.hints@),
    {
        let mut out: Vec<ShellTweakId> = Vec::new();
        let mut i: usize = 0;
        while i < self.hints.len()
            invariant
                i <= self.hints@.len(),
                out@ == supported_of(self.hints@.subrange(0, i as int)),
            decreases self.hints@.len() - i,
        {
            proof {
                assert(self.hints@.subrange(0, i + 1).drop_last() =~= self.hints@.subrange(0, i as int));
            }
            if !self.hints[i].support.is_unsupported() {
                out.push(self.hints[i].id);
            }
            i = i + 1;
        }
        assert(self.hints@.subrange(0, i as int) =~= self.hints@);
        out
    }
}

} // verus!
