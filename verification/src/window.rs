use vstd::prelude::*;

use crate::error::{ErrorStatus, NativeError};
use crate::menu::{
    create_menu_from_options, entries_nodes, menu_bar_plan, menu_item_ids, nodes_item_ids, strings_view, MenuNode,
    MenuOptions, MenuPlan,
};
use crate::http_parts::pairs_view;
use crate::platform::Platform;
use crate::protocol::{
    handler_failure_body, CustomProtocolResponse, HandlerFailure, ProtocolRegistry, ResponsePlan,
    response_agrees,
};
use crate::text::owned;
use crate::webview::Theme;

verus! {

/// How a window fills the screen.
#[derive(Clone, Copy, Debug, PartialEq, Eq, Structural)]
pub enum FullscreenType {
    Exclusive,
    Borderless,
}

/// A width and a height in pixels.
#[derive(Clone, Copy, Debug, PartialEq, Eq, Structural)]
pub struct Dimensions {
    pub width: u32,
    pub height: u32,
}

/// A point in pixels.
#[derive(Clone, Copy, Debug, PartialEq, Eq, Structural)]
pub struct Position {
    pub x: i32,
    pub y: i32,
}

/// One display mode of a monitor.
#[derive(Clone, Copy, Debug, PartialEq, Eq, Structural)]
pub struct JsVideoMode {
    pub size: Dimensions,
    pub bit_depth: u16,
    /// Refresh rate in hertz.
    pub refresh_rate: u16,
}

/// The state of a taskbar progress indicator.
#[derive(Clone, Copy, Debug, PartialEq, Eq, Structural)]
pub enum JsProgressBarState {
    /// No progress is shown (`None` on the script side).
    NoProgress,
    Normal,
    Indeterminate,
    Paused,
    Error,
}

/// A taskbar progress indicator.
#[derive(Clone, Copy, Debug, PartialEq, Eq, Structural)]
pub struct JsProgressBar {
    pub state: Option<JsProgressBarState>,
    pub progress: Option<u32>,
}

/// Whether sizes and positions are in logical (scaled) or physical pixels.
#[derive(Clone, Copy, Debug, PartialEq, Eq, Structural)]
pub enum CoordSpace {
    Logical,
    Physical,
}

/// Logical pixels only when the caller asks for them explicitly.
pub open spec fn coord_space_of(logical: Option<bool>) -> CoordSpace {
    if logical == Some(true) {
        CoordSpace::Logical
    } else {
        CoordSpace::Physical
    }
}

/// The pixel space that a `logical` flag selects: logical only for `Some(true)`.
pub fn coord_space(logical: Option<bool>) -> (s: CoordSpace)
    ensures
        s == coord_space_of(logical),
{
    match logical {
        Some(true) => CoordSpace::Logical,
        _ => CoordSpace::Physical,
    }
}

/// Where `set_position` puts the window's outer top-left corner: at (`x`, `y`) in
/// physical pixels. The `logical` flag is accepted for symmetry with the size
/// setters and does not change the pixel space.
pub fn outer_position_target(x: i32, y: i32, logical: Option<bool>) -> (t: (Position, CoordSpace))
    ensures
        t == (Position { x, y }, CoordSpace::Physical),
{
    let _ = logical;
    (Position { x, y }, CoordSpace::Physical)
}

/// The options of a new window that the library decides on. Its size and
/// position, which are floating-point numbers, are handled beside it.
#[derive(Debug)]
pub struct BrowserWindowOptions {
    pub menu: Option<MenuOptions>,
    pub show_menu: Option<bool>,
    pub resizable: Option<bool>,
    pub title: Option<String>,
    pub logical: Option<bool>,
    pub content_protection: Option<bool>,
    pub always_on_top: Option<bool>,
    pub always_on_bottom: Option<bool>,
    pub visible: Option<bool>,
    pub decorations: Option<bool>,
    pub visible_on_all_workspaces: Option<bool>,
    pub maximized: Option<bool>,
    pub maximizable: Option<bool>,
    pub minimizable: Option<bool>,
    pub focused: Option<bool>,
    pub transparent: Option<bool>,
    pub fullscreen: Option<FullscreenType>,
}

/// The defaults of a new window: titled `WebviewJS`, visible, decorated, focused,
/// resizable, with the window menu shown, in physical pixels.
pub open spec fn is_default_window_options(o: BrowserWindowOptions) -> bool {
    &&& o.menu is None
    &&& o.show_menu == Some(true)
    &&& o.resizable == Some(true)
    &&& o.title matches Some(t) && t@ == "WebviewJS"@
    &&& o.logical == Some(false)
    &&& o.content_protection == Some(false)
    &&& o.always_on_top == Some(false)
    &&& o.always_on_bottom == Some(false)
    &&& o.visible == Some(true)
    &&& o.decorations == Some(true)
    &&& o.visible_on_all_workspaces == Some(false)
    &&& o.maximized == Some(false)
    &&& o.maximizable == Some(true)
    &&& o.minimizable == Some(true)
    &&& o.focused == Some(true)
    &&& o.transparent == Some(false)
    &&& o.fullscreen is None
}

impl Default for BrowserWindowOptions {
    fn default() -> (o: Self)
        ensures
            is_default_window_options(o),
    {
        BrowserWindowOptions {
            menu: None,
            show_menu: Some(true),
            resizable: Some(true),
            title: Some(owned("WebviewJS")),
            logical: Some(false),
            content_protection: Some(false),
            always_on_top: Some(false),
            always_on_bottom: Some(false),
            visible: Some(true),
            decorations: Some(true),
            visible_on_all_workspaces: Some(false),
            maximized: Some(false),
            maximizable: Some(true),
            minimizable: Some(true),
            focused: Some(true),
            transparent: Some(false),
            fullscreen: None,
        }
    }
}

/// The stacking level a window asks for at creation.
#[derive(Clone, Copy, Debug, PartialEq, Eq, Structural)]
pub enum WindowLevel {
    AlwaysOnTop,
    AlwaysOnBottom,
}

/// Which menu a new window shows.
#[derive(Debug)]
pub enum MenuAttachment {
    /// A menu of its own, built from its options.
    Own(MenuPlan),
    /// The application's global menu.
    Global,
    /// No menu.
    NoMenu,
}

/// Everything the window toolkit is told when a window is created. Each `Option`
/// is a setting that is applied only when present.
#[derive(Debug)]
pub struct WindowPlan {
    pub resizable: Option<bool>,
    /// The pixel space of the window's size and position.
    pub geometry_space: CoordSpace,
    pub visible: Option<bool>,
    pub decorations: Option<bool>,
    pub transparent: Option<bool>,
    pub maximized: Option<bool>,
    pub focused: Option<bool>,
    pub content_protection: Option<bool>,
    pub level: Option<WindowLevel>,
    /// The maximize button is switched off.
    pub maximizable_off: bool,
    /// The minimize button is switched off.
    pub minimizable_off: bool,
    /// The window is made visible again because it shows on all workspaces (macOS).
    pub visible_on_all_workspaces: bool,
    /// The window starts in borderless fullscreen.
    pub borderless_fullscreen: bool,
    pub title: Option<String>,
    pub menu: MenuAttachment,
}

pub open spec fn level_of(o: BrowserWindowOptions) -> Option<WindowLevel> {
    if o.always_on_top == Some(true) {
        Some(WindowLevel::AlwaysOnTop)
    } else if o.always_on_bottom == Some(true) {
        Some(WindowLevel::AlwaysOnBottom)
    } else {
        None
    }
}

pub open spec fn opt_string_view(o: Option<String>) -> Option<Seq<char>> {
    match o {
        Some(s) => Some(s@),
        None => None,
    }
}

/// Whether a window plan carries out the options, apart from its menu.
pub open spec fn window_settings_agree(o: BrowserWindowOptions, platform: Platform, p: WindowPlan) -> bool {
    &&& p.resizable == o.resizable
    &&& p.geometry_space == coord_space_of(o.logical)
    &&& p.visible == o.visible
    &&& p.decorations == o.decorations
    &&& p.transparent == o.transparent
    &&& p.maximized == o.maximized
    &&& p.focused == o.focused
    &&& p.content_protection == o.content_protection
    &&& p.level == level_of(o)
    &&& p.maximizable_off == (o.maximizable == Some(false))
    &&& p.minimizable_off == (o.minimizable == Some(false))
    &&& p.visible_on_all_workspaces == (platform == Platform::MacOs && o.visible_on_all_workspaces
        == Some(true))
    &&& p.borderless_fullscreen == (o.fullscreen is Some)
    &&& opt_string_view(p.title) == opt_string_view(o.title)
}

/// A window asked to stay on top is created always on top, whatever it says of
/// staying at the bottom; one asked only to stay at the bottom is created always at
/// the bottom; any other window gets no level.
pub proof fn law_always_on_top_wins(o: BrowserWindowOptions, platform: Platform, p: WindowPlan)
    requires
        window_settings_agree(o, platform, p),
    ensures
        o.always_on_top == Some(true) ==> p.level == Some(WindowLevel::AlwaysOnTop),
        o.always_on_top != Some(true) && o.always_on_bottom == Some(true) ==> p.level == Some(
            WindowLevel::AlwaysOnBottom,
        ),
        o.always_on_top != Some(true) && o.always_on_bottom != Some(true) ==> p.level is None,
{
}

/// A window is built with the settings its options give: the flags as given, the
/// size in logical pixels only when asked for explicitly, the maximize and minimize
/// buttons off only when switched off explicitly, all workspaces only on macOS, and
/// borderless fullscreen for either fullscreen kind.
pub proof fn law_window_plan_follows_options(o: BrowserWindowOptions, platform: Platform, p: WindowPlan)
    requires
        window_settings_agree(o, platform, p),
    ensures
        p.resizable == o.resizable,
        p.visible == o.visible,
        p.decorations == o.decorations,
        p.transparent == o.transparent,
        p.maximized == o.maximized,
        p.focused == o.focused,
        p.content_protection == o.content_protection,
        p.geometry_space == (if o.logical == Some(true) { CoordSpace::Logical } else { CoordSpace::Physical }),
        p.maximizable_off <==> o.maximizable == Some(false),
        p.minimizable_off <==> o.minimizable == Some(false),
        p.visible_on_all_workspaces <==> platform == Platform::MacOs && o.visible_on_all_workspaces == Some(true),
        p.borderless_fullscreen <==> o.fullscreen is Some,
        opt_string_view(p.title) == opt_string_view(o.title),
{
}

/// Decides a new window's settings. Always-on-top wins over always-on-bottom; either
/// fullscreen kind starts borderless; the maximize and minimize buttons are only
/// switched off explicitly. A menu of the window's own is built from its options
/// (an unknown role fails the call); without one, the global menu is shown when
/// `show_menu` asks for it and there is one.
pub fn plan_window(options: BrowserWindowOptions, platform: Platform, has_global_menu: bool) -> (r: Result<
    WindowPlan,
    NativeError,
>)
    ensures
        r matches Ok(p) ==> (options.always_on_top == Some(true) ==> p.level == Some(WindowLevel::AlwaysOnTop)),
        r matches Ok(p) ==> (options.always_on_top != Some(true) && options.always_on_bottom == Some(true)
            ==> p.level == Some(WindowLevel::AlwaysOnBottom)),
        r matches Ok(p) ==> (options.always_on_top != Some(true) && options.always_on_bottom != Some(true)
            ==> p.level is None),
        match r {
            Ok(p) => window_settings_agree(options, platform, p) && match options.menu {
                Some(m) => p.menu matches MenuAttachment::Own(plan) && menu_bar_plan(m.items@, platform)
                    == Result::<Seq<MenuNode>, Seq<char>>::Ok(entries_nodes(plan.entries@)),
                None => if options.show_menu == Some(true) && has_global_menu {
                    p.menu is Global
                } else {
                    p.menu is NoMenu
                },
            },
            Err(e) => options.menu matches Some(m) && menu_bar_plan(m.items@, platform) == Result::<
                Seq<MenuNode>,
                Seq<char>,
            >::Err(e.message@) && e.status == ErrorStatus::InvalidArg,
        },
{
    let level = if options.always_on_top == Some(true) {
        Some(WindowLevel::AlwaysOnTop)
    } else if options.always_on_bottom == Some(true) {
        Some(WindowLevel::AlwaysOnBottom)
    } else {
        None
    };
    let on_all = platform == Platform::MacOs && options.visible_on_all_workspaces == Some(true);
    let show_global = match options.show_menu {
        Some(b) => b,
        None => false,
    };
    let menu = match options.menu {
        Some(m) => match create_menu_from_options(m, platform) {
            Ok(plan) => MenuAttachment::Own(plan),
            Err(e) => return Err(e),
        },
        None => if show_global && has_global_menu {
            MenuAttachment::Global
        } else {
            MenuAttachment::NoMenu
        },
    };
    Ok(WindowPlan {
        resizable: options.resizable,
        geometry_space: coord_space(options.logical),
        visible: options.visible,
        decorations: options.decorations,
        transparent: options.transparent,
        maximized: options.maximized,
        focused: options.focused,
        content_protection: options.content_protection,
        level,
        maximizable_off: options.maximizable == Some(false),
        minimizable_off: options.minimizable == Some(false),
        visible_on_all_workspaces: on_all,
        borderless_fullscreen: options.fullscreen.is_some(),
        title: options.title,
        menu,
    })
}


/// A minimum or maximum inner size handed to the window toolkit.
#[derive(Clone, Copy, Debug, PartialEq, Eq, Structural)]
pub struct SizeConstraint {
    pub width: u32,
    pub height: u32,
    pub space: CoordSpace,
}

/// The size limit that `set_min_size` / `set_max_size` set: none at all for 0 by 0,
/// else the given size in the pixel space that `logical` selects.
pub fn size_constraint(width: u32, height: u32, logical: Option<bool>) -> (c: Option<SizeConstraint>)
    ensures
        width == 0 && height == 0 ==> c is None,
        !(width == 0 && height == 0) ==> c == Some(
            SizeConstraint { width, height, space: coord_space_of(logical) },
        ),
{
    if width == 0 && height == 0 {
        return None;
    }
    Some(SizeConstraint { width, height, space: coord_space(logical) })
}

/// A `u32` read as an `i32` of the same bits.
pub open spec fn wrap_i32(v: u32) -> int {
    if v <= i32::MAX {
        v as int
    } else {
        v as int - 0x1_0000_0000
    }
}

/// Integer division by two that rounds toward zero.
pub open spec fn half_toward_zero(v: int) -> int {
    if v >= 0 {
        v / 2
    } else {
        -((-v) / 2)
    }
}

pub open spec fn center_coordinate(monitor_pos: i32, monitor_len: u32, window_len: u32) -> int {
    monitor_pos + half_toward_zero(wrap_i32(monitor_len) - wrap_i32(window_len))
}

pub open spec fn center_fits(monitor_pos: i32, monitor_len: u32, window_len: u32) -> bool {
    &&& i32::MIN <= wrap_i32(monitor_len) - wrap_i32(window_len) <= i32::MAX
    &&& i32::MIN <= center_coordinate(monitor_pos, monitor_len, window_len) <= i32::MAX
}

fn as_i32(v: u32) -> (r: i32)
    ensures
        r as int == wrap_i32(v),
{
    let r = v as i32;
    assert(r as int == if v <= 0x7fff_ffff { v as int } else { v as int - 0x1_0000_0000 }) by (bit_vector)
        requires
            r == v as i32,
    ;
    r
}

fn center_axis(monitor_pos: i32, monitor_len: u32, window_len: u32) -> (c: i32)
    requires
        center_fits(monitor_pos, monitor_len, window_len),
    ensures
        c as int == center_coordinate(monitor_pos, monitor_len, window_len),
{
    let d = as_i32(monitor_len) - as_i32(window_len);
    let h = d / 2;
    assert(h as int == half_toward_zero(d as int)) by {
        if d >= 0 {
        } else {
        }
    }
    monitor_pos + h
}

/// The outer position that centers a window on a monitor: the monitor's corner plus
/// half the difference of the sizes, rounded toward zero; sizes are read as `i32`.
pub fn centered_position(monitor: Position, monitor_size: Dimensions, window_size: Dimensions) -> (p: Position)
    requires
        center_fits(monitor.x, monitor_size.width, window_size.width),
        center_fits(monitor.y, monitor_size.height, window_size.height),
    ensures
        p.x == center_coordinate(monitor.x, monitor_size.width, window_size.width),
        p.y == center_coordinate(monitor.y, monitor_size.height, window_size.height),
{
    Position {
        x: center_axis(monitor.x, monitor_size.width, window_size.width),
        y: center_axis(monitor.y, monitor_size.height, window_size.height),
    }
}

fn axis_fits(monitor_pos: i32, monitor_len: u32, window_len: u32) -> (b: bool)
    ensures
        b == center_fits(monitor_pos, monitor_len, window_len),
{
    let d: i64 = as_i32(monitor_len) as i64 - as_i32(window_len) as i64;
    if d < i32::MIN as i64 || d > i32::MAX as i64 {
        return false;
    }
    let h: i32 = (d as i32) / 2;
    assert(h as int == half_toward_zero(d as int));
    let c: i64 = monitor_pos as i64 + h as i64;
    c >= i32::MIN as i64 && c <= i32::MAX as i64
}

/// The centered position, or `None` where its arithmetic leaves the `i32` range
/// (there the computation overflows).
pub fn try_centered_position(monitor: Position, monitor_size: Dimensions, window_size: Dimensions) -> (p: Option<Position>)
    ensures
        match p {
            Some(q) => center_fits(monitor.x, monitor_size.width, window_size.width)
                && center_fits(monitor.y, monitor_size.height, window_size.height)
                && q.x == center_coordinate(monitor.x, monitor_size.width, window_size.width)
                && q.y == center_coordinate(monitor.y, monitor_size.height, window_size.height),
            None => !(center_fits(monitor.x, monitor_size.width, window_size.width)
                && center_fits(monitor.y, monitor_size.height, window_size.height)),
        },
{
    if axis_fits(monitor.x, monitor_size.width, window_size.width) && axis_fits(
        monitor.y,
        monitor_size.height,
        window_size.height,
    ) {
        Some(centered_position(monitor, monitor_size, window_size))
    } else {
        None
    }
}

/// A change of a window's stacking level.
#[derive(Clone, Copy, Debug, PartialEq, Eq, Structural)]
pub enum LevelChange {
    AlwaysOnTop(bool),
    AlwaysOnBottom(bool),
}

/// The level changes for `set_always_on_top`: switching it off also clears
/// always-on-bottom first.
pub fn always_on_top_changes(enabled: bool) -> (v: Vec<LevelChange>)
    ensures
        enabled ==> v@ == seq![LevelChange::AlwaysOnTop(true)],
        !enabled ==> v@ == seq![LevelChange::AlwaysOnBottom(false), LevelChange::AlwaysOnTop(false)],
{
    let mut v: Vec<LevelChange> = Vec::new();
    if enabled {
        v.push(LevelChange::AlwaysOnTop(true));
    } else {
        v.push(LevelChange::AlwaysOnBottom(false));
        v.push(LevelChange::AlwaysOnTop(false));
    }
    v
}

/// The level changes for `set_always_on_bottom`: switching it off also clears
/// always-on-top first.
pub fn always_on_bottom_changes(enabled: bool) -> (v: Vec<LevelChange>)
    ensures
        enabled ==> v@ == seq![LevelChange::AlwaysOnBottom(true)],
        !enabled ==> v@ == seq![LevelChange::AlwaysOnTop(false), LevelChange::AlwaysOnBottom(false)],
{
    let mut v: Vec<LevelChange> = Vec::new();
    if enabled {
        v.push(LevelChange::AlwaysOnBottom(true));
    } else {
        v.push(LevelChange::AlwaysOnTop(false));
        v.push(LevelChange::AlwaysOnBottom(false));
    }
    v
}

/// A colour scheme that the window toolkit knows.
#[derive(Clone, Copy, Debug, PartialEq, Eq, Structural)]
pub enum WindowTheme {
    Light,
    Dark,
}

pub open spec fn theme_request_of(t: Theme) -> Option<WindowTheme> {
    match t {
        Theme::Light => Some(WindowTheme::Light),
        Theme::Dark => Some(WindowTheme::Dark),
        Theme::System => None,
    }
}

pub open spec fn theme_reported_of(t: Option<WindowTheme>) -> Theme {
    match t {
        Some(WindowTheme::Light) => Theme::Light,
        Some(WindowTheme::Dark) => Theme::Dark,
        None => Theme::System,
    }
}

/// The theme requested from the toolkit by `set_theme`; `System` asks for none.
pub fn theme_request(t: Theme) -> (r: Option<WindowTheme>)
    ensures
        r == theme_request_of(t),
{
    match t {
        Theme::Light => Some(WindowTheme::Light),
        Theme::Dark => Some(WindowTheme::Dark),
        Theme::System => None,
    }
}

/// The theme `get_theme` reports for the toolkit's answer; none is `System`.
pub fn theme_reported(t: Option<WindowTheme>) -> (r: Theme)
    ensures
        r == theme_reported_of(t),
{
    match t {
        Some(WindowTheme::Light) => Theme::Light,
        Some(WindowTheme::Dark) => Theme::Dark,
        None => Theme::System,
    }
}

/// A theme that is set is the theme that is reported back.
pub proof fn law_theme_round_trip(t: Theme)
    ensures
        theme_reported_of(theme_request_of(t)) == t,
{
}

/// What `set_fullscreen` asks of the toolkit.
#[derive(Clone, Copy, Debug, PartialEq, Eq, Structural)]
pub enum FullscreenRequest {
    /// Leave fullscreen.
    Windowed,
    /// Borderless fullscreen on the current monitor.
    Borderless,
    /// Exclusive fullscreen in the first video mode of the current monitor, or
    /// windowed when there is no such mode.
    ExclusiveFirstMode,
}

pub open spec fn fullscreen_request_of(f: Option<FullscreenType>) -> FullscreenRequest {
    match f {
        Some(FullscreenType::Exclusive) => FullscreenRequest::ExclusiveFirstMode,
        Some(FullscreenType::Borderless) => FullscreenRequest::Borderless,
        None => FullscreenRequest::Windowed,
    }
}

/// The request that `set_fullscreen` makes.
pub fn fullscreen_request(f: Option<FullscreenType>) -> (r: FullscreenRequest)
    ensures
        r == fullscreen_request_of(f),
{
    match f {
        Some(FullscreenType::Exclusive) => FullscreenRequest::ExclusiveFirstMode,
        Some(FullscreenType::Borderless) => FullscreenRequest::Borderless,
        None => FullscreenRequest::Windowed,
    }
}

/// The fullscreen kind the toolkit reports.
#[derive(Clone, Copy, Debug, PartialEq, Eq, Structural)]
pub enum FullscreenKind {
    Exclusive,
    Borderless,
}

pub open spec fn fullscreen_reported_of(k: Option<FullscreenKind>) -> Option<FullscreenType> {
    match k {
        Some(FullscreenKind::Exclusive) => Some(FullscreenType::Exclusive),
        Some(FullscreenKind::Borderless) => Some(FullscreenType::Borderless),
        None => None,
    }
}

/// The fullscreen state `get_fullscreen` reports for the toolkit's answer.
pub fn fullscreen_reported(k: Option<FullscreenKind>) -> (r: Option<FullscreenType>)
    ensures
        r == fullscreen_reported_of(k),
{
    match k {
        Some(FullscreenKind::Exclusive) => Some(FullscreenType::Exclusive),
        Some(FullscreenKind::Borderless) => Some(FullscreenType::Borderless),
        None => None,
    }
}

/// Borderless fullscreen that is set is reported back as borderless, and leaving
/// fullscreen is reported as no fullscreen.
pub proof fn law_fullscreen_round_trip()
    ensures
        fullscreen_request_of(Some(FullscreenType::Borderless)) == FullscreenRequest::Borderless,
        fullscreen_reported_of(Some(FullscreenKind::Borderless)) == Some(FullscreenType::Borderless),
        fullscreen_request_of(None) == FullscreenRequest::Windowed,
        fullscreen_reported_of(None) == None::<FullscreenType>,
{
}

/// A window shape for the mouse pointer, as the window toolkit names them.
#[derive(Clone, Copy, Debug, PartialEq, Eq, Structural)]
pub enum CursorIcon {
    Default,
    Crosshair,
    Pointer,
    Move,
    Text,
    Wait,
    Help,
    Progress,
    NotAllowed,
    ContextMenu,
    Cell,
    VerticalText,
    Alias,
    Copy,
    NoDrop,
    Grab,
    Grabbing,
    ZoomIn,
    ZoomOut,
    EResize,
    NResize,
    NeResize,
    NwResize,
    SResize,
    SeResize,
    SwResize,
    WResize,
    EwResize,
    NsResize,
    NeswResize,
    NwseResize,
    ColResize,
    RowResize,
    AllScroll,
}

/// A pointer shape as the script side names them.
#[derive(Clone, Copy, Debug, PartialEq, Eq, Structural)]
pub enum CursorType {
    Default,
    Crosshair,
    Hand,
    Arrow,
    Move,
    Text,
    Wait,
    Help,
    Progress,
    NotAllowed,
    ContextMenu,
    Cell,
    VerticalText,
    Alias,
    Copy,
    NoDrop,
    Grab,
    Grabbing,
    ZoomIn,
    ZoomOut,
    ResizeEast,
    ResizeNorth,
    ResizeNorthEast,
    ResizeNorthWest,
    ResizeSouth,
    ResizeSouthEast,
    ResizeSouthWest,
    ResizeWest,
    ResizeEastWest,
    ResizeNorthSouth,
    ResizeNorthEastSouthWest,
    ResizeNorthWestSouthEast,
    ResizeColumn,
    ResizeRow,
    AllScroll,
}

pub open spec fn cursor_icon_of(c: CursorType) -> CursorIcon {
    match c {
        CursorType::Default => CursorIcon::Default,
        CursorType::Crosshair => CursorIcon::Crosshair,
        CursorType::Hand => CursorIcon::Pointer,
        CursorType::Arrow => CursorIcon::Default,
        CursorType::Move => CursorIcon::Move,
        CursorType::Text => CursorIcon::Text,
        CursorType::Wait => CursorIcon::Wait,
        CursorType::Help => CursorIcon::Help,
        CursorType::Progress => CursorIcon::Progress,
        CursorType::NotAllowed => CursorIcon::NotAllowed,
        CursorType::ContextMenu => CursorIcon::ContextMenu,
        CursorType::Cell => CursorIcon::Cell,
        CursorType::VerticalText => CursorIcon::VerticalText,
        CursorType::Alias => CursorIcon::Alias,
        CursorType::Copy => CursorIcon::Copy,
        CursorType::NoDrop => CursorIcon::NoDrop,
        CursorType::Grab => CursorIcon::Grab,
        CursorType::Grabbing => CursorIcon::Grabbing,
        CursorType::ZoomIn => CursorIcon::ZoomIn,
        CursorType::ZoomOut => CursorIcon::ZoomOut,
        CursorType::ResizeEast => CursorIcon::EResize,
        CursorType::ResizeNorth => CursorIcon::NResize,
        CursorType::ResizeNorthEast => CursorIcon::NeResize,
        CursorType::ResizeNorthWest => CursorIcon::NwResize,
        CursorType::ResizeSouth => CursorIcon::SResize,
        CursorType::ResizeSouthEast => CursorIcon::SeResize,
        CursorType::ResizeSouthWest => CursorIcon::SwResize,
        CursorType::ResizeWest => CursorIcon::WResize,
        CursorType::ResizeEastWest => CursorIcon::EwResize,
        CursorType::ResizeNorthSouth => CursorIcon::NsResize,
        CursorType::ResizeNorthEastSouthWest => CursorIcon::NeswResize,
        CursorType::ResizeNorthWestSouthEast => CursorIcon::NwseResize,
        CursorType::ResizeColumn => CursorIcon::ColResize,
        CursorType::ResizeRow => CursorIcon::RowResize,
        CursorType::AllScroll => CursorIcon::AllScroll,
    }
}

/// The toolkit's pointer shape for a script-side cursor: `Hand` is the pointing hand
/// and `Arrow` the default pointer; resize cursors go by compass direction.
pub fn cursor_icon(c: CursorType) -> (r: CursorIcon)
    ensures
        r == cursor_icon_of(c),
{
    match c {
        CursorType::Default => CursorIcon::Default,
        CursorType::Crosshair => CursorIcon::Crosshair,
        CursorType::Hand => CursorIcon::Pointer,
        CursorType::Arrow => CursorIcon::Default,
        CursorType::Move => CursorIcon::Move,
        CursorType::Text => CursorIcon::Text,
        CursorType::Wait => CursorIcon::Wait,
        CursorType::Help => CursorIcon::Help,
        CursorType::Progress => CursorIcon::Progress,
        CursorType::NotAllowed => CursorIcon::NotAllowed,
        CursorType::ContextMenu => CursorIcon::ContextMenu,
        CursorType::Cell => CursorIcon::Cell,
        CursorType::VerticalText => CursorIcon::VerticalText,
        CursorType::Alias => CursorIcon::Alias,
        CursorType::Copy => CursorIcon::Copy,
        CursorType::NoDrop => CursorIcon::NoDrop,
        CursorType::Grab => CursorIcon::Grab,
        CursorType::Grabbing => CursorIcon::Grabbing,
        CursorType::ZoomIn => CursorIcon::ZoomIn,
        CursorType::ZoomOut => CursorIcon::ZoomOut,
        CursorType::ResizeEast => CursorIcon::EResize,
        CursorType::ResizeNorth => CursorIcon::NResize,
        CursorType::ResizeNorthEast => CursorIcon::NeResize,
        CursorType::ResizeNorthWest => CursorIcon::NwResize,
        CursorType::ResizeSouth => CursorIcon::SResize,
        CursorType::ResizeSouthEast => CursorIcon::SeResize,
        CursorType::ResizeSouthWest => CursorIcon::SwResize,
        CursorType::ResizeWest => CursorIcon::WResize,
        CursorType::ResizeEastWest => CursorIcon::EwResize,
        CursorType::ResizeNorthSouth => CursorIcon::NsResize,
        CursorType::ResizeNorthEastSouthWest => CursorIcon::NeswResize,
        CursorType::ResizeNorthWestSouthEast => CursorIcon::NwseResize,
        CursorType::ResizeColumn => CursorIcon::ColResize,
        CursorType::ResizeRow => CursorIcon::RowResize,
        CursorType::AllScroll => CursorIcon::AllScroll,
    }
}

/// A refresh rate in whole hertz from millihertz, kept to 16 bits as the script side
/// receives it.
pub fn refresh_rate_hz(millihertz: u32) -> (hz: u16)
    ensures
        hz as int == (millihertz / 1000) as int % 0x1_0000,
{
    let whole = millihertz / 1000;
    let hz = whole as u16;
    assert(hz as int == whole as int % 0x1_0000) by (bit_vector)
        requires
            hz == whole as u16,
    ;
    hz
}


/// The pixels of an icon: RGBA bytes with their width and height.
#[derive(Clone, Debug)]
pub struct IconImage {
    pub rgba: Vec<u8>,
    pub width: u32,
    pub height: u32,
}

/// What `image::load_from_memory` makes of encoded bytes: the RGBA pixels (`to_rgba8`)
/// with the width and height (`dimensions`), or the text of its error.
pub uninterp spec fn decoded_image(bytes: Seq<u8>) -> Result<(Seq<u8>, u32, u32), Seq<char>>;

/// Decodes an encoded image (PNG, ICO, JPEG) with `image::load_from_memory` and hands
/// back its RGBA pixels and size, or the error's text. The result is named
/// `decoded_image`.
#[verifier::external_body]
fn decode_image(bytes: &[u8]) -> (r: Result<(Vec<u8>, u32, u32), String>)
    ensures
        match r {
            Ok((rgba, w, h)) => decoded_image(bytes@) == Result::<(Seq<u8>, u32, u32), Seq<char>>::Ok(
                (rgba@, w, h),
            ),
            Err(m) => decoded_image(bytes@) == Result::<(Seq<u8>, u32, u32), Seq<char>>::Err(m@),
        },
{
    match image::load_from_memory(bytes) {
        Ok(img) => {
            let (w, h) = image::GenericImageView::dimensions(&img);
            Ok((img.to_rgba8().into_raw(), w, h))
        },
        Err(e) => Err(e.to_string()),
    }
}

pub open spec fn icon_dimension_message() -> Seq<char> {
    "Either width and height must be provided together, or at least width only, or neither"@
}

/// The pixels of a window icon. With a width and a height the bytes are raw RGBA;
/// with a width alone the icon is square; with neither the bytes are an encoded image
/// to decode; a height without a width is an invalid argument.
pub fn prepare_window_icon(icon: Vec<u8>, width: Option<u32>, height: Option<u32>) -> (r: Result<
    IconImage,
    NativeError,
>)
    ensures
        match (width, height) {
            (Some(w), Some(h)) => r matches Ok(i) && i.rgba@ == icon@ && i.width == w && i.height == h,
            (Some(w), None) => r matches Ok(i) && i.rgba@ == icon@ && i.width == w && i.height == w,
            (None, None) => match decoded_image(icon@) {
                Ok((rgba, w, h)) => r matches Ok(i) && i.rgba@ == rgba && i.width == w && i.height == h,
                Err(m) => r matches Err(e) && e.status == ErrorStatus::GenericFailure && e.message@
                    == "Failed to decode icon: "@ + m,
            },
            (None, Some(_)) => r matches Err(e) && e.status == ErrorStatus::InvalidArg && e.message@
                == icon_dimension_message(),
        },
{
    match (width, height) {
        (Some(w), Some(h)) => Ok(IconImage { rgba: icon, width: w, height: h }),
        (Some(w), None) => Ok(IconImage { rgba: icon, width: w, height: w }),
        (None, None) => match decode_image(icon.as_slice()) {
            Ok((rgba, w, h)) => Ok(IconImage { rgba, width: w, height: h }),
            Err(m) => {
                let mut msg = owned("Failed to decode icon: ");
                msg.append(m.as_str());
                Err(NativeError::new(ErrorStatus::GenericFailure, msg))
            },
        },
        (None, Some(_)) => Err(
            NativeError::new(
                ErrorStatus::InvalidArg,
                owned(
                    "Either width and height must be provided together, or at least width only, or neither",
                ),
            ),
        ),
    }
}

/// A named group of file extensions offered by a file dialog.
#[derive(Clone, Debug)]
pub struct FileFilter {
    pub name: String,
    pub extensions: Vec<String>,
}

/// The options of a file dialog.
#[derive(Clone, Debug)]
pub struct FileDialogOptions {
    pub multiple: Option<bool>,
    pub title: Option<String>,
    pub default_path: Option<String>,
    pub filters: Option<Vec<FileFilter>>,
}

/// What a file dialog is opened with.
#[derive(Clone, Debug)]
pub struct FileDialogPlan {
    pub title: Option<String>,
    pub directory: Option<String>,
    /// The filters in the order they are offered.
    pub filters: Vec<FileFilter>,
    /// Several files may be picked.
    pub multiple: bool,
}

pub open spec fn filter_view(f: FileFilter) -> (Seq<char>, Seq<Seq<char>>) {
    (f.name@, f.extensions@.map_values(|e: String| e@))
}

pub open spec fn filters_view(fs: Seq<FileFilter>) -> Seq<(Seq<char>, Seq<Seq<char>>)> {
    fs.map_values(|f: FileFilter| filter_view(f))
}

/// The filter that every file dialog offers last.
pub open spec fn all_files_filter() -> (Seq<char>, Seq<Seq<char>>) {
    ("All Files"@, seq!["*"@])
}

pub open spec fn requested_filters(o: FileDialogOptions) -> Seq<(Seq<char>, Seq<Seq<char>>)> {
    match o.filters {
        Some(fs) => filters_view(fs@),
        None => Seq::empty(),
    }
}

/// Whether a dialog plan carries out the options.
pub open spec fn dialog_agrees(options: Option<FileDialogOptions>, p: FileDialogPlan) -> bool {
    match options {
        Some(o) => {
            &&& opt_string_view(p.title) == opt_string_view(o.title)
            &&& opt_string_view(p.directory) == opt_string_view(o.default_path)
            &&& p.multiple == (o.multiple == Some(true))
            &&& filters_view(p.filters@) == requested_filters(o).push(all_files_filter())
        },
        None => {
            &&& p.title is None
            &&& p.directory is None
            &&& !p.multiple
            &&& filters_view(p.filters@) == seq![all_files_filter()]
        },
    }
}

/// Decides how a file dialog opens: with the caller's title, start directory and
/// filters, then an `All Files` filter; one file unless `multiple` is set. On Android
/// no dialog opens and no file is picked.
pub fn plan_file_dialog(options: Option<FileDialogOptions>, platform: Platform) -> (r: Option<FileDialogPlan>)
    ensures
        match r {
            Some(p) => platform != Platform::Android && dialog_agrees(options, p),
            None => platform == Platform::Android,
        },
{
    if platform == Platform::Android {
        return None;
    }
    let mut extensions: Vec<String> = Vec::new();
    extensions.push(owned("*"));
    let all = FileFilter { name: owned("All Files"), extensions };
    assert(filter_view(all) == all_files_filter()) by {
        assert(all.extensions@.map_values(|e: String| e@) =~= seq!["*"@]);
    }
    match options {
        Some(o) => {
            let mut filters: Vec<FileFilter> = match o.filters {
                Some(fs) => fs,
                None => Vec::new(),
            };
            let ghost before = filters@;
            assert(filters_view(before) =~= requested_filters(o));
            filters.push(all);
            assert(filters_view(filters@) =~= filters_view(before).push(all_files_filter()));
            let multiple = match o.multiple {
                Some(m) => m,
                None => false,
            };
            Some(FileDialogPlan { title: o.title, directory: o.default_path, filters, multiple })
        },
        None => {
            let mut filters: Vec<FileFilter> = Vec::new();
            filters.push(all);
            assert(filters_view(filters@) =~= seq![all_files_filter()]);
            Some(FileDialogPlan { title: None, directory: None, filters, multiple: false })
        },
    }
}

/// The state of a browser window that the library keeps: whether it is a child
/// window, its id, its own menu, and its custom protocols with their awaiting
/// requests (`H` is a protocol handler, `R` a request's responder).
pub struct BrowserWindow<H, R> {
    is_child_window: bool,
    window_id: u32,
    window_menu: Option<MenuPlan>,
    protocols: ProtocolRegistry<H, R>,
}

impl<H, R> BrowserWindow<H, R> {
    pub closed spec fn child_flag(&self) -> bool {
        self.is_child_window
    }

    pub closed spec fn id_value(&self) -> u32 {
        self.window_id
    }

    pub closed spec fn own_menu(&self) -> Option<MenuPlan> {
        self.window_menu
    }

    pub closed spec fn protocol_registry(&self) -> ProtocolRegistry<H, R> {
        self.protocols
    }

    /// The state of a newly created window: no protocol registered yet.
    pub fn new(child: bool, window_id: u32, menu: MenuAttachment) -> (w: Self)
        ensures
            w.child_flag() == child,
            w.id_value() == window_id,
            match menu {
                MenuAttachment::Own(m) => w.own_menu() == Some(m),
                _ => w.own_menu() is None,
            },
            w.protocol_registry()@.wf(),
            w.protocol_registry()@.count() == 0,
            w.protocol_registry()@.next_id == 0,
    {
        let window_menu = match menu {
            MenuAttachment::Own(m) => Some(m),
            _ => None,
        };
        BrowserWindow { is_child_window: child, window_id, window_menu, protocols: ProtocolRegistry::new() }
    }

    /// Whether this is a child window.
    pub fn is_child(&self) -> (b: bool)
        ensures
            b == self.child_flag(),
    {
        self.is_child_window
    }

    /// The window's id.
    pub fn id(&self) -> (i: u32)
        ensures
            i == self.id_value(),
    {
        self.window_id
    }

    /// Whether the window has a menu of its own (the global menu does not count).
    pub fn has_menu(&self) -> (b: bool)
        ensures
            b == self.own_menu() is Some,
    {
        self.window_menu.is_some()
    }

    /// The ids of the custom items of the window's own menu, in menu order; none
    /// without one.
    pub fn menu_item_ids(&self) -> (ids: Vec<String>)
        ensures
            strings_view(ids@) == match self.own_menu() {
                Some(m) => nodes_item_ids(entries_nodes(m.entries@)),
                None => Seq::<Seq<char>>::empty(),
            },
    {
        match &self.window_menu {
            Some(m) => menu_item_ids(m),
            None => {
                let ids: Vec<String> = Vec::new();
                assert(strings_view(ids@) =~= Seq::<Seq<char>>::empty());
                ids
            },
        }
    }

    /// The window's own menu.
    pub fn menu(&self) -> (m: &Option<MenuPlan>)
        ensures
            *m == self.own_menu(),
    {
        &self.window_menu
    }

    /// The window's custom protocols.
    pub fn protocols(&self) -> (p: &ProtocolRegistry<H, R>)
        ensures
            *p == self.protocol_registry(),
    {
        &self.protocols
    }

    /// Registers a custom protocol; it applies to webviews created afterwards.
    pub fn register_protocol_raw(&mut self, name: String, handler: H)
        requires
            old(self).protocol_registry()@.wf(),
        ensures
            final(self).protocol_registry()@.wf(),
            final(self).protocol_registry()@.schemes == old(self).protocol_registry()@.schemes.push(name@),
            final(self).protocol_registry()@.handlers == old(self).protocol_registry()@.handlers.push(handler),
            final(self).protocol_registry()@.pending == old(self).protocol_registry()@.pending.push(Seq::empty()),
            final(self).protocol_registry()@.next_id == old(self).protocol_registry()@.next_id,
            final(self).child_flag() == old(self).child_flag(),
            final(self).id_value() == old(self).id_value(),
            final(self).own_menu() == old(self).own_menu(),
    {
        self.protocols.register_protocol_raw(name, handler);
    }

    /// Starts a request on protocol `i`; see `ProtocolRegistry::begin_request`.
    pub fn begin_protocol_request(&mut self, i: usize, responder: R) -> (id: u64)
        requires
            old(self).protocol_registry()@.wf(),
            i < old(self).protocol_registry()@.count(),
            old(self).protocol_registry()@.next_id < u64::MAX,
        ensures
            id == old(self).protocol_registry()@.next_id,
            final(self).protocol_registry()@ == old(self).protocol_registry()@.begun(i as int, responder),
            final(self).protocol_registry()@.wf(),
            final(self).child_flag() == old(self).child_flag(),
            final(self).id_value() == old(self).id_value(),
            final(self).own_menu() == old(self).own_menu(),
    {
        self.protocols.begin_request(i, responder)
    }

    /// Ends a request whose handler could not be called; see
    /// `ProtocolRegistry::fail_request`.
    pub fn fail_protocol_request(&mut self, i: usize, id: u64, failure: HandlerFailure) -> (r: Option<(R, ResponsePlan)>)
        requires
            old(self).protocol_registry()@.wf(),
            i < old(self).protocol_registry()@.count(),
        ensures
            final(self).protocol_registry()@.wf(),
            match old(self).protocol_registry()@.locate(id) {
                Some(p) if p.0 == i => final(self).protocol_registry()@ == old(self).protocol_registry()@.completed(id)
                    && match r {
                    Some((responder, plan)) => responder == old(self).protocol_registry()@.pending[p.0][p.1].1
                        && plan.status == 500 && pairs_view(plan.headers@) == seq![
                        ("Content-Type"@, "text/plain"@),
                    ] && plan.body@ == handler_failure_body(failure),
                    None => false,
                },
                _ => r is None && final(self).protocol_registry()@ == old(self).protocol_registry()@,
            },
            final(self).child_flag() == old(self).child_flag(),
            final(self).id_value() == old(self).id_value(),
            final(self).own_menu() == old(self).own_menu(),
    {
        self.protocols.fail_request(i, id, failure)
    }

    /// Answers an awaiting request; see `ProtocolRegistry::complete_protocol`.
    pub fn complete_protocol(&mut self, id: u64, response: CustomProtocolResponse) -> (r: Result<
        Option<(R, ResponsePlan)>,
        NativeError,
    >)
        requires
            old(self).protocol_registry()@.wf(),
        ensures
            final(self).protocol_registry()@.wf(),
            final(self).protocol_registry()@ == old(self).protocol_registry()@.completed(id),
            match old(self).protocol_registry()@.locate(id) {
                None => r matches Ok(None),
                Some(p) => match r {
                    Ok(Some((responder, plan))) => responder == old(self).protocol_registry()@.pending[p.0][p.1].1
                        && response_agrees(response, Ok(plan)),
                    Ok(None) => false,
                    Err(e) => response_agrees(response, Err(e)),
                },
            },
            final(self).child_flag() == old(self).child_flag(),
            final(self).id_value() == old(self).id_value(),
            final(self).own_menu() == old(self).own_menu(),
    {
        self.protocols.complete_protocol(id, response)
    }
}

} // verus!
