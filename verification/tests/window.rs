use whynottao::menu::{MenuItemOptions, MenuOptions};
use whynottao::platform::Platform;
use whynottao::webview::Theme;
use whynottao::window::{
    always_on_bottom_changes, always_on_top_changes, centered_position, coord_space, cursor_icon, outer_position_target,
    fullscreen_reported, fullscreen_request, plan_file_dialog, plan_window, prepare_window_icon,
    refresh_rate_hz, size_constraint, try_centered_position, theme_reported, theme_request, BrowserWindow,
    BrowserWindowOptions, CoordSpace, CursorIcon, CursorType, Dimensions, FileDialogOptions,
    FileFilter, FullscreenKind, FullscreenRequest, FullscreenType, LevelChange, MenuAttachment,
    Position, SizeConstraint, WindowLevel, WindowTheme,
};

#[test]
fn window_defaults() {
    let o = BrowserWindowOptions::default();
    assert_eq!(o.title.as_deref(), Some("WebviewJS"));
    assert_eq!(o.show_menu, Some(true));
    assert_eq!(o.logical, Some(false));
    assert_eq!(o.visible, Some(true));
    assert_eq!(o.focused, Some(true));
    assert_eq!(o.fullscreen, None);
}

#[test]
fn window_plan_follows_options() {
    let mut o = BrowserWindowOptions::default();
    o.always_on_top = Some(true);
    o.always_on_bottom = Some(true);
    o.maximizable = Some(false);
    o.logical = Some(true);
    o.fullscreen = Some(FullscreenType::Exclusive);
    o.visible_on_all_workspaces = Some(true);
    let p = plan_window(o, Platform::MacOs, false).unwrap();
    assert_eq!(p.level, Some(WindowLevel::AlwaysOnTop));
    assert!(p.maximizable_off);
    assert!(!p.minimizable_off);
    assert_eq!(p.geometry_space, CoordSpace::Logical);
    assert!(p.borderless_fullscreen);
    assert!(p.visible_on_all_workspaces);
    assert!(matches!(p.menu, MenuAttachment::Global) == false);

    let mut o = BrowserWindowOptions::default();
    o.always_on_bottom = Some(true);
    o.visible_on_all_workspaces = Some(true);
    let p = plan_window(o, Platform::Windows, true).unwrap();
    assert_eq!(p.level, Some(WindowLevel::AlwaysOnBottom));
    assert!(!p.visible_on_all_workspaces);
    assert!(matches!(p.menu, MenuAttachment::Global));
    assert_eq!(p.title.as_deref(), Some("WebviewJS"));
}

#[test]
fn window_menu_choice() {
    let mut o = BrowserWindowOptions::default();
    o.show_menu = Some(true);
    let p = plan_window(o, Platform::Windows, false).unwrap();
    assert!(matches!(p.menu, MenuAttachment::NoMenu));
    let mut o = BrowserWindowOptions::default();
    o.menu = Some(MenuOptions {
        items: vec![MenuItemOptions {
            id: Some("window-action".to_string()),
            label: Some("Window Action".to_string()),
            enabled: None,
            accelerator: Some("Ctrl+W".to_string()),
            submenu: None,
            role: None,
        }],
    });
    let p = plan_window(o, Platform::Windows, true).unwrap();
    assert!(matches!(&p.menu, MenuAttachment::Own(m) if m.entries.len() == 1));
    let w: BrowserWindow<(), ()> = BrowserWindow::new(false, 7, p.menu);
    assert!(w.has_menu());
    assert_eq!(w.menu_item_ids(), vec!["window-action".to_string()]);
    assert_eq!(w.id(), 7);
    assert!(!w.is_child());
    let w: BrowserWindow<(), ()> = BrowserWindow::new(true, 8, MenuAttachment::Global);
    assert!(!w.has_menu());
    assert!(w.menu_item_ids().is_empty());
    assert!(w.is_child());
    let mut o = BrowserWindowOptions::default();
    o.menu = Some(MenuOptions {
        items: vec![MenuItemOptions {
            id: None,
            label: None,
            enabled: None,
            accelerator: None,
            submenu: None,
            role: Some("unknown".to_string()),
        }],
    });
    assert!(plan_window(o, Platform::Windows, true).is_err());
}

#[test]
fn size_limits() {
    assert_eq!(size_constraint(0, 0, Some(true)), None);
    assert_eq!(
        size_constraint(0, 10, None),
        Some(SizeConstraint { width: 0, height: 10, space: CoordSpace::Physical })
    );
    assert_eq!(
        size_constraint(300, 200, Some(true)),
        Some(SizeConstraint { width: 300, height: 200, space: CoordSpace::Logical })
    );
    assert_eq!(coord_space(Some(false)), CoordSpace::Physical);
}

#[test]
fn positions_are_set_in_physical_pixels() {
    for logical in [None, Some(false), Some(true)] {
        assert_eq!(
            outer_position_target(-20, 340, logical),
            (Position { x: -20, y: 340 }, CoordSpace::Physical)
        );
    }
}

#[test]
fn centering() {
    let p = centered_position(
        Position { x: 0, y: 0 },
        Dimensions { width: 1920, height: 1080 },
        Dimensions { width: 800, height: 600 },
    );
    assert_eq!(p, Position { x: 560, y: 240 });
    let p = centered_position(
        Position { x: 100, y: -50 },
        Dimensions { width: 100, height: 100 },
        Dimensions { width: 201, height: 99 },
    );
    assert_eq!(p, Position { x: 50, y: -50 });
}

#[test]
fn centering_that_overflows_is_refused() {
    let p = try_centered_position(
        Position { x: i32::MAX, y: 0 },
        Dimensions { width: 200, height: 10 },
        Dimensions { width: 0, height: 10 },
    );
    assert_eq!(p, None);
    let p = try_centered_position(
        Position { x: 10, y: 20 },
        Dimensions { width: 100, height: 50 },
        Dimensions { width: 50, height: 10 },
    );
    assert_eq!(p, Some(Position { x: 35, y: 40 }));
}

#[test]
fn stacking_levels() {
    assert_eq!(always_on_top_changes(true), vec![LevelChange::AlwaysOnTop(true)]);
    assert_eq!(
        always_on_top_changes(false),
        vec![LevelChange::AlwaysOnBottom(false), LevelChange::AlwaysOnTop(false)]
    );
    assert_eq!(always_on_bottom_changes(true), vec![LevelChange::AlwaysOnBottom(true)]);
    assert_eq!(
        always_on_bottom_changes(false),
        vec![LevelChange::AlwaysOnTop(false), LevelChange::AlwaysOnBottom(false)]
    );
}

#[test]
fn themes_and_fullscreen() {
    assert_eq!(theme_request(Theme::Dark), Some(WindowTheme::Dark));
    assert_eq!(theme_request(Theme::System), None);
    for t in [Theme::Light, Theme::Dark, Theme::System] {
        assert_eq!(theme_reported(theme_request(t)), t);
    }
    assert_eq!(fullscreen_request(Some(FullscreenType::Exclusive)), FullscreenRequest::ExclusiveFirstMode);
    assert_eq!(fullscreen_request(None), FullscreenRequest::Windowed);
    assert_eq!(fullscreen_reported(Some(FullscreenKind::Exclusive)), Some(FullscreenType::Exclusive));
    assert_eq!(fullscreen_reported(None), None);
}

#[test]
fn cursors() {
    assert_eq!(cursor_icon(CursorType::Hand), CursorIcon::Pointer);
    assert_eq!(cursor_icon(CursorType::Arrow), CursorIcon::Default);
    assert_eq!(cursor_icon(CursorType::ResizeNorthWestSouthEast), CursorIcon::NwseResize);
    assert_eq!(cursor_icon(CursorType::ResizeColumn), CursorIcon::ColResize);
}

#[test]
fn refresh_rates() {
    assert_eq!(refresh_rate_hz(59_940), 59);
    assert_eq!(refresh_rate_hz(144_000), 144);
    assert_eq!(refresh_rate_hz(65_537_000), 1);
}

#[test]
fn icon_dimensions() {
    let raw = vec![0u8; 16];
    let i = prepare_window_icon(raw.clone(), Some(2), Some(2)).unwrap();
    assert_eq!((i.width, i.height, i.rgba.len()), (2, 2, 16));
    let i = prepare_window_icon(raw.clone(), Some(2), None).unwrap();
    assert_eq!((i.width, i.height), (2, 2));
    let e = prepare_window_icon(raw, None, Some(2)).unwrap_err();
    assert_eq!(e.status, whynottao::error::ErrorStatus::InvalidArg);
    assert_eq!(
        e.message,
        "Either width and height must be provided together, or at least width only, or neither"
    );
}

#[test]
fn icon_decoding() {
    let img = image::RgbaImage::from_pixel(2, 3, image::Rgba([1, 2, 3, 4]));
    let mut png: Vec<u8> = Vec::new();
    img.write_to(&mut std::io::Cursor::new(&mut png), image::ImageFormat::Png).unwrap();
    let i = prepare_window_icon(png, None, None).unwrap();
    assert_eq!((i.width, i.height), (2, 3));
    assert_eq!(i.rgba.len(), 24);
    assert_eq!(&i.rgba[0..4], &[1, 2, 3, 4]);
    let e = prepare_window_icon(vec![1, 2, 3], None, None).unwrap_err();
    assert!(e.message.starts_with("Failed to decode icon: "));
}

#[test]
fn file_dialogs() {
    assert!(plan_file_dialog(None, Platform::Android).is_none());
    let p = plan_file_dialog(None, Platform::Linux).unwrap();
    assert!(!p.multiple);
    assert_eq!(p.filters.len(), 1);
    assert_eq!(p.filters[0].name, "All Files");
    assert_eq!(p.filters[0].extensions, vec!["*".to_string()]);
    let o = FileDialogOptions {
        multiple: Some(true),
        title: Some("Pick".to_string()),
        default_path: Some("/tmp".to_string()),
        filters: Some(vec![FileFilter { name: "Images".to_string(), extensions: vec!["png".to_string()] }]),
    };
    let p = plan_file_dialog(Some(o), Platform::Windows).unwrap();
    assert!(p.multiple);
    assert_eq!(p.title.as_deref(), Some("Pick"));
    assert_eq!(p.directory.as_deref(), Some("/tmp"));
    assert_eq!(p.filters.len(), 2);
    assert_eq!(p.filters[0].name, "Images");
    assert_eq!(p.filters[1].name, "All Files");
}
