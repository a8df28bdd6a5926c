use whynottao::application::{
    AppAction, Application, HandlerSlot, LoopControl, WebviewApplicationEvent, WindowEvent,
};
use whynottao::menu::{MenuEntry, MenuItemOptions, MenuOptions};
use whynottao::platform::Platform;
use whynottao::window::BrowserWindowOptions;

fn fired(actions: &[AppAction]) -> Vec<WebviewApplicationEvent> {
    actions
        .iter()
        .filter_map(|a| match a {
            AppAction::Fire(e) => Some(e.event),
            _ => None,
        })
        .collect()
}

fn hidden(actions: &[AppAction]) -> Vec<u64> {
    actions
        .iter()
        .filter_map(|a| match a {
            AppAction::HideWindow { window } => Some(*window),
            _ => None,
        })
        .collect()
}

#[test]
fn closing_the_last_window_closes_the_application() {
    let mut app = Application::new(Platform::Linux, None);
    app.track_window(1);
    assert!(app.is_alive());
    let actions = app.handle_window_event(1, WindowEvent::CloseRequested);
    assert_eq!(hidden(&actions), vec![1]);
    assert_eq!(
        fired(&actions),
        vec![WebviewApplicationEvent::WindowCloseRequested, WebviewApplicationEvent::ApplicationCloseRequested]
    );
    assert!(!app.is_alive());
    assert_eq!(app.loop_control(), LoopControl::ExitWithCode(0));
}

#[test]
fn closing_one_of_two_windows_keeps_running() {
    let mut app = Application::new(Platform::Windows, None);
    app.track_window(1);
    app.track_window(2);
    let actions = app.handle_window_event(2, WindowEvent::CloseRequested);
    assert_eq!(hidden(&actions), vec![2]);
    assert_eq!(fired(&actions), vec![WebviewApplicationEvent::WindowCloseRequested]);
    assert!(app.is_alive());
    assert_eq!(app.loop_control(), LoopControl::Poll);
    let actions = app.handle_window_event(1, WindowEvent::CloseRequested);
    assert_eq!(fired(&actions).len(), 2);
    assert!(!app.is_alive());
}

#[test]
fn exited_application_ignores_window_events() {
    let mut app = Application::new(Platform::Linux, None);
    app.track_window(1);
    app.track_window(2);
    let mut gone = app.exit();
    gone.sort();
    assert_eq!(gone, vec![1, 2]);
    assert!(!app.is_alive());
    assert!(app.handle_window_event(1, WindowEvent::CloseRequested).is_empty());
    assert!(app.handle_window_event(1, WindowEvent::Resized { width: 10, height: 10 }).is_empty());
    assert!(app.exit().is_empty());
}

#[test]
fn resize_follows_tracked_windows_even_after_they_close() {
    let mut app = Application::new(Platform::Windows, None);
    app.track_window(1);
    app.track_window(3);
    let actions = app.handle_window_event(1, WindowEvent::Resized { width: 640, height: 480 });
    assert!(matches!(actions.as_slice(), [AppAction::ResizeWebviews { window: 1, width: 640, height: 480 }]));
    assert!(app.handle_window_event(9, WindowEvent::Resized { width: 1, height: 1 }).is_empty());
    app.handle_window_event(1, WindowEvent::CloseRequested);
    assert_eq!(app.handle_window_event(1, WindowEvent::Resized { width: 2, height: 2 }).len(), 1);
    assert!(app.handle_window_event(1, WindowEvent::Other).is_empty());
}

#[test]
fn repeated_close_request_reports_again_without_hiding() {
    let mut app = Application::new(Platform::Windows, None);
    app.track_window(1);
    app.track_window(2);
    app.handle_window_event(1, WindowEvent::CloseRequested);
    let actions = app.handle_window_event(1, WindowEvent::CloseRequested);
    assert!(hidden(&actions).is_empty());
    assert_eq!(fired(&actions), vec![WebviewApplicationEvent::WindowCloseRequested]);
}

#[test]
fn menu_clicks_carry_the_item_id() {
    let e = Application::menu_click_event("new".to_string(), 4);
    assert_eq!(e.event, WebviewApplicationEvent::CustomMenuClick);
    let m = e.custom_menu_event.unwrap();
    assert_eq!(m.id, "new");
    assert_eq!(m.window_id, 4);
}

#[test]
fn menu_clicks_report_the_window_whose_menu_holds_the_item() {
    let mut app = Application::new(Platform::Windows, None);
    app.set_menu(Some(one_item_menu())).unwrap();
    app.register_window_menu(11, vec!["save".to_string(), "open".to_string()]);
    app.register_window_menu(12, vec!["print".to_string()]);
    assert_eq!(app.click_source("open"), 11);
    assert_eq!(app.click_source("print"), 12);
    assert_eq!(app.click_source("a"), 0);
    let events = app.menu_click_events(vec!["print".to_string(), "a".to_string(), "save".to_string()]);
    let got: Vec<(String, u32)> = events
        .into_iter()
        .map(|e| {
            assert_eq!(e.event, WebviewApplicationEvent::CustomMenuClick);
            let m = e.custom_menu_event.unwrap();
            (m.id, m.window_id)
        })
        .collect();
    assert_eq!(
        got,
        vec![("print".to_string(), 12), ("a".to_string(), 0), ("save".to_string(), 11)]
    );
    app.register_window_menu(13, vec!["open".to_string()]);
    assert_eq!(app.click_source("open"), 13);
}

#[test]
fn no_menu_clicks_while_they_are_off() {
    let mut app = Application::new(Platform::Windows, None);
    app.register_window_menu(11, vec!["save".to_string()]);
    assert!(app.menu_click_events(vec!["save".to_string()]).is_empty());
}

fn one_item_menu() -> MenuOptions {
    MenuOptions {
        items: vec![MenuItemOptions {
            id: Some("a".to_string()),
            label: Some("A".to_string()),
            enabled: None,
            accelerator: None,
            submenu: None,
            role: None,
        }],
    }
}

#[test]
fn set_menu_installs_and_removes_the_global_menu() {
    let mut app = Application::new(Platform::Windows, None);
    assert!(app.global_menu().is_none());
    assert!(!app.menu_events_enabled());
    app.set_menu(Some(one_item_menu())).unwrap();
    assert!(app.menu_events_enabled());
    assert_eq!(app.global_menu().as_ref().unwrap().entries.len(), 1);
    app.set_menu(None).unwrap();
    assert!(app.global_menu().is_none());
    assert!(!app.menu_events_enabled());
}

#[test]
fn macos_keeps_an_application_menu() {
    let mut app = Application::new(Platform::MacOs, None);
    assert!(app.menu_events_enabled());
    assert_eq!(app.global_menu().as_ref().unwrap().entries.len(), 1);
    app.set_menu(Some(one_item_menu())).unwrap();
    assert_eq!(app.global_menu().as_ref().unwrap().entries.len(), 2);
    app.set_menu(None).unwrap();
    let menu = app.global_menu().as_ref().unwrap();
    assert!(matches!(&menu.entries[0], MenuEntry::Submenu { label, .. } if label == "App"));
    assert!(app.menu_events_enabled());
}

#[test]
fn bad_menu_leaves_the_global_menu_alone() {
    let mut app = Application::new(Platform::Windows, None);
    app.set_menu(Some(one_item_menu())).unwrap();
    let mut bad = one_item_menu();
    bad.items[0].role = Some("nope".to_string());
    assert!(app.set_menu(Some(bad)).is_err());
    assert_eq!(app.global_menu().as_ref().unwrap().entries.len(), 1);
}

#[test]
fn android_has_no_menus() {
    let mut app = Application::new(Platform::Android, None);
    app.set_menu(Some(one_item_menu())).unwrap();
    assert!(app.global_menu().is_none());
    let o = app.new_window_options(None);
    assert_eq!(o.show_menu, Some(true));
}

#[test]
fn new_windows_show_the_global_menu() {
    let mut app = Application::new(Platform::Windows, None);
    let mut given = BrowserWindowOptions::default();
    given.show_menu = Some(false);
    let o = app.new_window_options(Some(given));
    assert_eq!(o.show_menu, Some(false));
    app.set_menu(Some(one_item_menu())).unwrap();
    let mut given = BrowserWindowOptions::default();
    given.show_menu = None;
    let o = app.new_window_options(Some(given));
    assert_eq!(o.show_menu, Some(true));
    let mut given = BrowserWindowOptions::default();
    given.show_menu = Some(false);
    given.menu = Some(one_item_menu());
    let o = app.new_window_options(Some(given));
    assert_eq!(o.show_menu, Some(false));
    let o = app.new_window_options(None);
    assert_eq!(o.title.as_deref(), Some("WebviewJS"));
}

#[test]
fn bind_and_on_event_are_the_same() {
    let mut a: HandlerSlot<u8> = HandlerSlot::new();
    let mut b: HandlerSlot<u8> = HandlerSlot::new();
    assert_eq!(*a.get(), None);
    a.on_event(Some(3));
    b.bind(Some(3));
    assert_eq!(a.get(), b.get());
    a.bind(None);
    assert_eq!(*a.get(), None);
}
