use whynottao::error::ErrorStatus;
use whynottao::menu::{
    create_menu_from_options, make_default_macos_menu, make_menu_item, role_to_predefined, MenuEntry,
    MenuItemOptions, MenuOptions, PredefinedRole,
};
use whynottao::platform::Platform;

fn item(id: Option<&str>, label: Option<&str>) -> MenuItemOptions {
    MenuItemOptions {
        id: id.map(|s| s.to_string()),
        label: label.map(|s| s.to_string()),
        enabled: None,
        accelerator: None,
        submenu: None,
        role: None,
    }
}

fn role(r: &str) -> MenuItemOptions {
    MenuItemOptions { role: Some(r.to_string()), ..item(None, None) }
}

fn submenu(label: &str, items: Vec<MenuItemOptions>) -> MenuItemOptions {
    MenuItemOptions { submenu: Some(MenuOptions { items }), ..item(None, Some(label)) }
}

#[test]
fn roles_map_to_predefined_items() {
    assert_eq!(role_to_predefined("copy").unwrap(), PredefinedRole::Copy);
    assert_eq!(role_to_predefined("selectall").unwrap(), PredefinedRole::SelectAll);
    assert_eq!(role_to_predefined("select-all").unwrap(), PredefinedRole::SelectAll);
    assert_eq!(role_to_predefined("-").unwrap(), PredefinedRole::Separator);
    assert_eq!(role_to_predefined("close-window").unwrap(), PredefinedRole::CloseWindow);
    assert_eq!(role_to_predefined("close").unwrap(), PredefinedRole::CloseWindow);
    assert_eq!(role_to_predefined("bring-all-to-front").unwrap(), PredefinedRole::BringAllToFront);
    assert_eq!(role_to_predefined("services").unwrap(), PredefinedRole::Services);
}

#[test]
fn unknown_role_is_an_invalid_argument() {
    let e = role_to_predefined("Copy").unwrap_err();
    assert_eq!(e.status, ErrorStatus::InvalidArg);
    assert_eq!(e.message, "Unknown menu role: \"Copy\"");
}

#[test]
fn custom_item_defaults() {
    match make_menu_item(&item(None, Some("New"))) {
        MenuEntry::Item { id, label, enabled, accelerator } => {
            assert_eq!(id, "New");
            assert_eq!(label, "New");
            assert!(enabled);
            assert_eq!(accelerator, None);
        }
        _ => panic!("expected an item"),
    }
    let mut it = item(Some("open"), None);
    it.enabled = Some(false);
    it.accelerator = Some("CmdOrCtrl+O".to_string());
    match make_menu_item(&it) {
        MenuEntry::Item { id, label, enabled, accelerator } => {
            assert_eq!(id, "open");
            assert_eq!(label, "");
            assert!(!enabled);
            assert_eq!(accelerator, Some("CmdOrCtrl+O".to_string()));
        }
        _ => panic!("expected an item"),
    }
}

#[test]
fn file_and_edit_menus_from_the_guide() {
    let options = MenuOptions {
        items: vec![
            submenu(
                "File",
                vec![item(Some("new"), Some("New")), item(Some("open"), Some("Open")), role("separator"), role("quit")],
            ),
            submenu("Edit", vec![role("undo"), role("redo"), role("cut"), role("copy"), role("paste")]),
        ],
    };
    let plan = create_menu_from_options(options, Platform::Windows).unwrap();
    assert_eq!(plan.entries.len(), 2);
    match &plan.entries[0] {
        MenuEntry::Submenu { label, children } => {
            assert_eq!(label, "File");
            assert_eq!(children.len(), 4);
            assert!(matches!(&children[0], MenuEntry::Item { id, .. } if id == "new"));
            assert!(matches!(children[2], MenuEntry::Predefined { role: PredefinedRole::Separator }));
            assert!(matches!(children[3], MenuEntry::Predefined { role: PredefinedRole::Quit }));
        }
        _ => panic!("expected a submenu"),
    }
    match &plan.entries[1] {
        MenuEntry::Submenu { label, children } => {
            assert_eq!(label, "Edit");
            assert!(matches!(children[4], MenuEntry::Predefined { role: PredefinedRole::Paste }));
        }
        _ => panic!("expected a submenu"),
    }
}

#[test]
fn entries_without_id_label_role_or_submenu_are_left_out() {
    let options = MenuOptions { items: vec![item(None, None), item(Some("a"), None), item(None, None)] };
    let plan = create_menu_from_options(options, Platform::Linux).unwrap();
    assert_eq!(plan.entries.len(), 1);
}

#[test]
fn nested_unknown_role_fails_the_whole_menu() {
    let options = MenuOptions {
        items: vec![
            item(Some("ok"), Some("Ok")),
            submenu("View", vec![submenu("Zoom", vec![role("zoom-in"), role("bogus")])]),
        ],
    };
    let e = create_menu_from_options(options, Platform::Windows).unwrap_err();
    assert_eq!(e.status, ErrorStatus::InvalidArg);
    assert_eq!(e.message, "Unknown menu role: \"zoom-in\"");
}

#[test]
fn submenu_without_label_is_titled_empty() {
    let mut sub = submenu("x", vec![]);
    sub.label = None;
    let plan = create_menu_from_options(MenuOptions { items: vec![sub] }, Platform::Windows).unwrap();
    assert!(matches!(&plan.entries[0], MenuEntry::Submenu { label, children } if label.is_empty() && children.is_empty()));
}

fn is_app_submenu(e: &MenuEntry) -> bool {
    match e {
        MenuEntry::Submenu { label, children } => {
            let roles: Vec<PredefinedRole> = children
                .iter()
                .map(|c| match c {
                    MenuEntry::Predefined { role } => *role,
                    _ => panic!("expected predefined items"),
                })
                .collect();
            label == "App"
                && roles
                    == vec![
                        PredefinedRole::About,
                        PredefinedRole::Separator,
                        PredefinedRole::Hide,
                        PredefinedRole::HideOthers,
                        PredefinedRole::ShowAll,
                        PredefinedRole::Separator,
                        PredefinedRole::Quit,
                    ]
        }
        _ => false,
    }
}

#[test]
fn macos_menus_start_with_the_app_submenu() {
    let options = MenuOptions { items: vec![item(Some("a"), Some("A"))] };
    let plan = create_menu_from_options(options, Platform::MacOs).unwrap();
    assert_eq!(plan.entries.len(), 2);
    assert!(is_app_submenu(&plan.entries[0]));
    let default_menu = make_default_macos_menu();
    assert_eq!(default_menu.entries.len(), 1);
    assert!(is_app_submenu(&default_menu.entries[0]));
}
