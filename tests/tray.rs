use std::sync::{Arc, Mutex};

use tauri_tray::error::Error;
use tauri_tray::menu::{
    CustomMenuItem, MenuHash, SystemTrayMenu, SystemTrayMenuItem, SystemTraySubmenu,
};
use tauri_tray::registry::{get_menu_ids, Registry};
use tauri_tray::tray::{
    commit, MenuUpdate, NativeImage, SystemTrayHandle, TargetOs, TrayHandle, TrayIcon,
};

#[derive(Clone, Debug)]
struct FakeTray {
    fail_menu: Arc<Mutex<bool>>,
    updates: Arc<Mutex<Vec<(MenuHash, String)>>>,
    menus: Arc<Mutex<usize>>,
}

impl FakeTray {
    fn new() -> Self {
        FakeTray {
            fail_menu: Arc::new(Mutex::new(false)),
            updates: Arc::new(Mutex::new(Vec::new())),
            menus: Arc::new(Mutex::new(0)),
        }
    }
}

impl TrayHandle for FakeTray {
    fn set_icon(&self, icon: TrayIcon) -> Result<(), Error> {
        icon.check_platform(TargetOs::Linux)
    }

    fn set_menu(&self, _menu: SystemTrayMenu) -> Result<(), Error> {
        if *self.fail_menu.lock().unwrap() {
            Err(Error::Runtime("menu refused".to_string()))
        } else {
            *self.menus.lock().unwrap() += 1;
            Ok(())
        }
    }

    fn update_item(&self, id: MenuHash, update: MenuUpdate) -> Result<(), Error> {
        let what = match update {
            MenuUpdate::SetEnabled(b) => format!("enabled={}", b),
            MenuUpdate::SetTitle(t) => format!("title={}", t),
            MenuUpdate::SetSelected(b) => format!("selected={}", b),
            MenuUpdate::SetNativeImage(i) => format!("image={:?}", i),
        };
        self.updates.lock().unwrap().push((id, what));
        Ok(())
    }

    fn set_icon_as_template(&self, _is_template: bool) -> Result<(), Error> {
        Ok(())
    }
}

fn item(h: MenuHash, id: &str) -> CustomMenuItem {
    CustomMenuItem::new(h, id.to_string(), format!("Item {}", id))
}

fn quit_menu() -> SystemTrayMenu {
    SystemTrayMenu::new().add_item(item(1, "quit"))
}

#[test]
fn flatten_single_item() {
    let ids = get_menu_ids(&quit_menu());
    assert_eq!(ids.find("quit"), Some(1));
    let tray = SystemTrayHandle::new(FakeTray::new(), &quit_menu());
    let handle = tray.get_item("quit").unwrap();
    assert_eq!(handle.menu_hash(), 1);
}

#[test]
fn flatten_item_in_submenu() {
    let sub = SystemTraySubmenu::new("Help".to_string(), SystemTrayMenu::new().add_item(item(2, "about")));
    let menu = SystemTrayMenu::new().add_submenu(sub);
    let ids = get_menu_ids(&menu);
    assert_eq!(ids.find("about"), Some(2));
    let tray = SystemTrayHandle::new(FakeTray::new(), &menu);
    assert_eq!(tray.get_item("about").unwrap().menu_hash(), 2);
}

#[test]
fn missing_item_is_not_found() {
    let tray = SystemTrayHandle::new(FakeTray::new(), &quit_menu());
    match tray.get_item("missing") {
        Err(e) => assert_eq!(e, Error::ItemNotFound("missing".to_string())),
        Ok(_) => panic!("an item was found for an unknown identifier"),
    }
}

#[test]
fn raw_icon_refused_on_linux() {
    let raw = TrayIcon::Raw(vec![1, 2, 3]);
    assert_eq!(raw.check_platform(TargetOs::Linux), Err(Error::UnsupportedIcon));
    assert_eq!(raw.check_platform(TargetOs::Windows), Ok(()));
    assert_eq!(raw.check_platform(TargetOs::MacOs), Ok(()));
    let file = TrayIcon::File("icon.png".to_string());
    assert_eq!(file.check_platform(TargetOs::Linux), Ok(()));
    assert_eq!(file.check_platform(TargetOs::Windows), Err(Error::UnsupportedIcon));
    let tray = SystemTrayHandle::new(FakeTray::new(), &quit_menu());
    assert_eq!(tray.set_icon(raw), Err(Error::UnsupportedIcon));
    assert_eq!(tray.set_icon(file), Ok(()));
}

#[test]
fn one_entry_per_leaf() {
    let sub = SystemTraySubmenu::new("More".to_string(), SystemTrayMenu::new().add_item(item(3, "c")));
    let menu = SystemTrayMenu::new()
        .add_item(item(1, "a"))
        .add_native_item(SystemTrayMenuItem::Separator)
        .add_item(item(2, "b"))
        .add_submenu(sub);
    let ids = get_menu_ids(&menu);
    assert_eq!(ids.find("a"), Some(1));
    assert_eq!(ids.find("b"), Some(2));
    assert_eq!(ids.find("c"), Some(3));
    assert_eq!(ids.find("More"), None);
    assert_eq!(ids.find(""), None);
}

#[test]
fn empty_menu_has_no_entries() {
    let ids = get_menu_ids(&SystemTrayMenu::new());
    assert_eq!(ids.find("quit"), None);
}

#[test]
fn deep_leaf_resolves_like_top_level() {
    let level3 = SystemTrayMenu::new().add_item(item(30, "deep"));
    let level2 = SystemTrayMenu::new().add_submenu(SystemTraySubmenu::new("L3".to_string(), level3));
    let level1 = SystemTrayMenu::new().add_submenu(SystemTraySubmenu::new("L2".to_string(), level2));
    let menu = SystemTrayMenu::new()
        .add_item(item(1, "top"))
        .add_submenu(SystemTraySubmenu::new("L1".to_string(), level1));
    let ids = get_menu_ids(&menu);
    assert_eq!(ids.find("deep"), Some(30));
    assert_eq!(ids.find("top"), Some(1));
}

#[test]
fn duplicate_handle_last_writer_wins() {
    let menu = SystemTrayMenu::new().add_item(item(5, "first")).add_item(item(5, "second"));
    let ids = get_menu_ids(&menu);
    assert_eq!(ids.find("first"), None);
    assert_eq!(ids.find("second"), Some(5));
}

#[test]
fn registry_insert_replaces() {
    let mut r = Registry::new();
    r.insert(7, "x".to_string());
    r.insert(8, "y".to_string());
    r.insert(7, "z".to_string());
    assert_eq!(r.find("x"), None);
    assert_eq!(r.find("z"), Some(7));
    assert_eq!(r.find("y"), Some(8));
    let copy = r.clone();
    assert_eq!(copy.find("z"), Some(7));
    assert_eq!(copy.find("y"), Some(8));
}

#[test]
fn set_menu_twice_resolves_alike() {
    let tray = SystemTrayHandle::new(FakeTray::new(), &SystemTrayMenu::new());
    let menu = || SystemTrayMenu::new().add_item(item(4, "open")).add_item(item(9, "quit"));
    tray.set_menu(menu()).unwrap();
    let first = tray.get_item("quit").unwrap().menu_hash();
    tray.set_menu(menu()).unwrap();
    let second = tray.get_item("quit").unwrap().menu_hash();
    assert_eq!(first, 9);
    assert_eq!(first, second);
}

#[test]
fn failed_set_menu_keeps_old_items() {
    let native = FakeTray::new();
    let tray = SystemTrayHandle::new(native.clone(), &quit_menu());
    *native.fail_menu.lock().unwrap() = true;
    let result = tray.set_menu(SystemTrayMenu::new().add_item(item(2, "new")));
    assert_eq!(result, Err(Error::Runtime("menu refused".to_string())));
    assert_eq!(tray.get_item("quit").unwrap().menu_hash(), 1);
    assert!(tray.get_item("new").is_err());
}

#[test]
fn successful_set_menu_replaces_whole_registry() {
    let native = FakeTray::new();
    let tray = SystemTrayHandle::new(native.clone(), &quit_menu());
    let shared = tray.clone();
    tray.set_menu(SystemTrayMenu::new().add_item(item(2, "new"))).unwrap();
    assert_eq!(*native.menus.lock().unwrap(), 1);
    assert_eq!(shared.get_item("new").unwrap().menu_hash(), 2);
    assert!(shared.get_item("quit").is_err());
}

#[test]
fn commit_follows_outcome() {
    let fresh = get_menu_ids(&quit_menu());
    let kept = commit(fresh.clone(), &Err(Error::Runtime("no".to_string())));
    assert!(kept.is_none());
    let installed = commit(fresh, &Ok(())).unwrap();
    assert_eq!(installed.find("quit"), Some(1));
}

#[test]
fn item_updates_reach_native_layer() {
    let native = FakeTray::new();
    let tray = SystemTrayHandle::new(native.clone(), &quit_menu());
    let handle = tray.get_item("quit").unwrap();
    let copy = handle.clone();
    assert_eq!(copy.menu_hash(), 1);
    handle.set_enabled(false).unwrap();
    handle.set_title("Leave".to_string()).unwrap();
    copy.set_selected(true).unwrap();
    copy.set_native_image(NativeImage::Remove).unwrap();
    tray.set_icon_as_template(true).unwrap();
    let updates = native.updates.lock().unwrap().clone();
    assert_eq!(
        updates,
        vec![
            (1, "enabled=false".to_string()),
            (1, "title=Leave".to_string()),
            (1, "selected=true".to_string()),
            (1, "image=Remove".to_string()),
        ]
    );
}

#[test]
fn item_in_uses_given_registry() {
    let tray = SystemTrayHandle::new(FakeTray::new(), &quit_menu());
    let other = get_menu_ids(&SystemTrayMenu::new().add_item(item(6, "other")));
    assert_eq!(tray.item_in(&other, "other").unwrap().menu_hash(), 6);
    assert!(tray.item_in(&other, "quit").is_err());
}

#[test]
fn ambiguous_identifiers_detected() {
    let menu = SystemTrayMenu::new().add_item(item(1, "same")).add_item(item(2, "other"));
    assert!(!get_menu_ids(&menu).has_ambiguous_identifier());
    let sub = SystemTraySubmenu::new("Sub".to_string(), SystemTrayMenu::new().add_item(item(3, "same")));
    let clash = SystemTrayMenu::new().add_item(item(1, "same")).add_submenu(sub);
    let ids = get_menu_ids(&clash);
    assert!(ids.has_ambiguous_identifier());
    let found = ids.find("same");
    assert!(found == Some(1) || found == Some(3));
    assert!(!get_menu_ids(&SystemTrayMenu::new()).has_ambiguous_identifier());
}

#[test]
fn overwritten_identifier_is_not_ambiguous() {
    let menu = SystemTrayMenu::new().add_item(item(4, "a")).add_item(item(4, "a"));
    assert!(!get_menu_ids(&menu).has_ambiguous_identifier());
}

#[test]
fn inlined_submenu_gives_same_mapping() {
    let nested = SystemTrayMenu::new()
        .add_item(item(1, "a"))
        .add_submenu(SystemTraySubmenu::new(
            "Sub".to_string(),
            SystemTrayMenu::new().add_item(item(2, "b")).add_item(item(3, "c")),
        ))
        .add_item(item(4, "d"));
    let flat = SystemTrayMenu::new()
        .add_item(item(1, "a"))
        .add_item(item(2, "b"))
        .add_item(item(3, "c"))
        .add_item(item(4, "d"));
    let n = get_menu_ids(&nested);
    let f = get_menu_ids(&flat);
    for id in ["a", "b", "c", "d", "e"] {
        assert_eq!(n.find(id), f.find(id));
    }
    assert_eq!(n.find("c"), Some(3));
}
