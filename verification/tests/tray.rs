use ghostbloods::tray::{tray_command, tray_menu, TrayCommand, TrayEntry};

#[test]
fn menu_ids_dispatch() {
    assert_eq!(tray_command("open_dashboard"), Some(TrayCommand::OpenDashboard));
    assert_eq!(tray_command("force_check"), Some(TrayCommand::ForceCheck));
    assert_eq!(tray_command("mute_1h"), Some(TrayCommand::Mute { secs: 3600 }));
    assert_eq!(tray_command("mute_8h"), Some(TrayCommand::Mute { secs: 8 * 3600 }));
    assert_eq!(tray_command("mute_24h"), Some(TrayCommand::Mute { secs: 24 * 3600 }));
    assert_eq!(tray_command("unmute"), Some(TrayCommand::Unmute));
    assert_eq!(tray_command("settings"), Some(TrayCommand::OpenSettings));
    assert_eq!(tray_command("quit"), Some(TrayCommand::Quit));
    assert_eq!(tray_command("sep"), None);
    assert_eq!(tray_command(""), None);
}

#[test]
fn menu_layout() {
    let menu = tray_menu();
    assert_eq!(menu.len(), 6);
    match &menu[0] {
        TrayEntry::Item(item) => {
            assert_eq!(item.id, "open_dashboard");
            assert_eq!(item.label, "🌐  Open Dashboard");
            assert!(item.enabled);
        },
        _ => panic!("expected an item"),
    }
    match &menu[2] {
        TrayEntry::Submenu { label, items } => {
            assert_eq!(label, "🔇  Mute Notifications");
            let ids: Vec<&str> = items.iter().map(|i| i.id.as_str()).collect();
            assert_eq!(ids, vec!["mute_1h", "mute_8h", "mute_24h", "unmute"]);
        },
        _ => panic!("expected the mute submenu"),
    }
    match &menu[4] {
        TrayEntry::Item(item) => {
            assert_eq!(item.id, "sep");
            assert!(!item.enabled);
        },
        _ => panic!("expected the separator"),
    }
}

#[test]
fn every_enabled_menu_item_has_a_command() {
    for entry in tray_menu() {
        match entry {
            TrayEntry::Item(item) => assert_eq!(item.enabled, tray_command(&item.id).is_some()),
            TrayEntry::Submenu { items, .. } => {
                for item in items {
                    assert_eq!(item.enabled, tray_command(&item.id).is_some());
                }
            },
        }
    }
}
