use vstd::prelude::*;

verus! {

/// What a click on a tray menu item asks for.
#[derive(Debug, Clone, Copy, PartialEq, Eq, Structural)]
pub enum TrayCommand {
    OpenDashboard,
    ForceCheck,
    /// Mute notifications for `secs` seconds.
    Mute { secs: u64 },
    Unmute,
    OpenSettings,
    Quit,
}

/// One clickable line of the tray menu.
#[derive(Debug)]
pub struct MenuItemSpec {
    pub id: String,
    pub label: String,
    pub enabled: bool,
}

/// A line of the tray menu: an item, or a submenu of items.
#[derive(Debug)]
pub enum TrayEntry {
    Item(MenuItemSpec),
    Submenu { label: String, items: Vec<MenuItemSpec> },
}

/// The text of a menu item.
pub struct ItemView {
    pub id: Seq<char>,
    pub label: Seq<char>,
    pub enabled: bool,
}

/// The text of a menu line.
pub enum EntryView {
    Item(ItemView),
    Submenu { label: Seq<char>, items: Seq<ItemView> },
}

impl View for MenuItemSpec {
    type V = ItemView;

    open spec fn view(&self) -> ItemView {
        ItemView { id: self.id@, label: self.label@, enabled: self.enabled }
    }
}

/// The texts of a sequence of menu items.
pub open spec fn item_views(items: Seq<MenuItemSpec>) -> Seq<ItemView> {
    items.map_values(|i: MenuItemSpec| i@)
}

impl View for TrayEntry {
    type V = EntryView;

    open spec fn view(&self) -> EntryView {
        match self {
            TrayEntry::Item(item) => EntryView::Item(item@),
            TrayEntry::Submenu { label, items } => EntryView::Submenu { label: label@, items: item_views(items@) },
        }
    }
}

/// The texts of a sequence of menu lines.
pub open spec fn entry_views(entries: Seq<TrayEntry>) -> Seq<EntryView> {
    entries.map_values(|e: TrayEntry| e@)
}

/// The command that the menu item `id` stands for, if any.
pub open spec fn command_for(id: Seq<char>) -> Option<TrayCommand> {
    if id == "open_dashboard"@ {
        Some(TrayCommand::OpenDashboard)
    } else if id == "force_check"@ {
        Some(TrayCommand::ForceCheck)
    } else if id == "mute_1h"@ {
        Some(TrayCommand::Mute { secs: 3600 })
    } else if id == "mute_8h"@ {
        Some(TrayCommand::Mute { secs: 28800 })
    } else if id == "mute_24h"@ {
        Some(TrayCommand::Mute { secs: 86400 })
    } else if id == "unmute"@ {
        Some(TrayCommand::Unmute)
    } else if id == "settings"@ {
        Some(TrayCommand::OpenSettings)
    } else if id == "quit"@ {
        Some(TrayCommand::Quit)
    } else {
        None
    }
}

/// The menu item with the given texts.
pub open spec fn item_of(id: Seq<char>, label: Seq<char>, enabled: bool) -> ItemView {
    ItemView { id, label, enabled }
}

/// The items of the mute submenu.
pub open spec fn mute_items() -> Seq<ItemView> {
    seq![
        item_of("mute_1h"@, "1 Hour"@, true),
        item_of("mute_8h"@, "8 Hours"@, true),
        item_of("mute_24h"@, "24 Hours"@, true),
        item_of("unmute"@, "🔔  Unmute"@, true),
    ]
}

/// The tray menu, top to bottom.
pub open spec fn tray_layout() -> Seq<EntryView> {
    seq![
        EntryView::Item(item_of("open_dashboard"@, "🌐  Open Dashboard"@, true)),
        EntryView::Item(item_of("force_check"@, "🔍  Force Background Check"@, true)),
        EntryView::Submenu { label: "🔇  Mute Notifications"@, items: mute_items() },
        EntryView::Item(item_of("settings"@, "⚙️  Settings"@, true)),
        EntryView::Item(item_of("sep"@, "───────────"@, false)),
        EntryView::Item(item_of("quit"@, "✖  Quit GhostBloods"@, true)),
    ]
}

/// The command that a click on the menu item `id` stands for; `None` for an
/// id that no command answers to.
pub fn tray_command(id: &str) -> (command: Option<TrayCommand>)
    ensures
        command == command_for(id@),
{
    let id = String::from_str(id);
    if id == String::from_str("open_dashboard") {
        Some(TrayCommand::OpenDashboard)
    } else if id == String::from_str("force_check") {
        Some(TrayCommand::ForceCheck)
    } else if id == String::from_str("mute_1h") {
        Some(TrayCommand::Mute { secs: 3600 })
    } else if id == String::from_str("mute_8h") {
        Some(TrayCommand::Mute { secs: 28800 })
    } else if id == String::from_str("mute_24h") {
        Some(TrayCommand::Mute { secs: 86400 })
    } else if id == String::from_str("unmute") {
        Some(TrayCommand::Unmute)
    } else if id == String::from_str("settings") {
        Some(TrayCommand::OpenSettings)
    } else if id == String::from_str("quit") {
        Some(TrayCommand::Quit)
    } else {
        None
    }
}

fn menu_item(id: &str, label: &str, enabled: bool) -> (item: MenuItemSpec)
    ensures
        item@ == item_of(id@, label@, enabled),
{
    MenuItemSpec { id: String::from_str(id), label: String::from_str(label), enabled }
}

/// The lines of the tray menu, top to bottom.
pub fn tray_menu() -> (menu: Vec<TrayEntry>)
    ensures
        entry_views(menu@) == tray_layout(),
{
    let mut mute: Vec<MenuItemSpec> = Vec::new();
    mute.push(menu_item("mute_1h", "1 Hour", true));
    mute.push(menu_item("mute_8h", "8 Hours", true));
    mute.push(menu_item("mute_24h", "24 Hours", true));
    mute.push(menu_item("unmute", "🔔  Unmute", true));
    assert(item_views(mute@) =~= mute_items());
    let mut menu: Vec<TrayEntry> = Vec::new();
    menu.push(TrayEntry::Item(menu_item("open_dashboard", "🌐  Open Dashboard", true)));
    menu.push(TrayEntry::Item(menu_item("force_check", "🔍  Force Background Check", true)));
    menu.push(TrayEntry::Submenu { label: String::from_str("🔇  Mute Notifications"), items: mute });
    menu.push(TrayEntry::Item(menu_item("settings", "⚙️  Settings", true)));
    menu.push(TrayEntry::Item(menu_item("sep", "───────────", false)));
    menu.push(TrayEntry::Item(menu_item("quit", "✖  Quit GhostBloods", true)));
    assert(entry_views(menu@) =~= tray_layout());
    menu
}

} // verus!
