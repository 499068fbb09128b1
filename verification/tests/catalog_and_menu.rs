use logomenu::catalog::{message_ids, Catalog};
use logomenu::menu::{DefaultAppOption, MenuItem, MenuItemType, PowerActionOption};

#[test]
fn catalog_gives_the_text_recorded_last() {
    let mut catalog = Catalog::new();
    assert_eq!(catalog.len(), 0);
    catalog.insert("lock", "Lock");
    catalog.insert("files", "Files");
    catalog.insert("lock", "Sperren");
    assert_eq!(catalog.len(), 3);
    assert_eq!(catalog.get("lock"), "Sperren");
    assert_eq!(catalog.get("files"), "Files");
}

#[test]
fn catalog_names_a_missing_message() {
    let catalog = Catalog::new();
    assert_eq!(catalog.get("lock"), "No localization for id: \"lock\"");
}

#[test]
fn message_ids_cover_what_the_menu_asks_for() {
    let ids = message_ids();
    assert_eq!(ids.len(), 29);
    for id in [
        MenuItemType::LaunchAction.message_id(),
        MenuItemType::Divider.message_id(),
        DefaultAppOption::TextEditor.message_id(),
        PowerActionOption::Shutdown.message_id(),
        "new-launcher",
        "menu-settings",
        "lock-screen",
    ] {
        assert!(ids.contains(&id), "{}", id);
    }
    let mut sorted = ids.clone();
    sorted.sort();
    sorted.dedup();
    assert_eq!(sorted.len(), ids.len());
}

#[test]
fn kinds_are_named_from_the_catalog() {
    let mut catalog = Catalog::new();
    catalog.insert("launch-action", "Launcher");
    catalog.insert("default-app", "Default application");
    catalog.insert("power-action", "Power action");
    catalog.insert("divider", "Divider");
    assert_eq!(MenuItemType::LaunchAction.as_localized_string(&catalog), "Launcher");
    assert_eq!(MenuItemType::DefaultAction.as_localized_string(&catalog), "Default application");
    assert_eq!(MenuItemType::PowerAction.as_localized_string(&catalog), "Power action");
    assert_eq!(MenuItemType::Divider.as_localized_string(&catalog), "Divider");
}

#[test]
fn default_app_options_have_their_commands_and_names() {
    let all = [
        (DefaultAppOption::WebBrowser, "WebBrowser", "web-browser"),
        (DefaultAppOption::FileManager, "FileManager", "file-manager"),
        (DefaultAppOption::MailClient, "MailClient", "mail-client"),
        (DefaultAppOption::Music, "Music", "music"),
        (DefaultAppOption::Video, "Video", "video"),
        (DefaultAppOption::Photos, "Photos", "photos"),
        (DefaultAppOption::Calendar, "Calendar", "calendar"),
        (DefaultAppOption::Terminal, "Terminal", "terminal"),
        (DefaultAppOption::TextEditor, "TextEditor", "text-editor"),
    ];
    let mut catalog = Catalog::new();
    for (_, _, id) in all {
        catalog.insert(id, &format!("<{}>", id));
    }
    for (option, command, id) in all {
        assert_eq!(option.command(), command);
        assert_eq!(option.message_id(), id);
        assert_eq!(option.as_localized_string(&catalog), format!("<{}>", id));
    }
}

#[test]
fn power_action_options_have_their_commands_and_names() {
    let all = [
        (PowerActionOption::Lock, "Lock", "lock"),
        (PowerActionOption::Logout, "Logout", "logout"),
        (PowerActionOption::Suspend, "Suspend", "suspend"),
        (PowerActionOption::Restart, "Restart", "restart"),
        (PowerActionOption::Shutdown, "Shutdown", "shutdown"),
    ];
    let mut catalog = Catalog::new();
    for (_, _, id) in all {
        catalog.insert(id, &format!("<{}>", id));
    }
    for (option, command, id) in all {
        assert_eq!(option.command(), command);
        assert_eq!(option.message_id(), id);
        assert_eq!(option.as_localized_string(&catalog), format!("<{}>", id));
    }
}

#[test]
fn menu_item_getters_give_copies_of_the_fields() {
    let item = MenuItem::entry(MenuItemType::LaunchAction, "Files".to_string(), "cosmic-files");
    assert_eq!(item.item_type(), MenuItemType::LaunchAction);
    assert_eq!(item.label(), Some("Files".to_string()));
    assert_eq!(item.command(), Some("cosmic-files".to_string()));
    let divider = MenuItem::divider();
    assert_eq!(divider.item_type(), MenuItemType::Divider);
    assert_eq!(divider.label(), None);
    assert_eq!(divider.command(), None);
    assert_eq!(item.clone(), item);
}

#[test]
fn command_label_is_the_command_but_for_default_applications() {
    let launcher = MenuItem::entry(MenuItemType::LaunchAction, "Files".to_string(), "cosmic-files");
    assert_eq!(
        launcher.command_label(Some("ignored".to_string())),
        Some("cosmic-files".to_string())
    );
    assert_eq!(launcher.default_app_key(), None);
    assert_eq!(MenuItem::divider().command_label(None), None);

    let browser = MenuItem::entry(MenuItemType::DefaultAction, "Web".to_string(), "WebBrowser");
    assert_eq!(browser.default_app_key(), Some("WebBrowser".to_string()));
    assert_eq!(browser.command_label(Some("Firefox".to_string())), Some("Firefox".to_string()));
    assert_eq!(browser.command_label(None), None);

    let bare = MenuItem { item_type: MenuItemType::DefaultAction, label: None, command: None };
    assert_eq!(bare.default_app_key(), Some(String::new()));
}
