use logomenu::applet::{
    entry, Effect, LogoMenu, MenuEntry, Message, PopupId, Surroundings, POPUP_MAX_HEIGHT,
    POPUP_MAX_WIDTH, POPUP_MIN_HEIGHT, POPUP_MIN_WIDTH,
};
use logomenu::catalog::Catalog;
use logomenu::config::LogoMenuConfig;
use logomenu::list::MenuItems;
use logomenu::logos::{builtin, LogoSource};
use logomenu::menu::{MenuItem, MenuItemType};
use logomenu::power::{BusCall, CommandLine, PowerAction};

fn line(program: &str, args: &[&str]) -> CommandLine {
    CommandLine {
        program: program.to_string(),
        args: args.iter().map(|a| a.to_string()).collect(),
    }
}

fn facts(sandboxed: bool, fresh: u64) -> Surroundings {
    Surroundings { sandboxed, fresh_popup: PopupId(fresh) }
}

fn applet() -> LogoMenu {
    LogoMenu::init(None, &Catalog::new())
}

#[test]
fn the_applet_starts_closed_on_the_configuration() {
    let catalog = Catalog::new();
    let started = applet();
    assert_eq!(started.popup, None);
    assert_eq!(started.config, LogoMenuConfig::defaults(&catalog));
    let stored = LogoMenuConfig {
        logo: "Tux".to_string(),
        menu_items: MenuItems { items: Vec::new() },
        custom_logo_active: false,
        custom_logo_path: String::new(),
    };
    assert_eq!(LogoMenu::init(Some(stored.clone()), &catalog).config, stored);
}

#[test]
fn the_popup_toggles() {
    let mut a = applet();
    assert_eq!(a.update(Message::TogglePopup, facts(false, 7)), Effect::OpenPopup(PopupId(7)));
    assert_eq!(a.popup, Some(PopupId(7)));
    assert_eq!(a.update(Message::TogglePopup, facts(false, 8)), Effect::ClosePopup(PopupId(7)));
    assert_eq!(a.popup, None);
}

#[test]
fn a_closed_window_clears_only_its_own_popup() {
    let mut a = applet();
    assert_eq!(a.on_close_requested(PopupId(3)), Some(Message::PopupClosed(PopupId(3))));
    a.update(Message::TogglePopup, facts(false, 7));
    assert_eq!(a.update(Message::PopupClosed(PopupId(3)), facts(false, 8)), Effect::Nothing);
    assert_eq!(a.popup, Some(PopupId(7)));
    assert_eq!(a.update(Message::PopupClosed(PopupId(7)), facts(false, 8)), Effect::Nothing);
    assert_eq!(a.popup, None);
    a.update(Message::PopupClosed(PopupId(7)), facts(false, 8));
    assert_eq!(a.popup, None);
}

#[test]
fn lock_and_suspend_go_to_the_bus_at_once() {
    let mut a = applet();
    assert_eq!(
        a.update(Message::Action(PowerAction::Lock), facts(false, 1)),
        Effect::Call(BusCall::LockSessions)
    );
    assert_eq!(
        a.update(Message::Action(PowerAction::Suspend), facts(true, 1)),
        Effect::Call(BusCall::Suspend { interactive: true })
    );
}

#[test]
fn the_other_actions_go_to_the_helper_first() {
    let mut a = applet();
    assert_eq!(
        a.update(Message::Action(PowerAction::Restart), facts(false, 1)),
        Effect::Helper(PowerAction::Restart, line("cosmic-osd", &["restart"]))
    );
    assert_eq!(
        a.update(Message::Action(PowerAction::LogOut), facts(true, 1)),
        Effect::Helper(
            PowerAction::LogOut,
            line("flatpak-spawn", &["--host", "cosmic-osd", "log-out"])
        )
    );
    assert_eq!(
        a.update(Message::Action(PowerAction::Shutdown), facts(false, 1)),
        Effect::Helper(PowerAction::Shutdown, line("cosmic-osd", &["shutdown"]))
    );
    assert_eq!(a.popup, None);
}

#[test]
fn after_the_helper_the_popup_closes_or_the_bus_is_asked() {
    let mut a = applet();
    assert_eq!(a.helper_done(PowerAction::Restart, true), Effect::Nothing);
    a.update(Message::TogglePopup, facts(false, 7));
    assert_eq!(a.helper_done(PowerAction::Restart, true), Effect::ClosePopup(PopupId(7)));
    assert_eq!(a.popup, Some(PopupId(7)));
    assert_eq!(
        a.helper_done(PowerAction::Restart, false),
        Effect::Call(BusCall::Reboot { interactive: true })
    );
    assert_eq!(
        a.helper_done(PowerAction::LogOut, false),
        Effect::Call(BusCall::SessionExit)
    );
    assert_eq!(
        a.helper_done(PowerAction::Shutdown, false),
        Effect::Call(BusCall::PowerOff { interactive: true })
    );
}

#[test]
fn a_command_is_launched_and_the_popup_closed() {
    let mut a = applet();
    a.update(Message::TogglePopup, facts(false, 7));
    assert_eq!(
        a.update(Message::Run("cosmic-files --new".to_string()), facts(false, 8)),
        Effect::Launch(line("sh", &["-c", "cosmic-files --new"]), Some(PopupId(7)))
    );
    assert_eq!(a.popup, Some(PopupId(7)));
    assert_eq!(
        a.update(Message::Run("cosmic-files --new".to_string()), facts(true, 8)),
        Effect::Launch(
            line("flatpak-spawn", &["--host", "cosmic-files", "--new"]),
            Some(PopupId(7))
        )
    );
    let mut closed = applet();
    assert_eq!(
        closed.update(Message::Run("cosmic-logomenu-settings".to_string()), facts(true, 8)),
        Effect::Launch(line("sh", &["-c", "cosmic-logomenu-settings"]), None)
    );
}

#[test]
fn an_error_of_the_bus_is_reported() {
    let mut a = applet();
    assert_eq!(a.update(Message::Zbus(Ok(())), facts(false, 1)), Effect::Nothing);
    assert_eq!(
        a.update(Message::Zbus(Err("locking session failed".to_string())), facts(false, 1)),
        Effect::Report("cosmic-applet-logomenu ERROR: 'locking session failed'".to_string())
    );
}

#[test]
fn a_changed_configuration_is_taken_over() {
    let mut a = applet();
    a.update(Message::TogglePopup, facts(false, 7));
    let config = LogoMenuConfig {
        logo: "Tux".to_string(),
        menu_items: MenuItems { items: vec![MenuItem::divider()] },
        custom_logo_active: true,
        custom_logo_path: "/x.svg".to_string(),
    };
    assert_eq!(a.update(Message::ConfigUpdate(config.clone()), facts(false, 8)), Effect::Nothing);
    assert_eq!(a.config, config);
    assert_eq!(a.popup, Some(PopupId(7)));
}

#[test]
fn the_popup_has_an_entry_for_each_item() {
    let items = vec![
        MenuItem::entry(MenuItemType::LaunchAction, "Files".to_string(), "cosmic-files"),
        MenuItem::divider(),
        MenuItem::entry(MenuItemType::PowerAction, "Off".to_string(), "Shutdown"),
        MenuItem::entry(MenuItemType::PowerAction, "Odd".to_string(), "Hibernate"),
        MenuItem { item_type: MenuItemType::PowerAction, label: None, command: None },
        MenuItem { item_type: MenuItemType::LaunchAction, label: None, command: None },
        MenuItem::entry(MenuItemType::DefaultAction, "Web".to_string(), "WebBrowser"),
    ];
    let mut a = applet();
    a.config.menu_items = MenuItems { items };
    let shown = a.entries();
    assert_eq!(
        shown,
        vec![
            MenuEntry::Launch("Files".to_string(), "cosmic-files".to_string()),
            MenuEntry::Divider,
            MenuEntry::Power("Off".to_string(), PowerAction::Shutdown),
            MenuEntry::Power("Odd".to_string(), PowerAction::LogOut),
            MenuEntry::Power(String::new(), PowerAction::Shutdown),
            MenuEntry::Launch(String::new(), String::new()),
            MenuEntry::DefaultApp("Web".to_string(), "WebBrowser".to_string()),
        ]
    );
    assert_eq!(shown[0].message(), Some(Message::Run("cosmic-files".to_string())));
    assert_eq!(shown[1].message(), None);
    assert_eq!(shown[2].message(), Some(Message::Action(PowerAction::Shutdown)));
    assert_eq!(shown[6].message(), None);
    assert_eq!(entry(&MenuItem::divider()), MenuEntry::Divider);
}

#[test]
fn the_panel_shows_the_configured_logo() {
    let mut a = applet();
    let table = builtin();
    assert_eq!(a.logo(&table, true), LogoSource::Builtin("Cosmic (Symbolic)".to_string(), true));
    a.config.logo = "Windows".to_string();
    assert_eq!(a.logo(&table, false), LogoSource::Builtin("Cosmic (Symbolic)".to_string(), true));
    a.config.logo = "Tux".to_string();
    a.config.custom_logo_active = true;
    a.config.custom_logo_path = "/x.svg".to_string();
    assert_eq!(a.logo(&table, true), LogoSource::Custom("/x.svg".to_string()));
    assert_eq!(a.logo(&table, false), LogoSource::Builtin("Tux".to_string(), false));
}

#[test]
fn the_popup_is_held_to_its_size() {
    assert_eq!(
        (POPUP_MIN_WIDTH, POPUP_MAX_WIDTH, POPUP_MIN_HEIGHT, POPUP_MAX_HEIGHT),
        (300, 372, 200, 1080)
    );
}

#[test]
fn applet_messages_can_be_copied() {
    let message = Message::Zbus(Err("e".to_string()));
    assert_eq!(message.clone(), message);
    let message = Message::ConfigUpdate(LogoMenuConfig::defaults(&Catalog::new()));
    assert_eq!(message.clone(), message);
}
