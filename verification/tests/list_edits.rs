use logomenu::catalog::Catalog;
use logomenu::list::{new_item, MenuItems};
use logomenu::menu::{MenuItem, MenuItemType};

fn launcher(name: &str) -> MenuItem {
    MenuItem::entry(MenuItemType::LaunchAction, name.to_uppercase(), name)
}

fn sample() -> MenuItems {
    MenuItems { items: vec![launcher("a"), MenuItem::divider(), launcher("b"), launcher("c")] }
}

fn english() -> Catalog {
    let mut catalog = Catalog::new();
    let texts = [
        ("about-system", "About This System"),
        ("applications", "Applications"),
        ("launcher", "Launcher"),
        ("workspaces", "Workspaces"),
        ("terminal", "Terminal"),
        ("files", "Files"),
        ("software", "Software"),
        ("settings", "Settings"),
        ("lock", "Lock"),
        ("logout", "Log Out"),
        ("suspend", "Suspend"),
        ("restart", "Restart"),
        ("shutdown", "Shutdown"),
        ("menu-settings", "Menu Settings"),
        ("new-launcher", "New Launcher"),
    ];
    for (id, text) in texts {
        catalog.insert(id, text);
    }
    catalog
}

#[test]
fn add_puts_the_item_in_front() {
    let mut list = sample();
    list.add(launcher("new"));
    assert_eq!(list.len(), 5);
    assert_eq!(list.items[0], launcher("new"));
    assert_eq!(list.items[1..], sample().items[..]);
    let mut empty = MenuItems { items: Vec::new() };
    empty.add(MenuItem::divider());
    assert_eq!(empty.items, vec![MenuItem::divider()]);
}

#[test]
fn new_item_is_a_launcher_to_start_from_or_bare() {
    let catalog = english();
    assert_eq!(
        new_item(MenuItemType::LaunchAction, &catalog),
        MenuItem {
            item_type: MenuItemType::LaunchAction,
            label: Some("New Launcher".to_string()),
            command: Some("cosmic-logomenu-settings".to_string()),
        }
    );
    assert_eq!(new_item(MenuItemType::Divider, &catalog), MenuItem::divider());
    assert_eq!(
        new_item(MenuItemType::PowerAction, &catalog),
        MenuItem { item_type: MenuItemType::PowerAction, label: None, command: None }
    );
}

#[test]
fn move_up_at_the_front_changes_nothing() {
    let mut list = sample();
    list.move_up(0);
    assert_eq!(list, sample());
}

#[test]
fn move_down_at_the_back_changes_nothing() {
    let mut list = sample();
    list.move_down(3);
    assert_eq!(list, sample());
}

#[test]
fn move_up_exchanges_with_the_item_before() {
    for i in 1..4 {
        let mut list = sample();
        list.move_up(i);
        let mut expected = sample();
        expected.items.swap(i - 1, i);
        assert_eq!(list, expected);
    }
}

#[test]
fn move_down_exchanges_with_the_item_after() {
    for i in 0..3 {
        let mut list = sample();
        list.move_down(i);
        let mut expected = sample();
        expected.items.swap(i, i + 1);
        assert_eq!(list, expected);
    }
}

#[test]
fn moves_outside_the_list_change_nothing() {
    let mut list = sample();
    list.move_up(4);
    list.move_down(4);
    list.move_up(usize::MAX);
    list.move_down(usize::MAX);
    assert_eq!(list, sample());
    let mut empty = MenuItems { items: Vec::new() };
    empty.move_up(0);
    empty.move_down(0);
    assert_eq!(empty.len(), 0);
}

#[test]
fn remove_keeps_the_others_in_order() {
    for i in 0..4 {
        let mut list = sample();
        list.remove(i);
        let mut expected = sample();
        expected.items.remove(i);
        assert_eq!(list.len(), 3);
        assert_eq!(list, expected);
    }
}

#[test]
fn remove_outside_the_list_changes_nothing() {
    let mut list = sample();
    list.remove(4);
    list.remove(usize::MAX);
    assert_eq!(list, sample());
}

#[test]
fn remove_takes_one_of_two_equal_items() {
    let mut list = MenuItems { items: vec![MenuItem::divider(), launcher("a"), MenuItem::divider()] };
    list.remove(0);
    assert_eq!(list.items, vec![launcher("a"), MenuItem::divider()]);
}

#[test]
fn replace_puts_the_item_in_place() {
    let mut list = sample();
    list.replace(2, launcher("z"));
    assert_eq!(
        list.items,
        vec![launcher("a"), MenuItem::divider(), launcher("z"), launcher("c")]
    );
    list.replace(4, launcher("y"));
    assert_eq!(list.len(), 4);
    assert_eq!(list.items[3], launcher("c"));
}

#[test]
fn defaults_are_the_built_in_menu() {
    let list = MenuItems::defaults(&english());
    let launch = |label: &str, command: &str| {
        MenuItem::entry(MenuItemType::LaunchAction, label.to_string(), command)
    };
    let power = |label: &str, command: &str| {
        MenuItem::entry(MenuItemType::PowerAction, label.to_string(), command)
    };
    let expected = vec![
        launch("About This System", "cosmic-settings about"),
        MenuItem::divider(),
        launch("Applications", "cosmic-app-library"),
        launch("Launcher", "cosmic-launcher"),
        launch("Workspaces", "cosmic-workspaces"),
        MenuItem::divider(),
        launch("Terminal", "cosmic-term"),
        launch("Files", "cosmic-files"),
        launch("Software", "cosmic-store"),
        launch("Settings", "cosmic-settings"),
        MenuItem::divider(),
        power("Lock", "Lock"),
        power("Log Out", "Logout"),
        power("Suspend", "Suspend"),
        MenuItem::divider(),
        power("Restart", "Restart"),
        power("Shutdown", "Shutdown"),
        MenuItem::divider(),
        launch("Menu Settings", "cosmic-logomenu-settings"),
    ];
    assert_eq!(list.items, expected);
}

#[test]
fn reset_gives_the_defaults_whatever_was_there() {
    let catalog = english();
    let mut a = sample();
    a.reset(&catalog);
    assert_eq!(a, MenuItems::defaults(&catalog));
    let mut b = MenuItems { items: Vec::new() };
    b.reset(&catalog);
    assert_eq!(b, a);
    a.reset(&catalog);
    assert_eq!(a, b);
}

#[test]
fn clone_copies_the_list() {
    let list = sample();
    assert_eq!(list.clone(), list);
}
