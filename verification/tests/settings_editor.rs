use logomenu::catalog::Catalog;
use logomenu::dialog::{
    edit_form, menu_type_labels, menu_types, power_action_labels, power_actions, save_request,
    selected_power_action, selected_type, with_command, with_label, with_power_action, with_type,
    Dialog,
};
use logomenu::list::MenuItems;
use logomenu::logos::{builtin, LogoSource};
use logomenu::menu::{MenuItem, MenuItemType, PowerActionOption};
use logomenu::page::{row, row_icon, row_text, Row};
use logomenu::settings::{
    get_menu_items, AppModel, ConfigWrite, ContextPage, DialogPage, Effect, MenuAction, Message,
    OrderDirection, StoredSettings,
};

fn catalog() -> Catalog {
    let mut catalog = Catalog::new();
    catalog.insert("new-launcher", "New Launcher");
    catalog.insert("launch-action", "Launcher");
    catalog.insert("power-action", "Power action");
    catalog.insert("lock", "Lock");
    catalog.insert("logout", "Log Out");
    catalog.insert("suspend", "Suspend");
    catalog.insert("restart", "Restart");
    catalog.insert("shutdown", "Shut Down");
    catalog
}

fn launcher(name: &str) -> MenuItem {
    MenuItem::entry(MenuItemType::LaunchAction, name.to_uppercase(), name)
}

fn nothing_stored() -> StoredSettings {
    StoredSettings { logo: None, menu_items: None, custom_logo_active: None, custom_logo_path: None }
}

fn model_with(items: Vec<MenuItem>) -> AppModel {
    AppModel::init(
        StoredSettings { menu_items: Some(MenuItems { items }), ..nothing_stored() },
        &catalog(),
    )
}

fn dialogs(model: &AppModel) -> Vec<DialogPage> {
    model.dialog_pages.iter().cloned().collect()
}

#[test]
fn init_takes_defaults_for_what_is_not_stored() {
    let model = AppModel::init(nothing_stored(), &catalog());
    assert_eq!(model.context_page, ContextPage::About);
    assert!(!model.show_context);
    assert!(model.dialog_pages.is_empty());
    assert_eq!(model.logo_options.len(), 61);
    assert_eq!(model.selected_logo_name, "Cosmic (Symbolic)");
    assert_eq!(model.selected_logo_idx, Some(16));
    assert!(!model.custom_logo_active);
    assert_eq!(model.custom_logo_path, "");
    assert_eq!(model.menu_items, MenuItems::defaults(&catalog()));
}

#[test]
fn init_takes_what_is_stored() {
    let model = AppModel::init(
        StoredSettings {
            logo: Some("Tux".to_string()),
            menu_items: Some(MenuItems { items: vec![launcher("a")] }),
            custom_logo_active: Some(true),
            custom_logo_path: Some("/x.svg".to_string()),
        },
        &catalog(),
    );
    assert_eq!(model.selected_logo_name, "Tux");
    assert_eq!(model.selected_logo_idx, Some(51));
    assert!(model.custom_logo_active);
    assert_eq!(model.custom_logo_path, "/x.svg");
    assert_eq!(model.menu_items.items, vec![launcher("a")]);
}

#[test]
fn init_replaces_an_unknown_logo() {
    let model = AppModel::init(
        StoredSettings { logo: Some("Windows".to_string()), ..nothing_stored() },
        &catalog(),
    );
    assert_eq!(model.selected_logo_name, "Cosmic (Symbolic)");
    assert_eq!(model.selected_logo_idx, Some(16));
}

#[test]
fn get_menu_items_gives_the_stored_menu_or_the_built_in_one() {
    assert_eq!(
        get_menu_items(Some(MenuItems { items: vec![launcher("a")] }), &catalog()),
        vec![launcher("a")]
    );
    assert_eq!(get_menu_items(None, &catalog()), MenuItems::defaults(&catalog()).items);
}

#[test]
fn the_context_page_toggles() {
    let mut model = model_with(Vec::new());
    assert_eq!(MenuAction::About.message(), Message::ToggleContextPage(ContextPage::About));
    assert_eq!(model.update(MenuAction::About.message(), &catalog()), Effect::Nothing);
    assert!(model.show_context);
    model.update(Message::ToggleContextPage(ContextPage::About), &catalog());
    assert!(!model.show_context);
}

#[test]
fn a_chosen_logo_is_taken_and_persisted() {
    let mut model = model_with(Vec::new());
    let effect = model.update(Message::UpdateLogo(0), &catalog());
    assert_eq!(effect, Effect::Store(ConfigWrite::Logo("Aeryn".to_string())));
    assert_eq!(model.selected_logo_name, "Aeryn");
    assert_eq!(model.selected_logo_idx, Some(0));
    let effect = model.update(Message::UpdateLogo(61), &catalog());
    assert_eq!(effect, Effect::Nothing);
    assert_eq!(model.selected_logo_name, "Aeryn");
    assert_eq!(model.selected_logo_idx, Some(0));
}

#[test]
fn the_custom_logo_is_switched_and_picked() {
    let mut model = model_with(Vec::new());
    assert_eq!(
        model.update(Message::ToggleCustomLogo(true), &catalog()),
        Effect::Store(ConfigWrite::CustomLogoActive(true))
    );
    assert!(model.custom_logo_active);
    assert_eq!(model.update(Message::UpdateCustomLogo, &catalog()), Effect::PickLogoFile);
    assert_eq!(model.custom_logo_path, "");
    assert_eq!(model.update(Message::CustomLogoPicked(None), &catalog()), Effect::Nothing);
    assert_eq!(model.custom_logo_path, "");
    assert_eq!(
        model.update(Message::CustomLogoPicked(Some("/x.svg".to_string())), &catalog()),
        Effect::Store(ConfigWrite::CustomLogoPath("/x.svg".to_string()))
    );
    assert_eq!(model.custom_logo_path, "/x.svg");
}

#[test]
fn config_writes_have_their_keys() {
    assert_eq!(ConfigWrite::Logo(String::new()).key(), "logo");
    assert_eq!(ConfigWrite::MenuItems(MenuItems { items: Vec::new() }).key(), "menu_items");
    assert_eq!(ConfigWrite::CustomLogoActive(false).key(), "custom_logo_active");
    assert_eq!(ConfigWrite::CustomLogoPath(String::new()).key(), "custom_logo_path");
}

#[test]
fn adding_a_launcher_opens_its_edit_dialog() {
    let mut model = model_with(vec![launcher("a")]);
    assert_eq!(model.update(Message::AddItem(MenuItemType::LaunchAction), &catalog()), Effect::Nothing);
    let added = MenuItem::entry(
        MenuItemType::LaunchAction,
        "New Launcher".to_string(),
        "cosmic-logomenu-settings",
    );
    assert_eq!(model.menu_items.items, vec![added.clone(), launcher("a")]);
    assert_eq!(dialogs(&model), vec![DialogPage::EditItem(0, added)]);
}

#[test]
fn adding_a_divider_opens_no_dialog() {
    let mut model = model_with(vec![launcher("a")]);
    model.update(Message::AddItem(MenuItemType::Divider), &catalog());
    assert_eq!(model.menu_items.items, vec![MenuItem::divider(), launcher("a")]);
    assert!(model.dialog_pages.is_empty());
}

#[test]
fn dialogs_stack_and_the_front_one_is_replaced_or_closed() {
    let mut model = model_with(vec![launcher("a"), launcher("b")]);
    model.update(Message::DialogUpdate(DialogPage::ResetMenu), &catalog());
    assert!(model.dialog_pages.is_empty());
    model.update(Message::DialogCancel, &catalog());
    assert!(model.dialog_pages.is_empty());
    model.update(Message::DialogRemoveItem(1), &catalog());
    model.update(Message::DialogEditItem(0, launcher("a")), &catalog());
    model.update(Message::DialogResetMenu, &catalog());
    assert_eq!(
        dialogs(&model),
        vec![
            DialogPage::ResetMenu,
            DialogPage::EditItem(0, launcher("a")),
            DialogPage::RemoveItem(1)
        ]
    );
    model.update(Message::DialogUpdate(DialogPage::EditItem(1, launcher("z"))), &catalog());
    assert_eq!(
        dialogs(&model),
        vec![
            DialogPage::EditItem(1, launcher("z")),
            DialogPage::EditItem(0, launcher("a")),
            DialogPage::RemoveItem(1)
        ]
    );
    model.update(Message::DialogCancel, &catalog());
    assert_eq!(
        dialogs(&model),
        vec![DialogPage::EditItem(0, launcher("a")), DialogPage::RemoveItem(1)]
    );
    assert_eq!(model.menu_items.items, vec![launcher("a"), launcher("b")]);
}

#[test]
fn saving_replaces_the_item_and_closes_the_dialog() {
    let mut model = model_with(vec![launcher("a"), launcher("b")]);
    model.update(Message::DialogEditItem(1, launcher("b")), &catalog());
    model.update(Message::SaveItem(1, launcher("z")), &catalog());
    assert_eq!(model.menu_items.items, vec![launcher("a"), launcher("z")]);
    assert!(model.dialog_pages.is_empty());
    model.update(Message::DialogEditItem(9, launcher("b")), &catalog());
    model.update(Message::SaveItem(9, launcher("y")), &catalog());
    assert_eq!(model.menu_items.items, vec![launcher("a"), launcher("z")]);
    assert!(model.dialog_pages.is_empty());
}

#[test]
fn removing_deletes_the_item_and_closes_the_dialog() {
    let mut model = model_with(vec![launcher("a"), launcher("b"), launcher("c")]);
    model.update(Message::DialogRemoveItem(1), &catalog());
    model.update(Message::RemoveItem(1), &catalog());
    assert_eq!(model.menu_items.items, vec![launcher("a"), launcher("c")]);
    assert!(model.dialog_pages.is_empty());
    model.update(Message::RemoveItem(2), &catalog());
    assert_eq!(model.menu_items.items, vec![launcher("a"), launcher("c")]);
}

#[test]
fn moving_exchanges_neighbours_and_stops_at_the_ends() {
    let mut model = model_with(vec![launcher("a"), launcher("b"), launcher("c")]);
    model.update(Message::MoveItem(OrderDirection::Up, 0), &catalog());
    model.update(Message::MoveItem(OrderDirection::Down, 2), &catalog());
    assert_eq!(model.menu_items.items, vec![launcher("a"), launcher("b"), launcher("c")]);
    model.update(Message::MoveItem(OrderDirection::Up, 2), &catalog());
    assert_eq!(model.menu_items.items, vec![launcher("a"), launcher("c"), launcher("b")]);
    model.update(Message::MoveItem(OrderDirection::Down, 0), &catalog());
    assert_eq!(model.menu_items.items, vec![launcher("c"), launcher("a"), launcher("b")]);
    let mut empty = model_with(Vec::new());
    empty.update(Message::MoveItem(OrderDirection::Down, 0), &catalog());
    assert!(empty.menu_items.items.is_empty());
}

#[test]
fn reset_puts_the_built_in_menu_back() {
    let mut model = model_with(vec![launcher("a")]);
    model.update(Message::DialogResetMenu, &catalog());
    model.update(Message::ResetMenu, &catalog());
    assert_eq!(model.menu_items, MenuItems::defaults(&catalog()));
    assert!(model.dialog_pages.is_empty());
    model.update(Message::ResetMenu, &catalog());
    assert_eq!(model.menu_items, MenuItems::defaults(&catalog()));
}

#[test]
fn the_dialog_offers_two_kinds_and_five_actions() {
    assert_eq!(menu_types(), vec![MenuItemType::LaunchAction, MenuItemType::PowerAction]);
    assert_eq!(
        power_actions(),
        vec![
            PowerActionOption::Lock,
            PowerActionOption::Logout,
            PowerActionOption::Suspend,
            PowerActionOption::Restart,
            PowerActionOption::Shutdown
        ]
    );
    assert_eq!(menu_type_labels(&catalog()), vec!["Launcher", "Power action"]);
    assert_eq!(
        power_action_labels(&catalog()),
        vec!["Lock", "Log Out", "Suspend", "Restart", "Shut Down"]
    );
}

#[test]
fn the_dialog_shows_the_kind_and_the_action_of_the_item() {
    assert_eq!(selected_type(MenuItemType::LaunchAction), 0);
    assert_eq!(selected_type(MenuItemType::PowerAction), 1);
    assert_eq!(selected_type(MenuItemType::Divider), 0);
    assert_eq!(selected_type(MenuItemType::DefaultAction), 0);
    assert_eq!(selected_power_action("Lock"), 0);
    assert_eq!(selected_power_action("Logout"), 1);
    assert_eq!(selected_power_action("Suspend"), 2);
    assert_eq!(selected_power_action("Restart"), 3);
    assert_eq!(selected_power_action("Shutdown"), 4);
    assert_eq!(selected_power_action("cosmic-files"), 0);
    assert_eq!(selected_power_action(""), 0);
}

#[test]
fn picking_a_kind_resets_the_command() {
    let item = launcher("a");
    assert_eq!(
        with_type(&item, 1),
        MenuItem::entry(MenuItemType::PowerAction, "A".to_string(), "Lock")
    );
    assert_eq!(
        with_type(&with_type(&item, 1), 0),
        MenuItem { item_type: MenuItemType::LaunchAction, label: Some("A".to_string()), command: None }
    );
    assert_eq!(with_type(&item, 2), item);
}

#[test]
fn inputs_change_one_field() {
    let item = launcher("a");
    assert_eq!(
        with_label(&item, "New".to_string()),
        MenuItem::entry(MenuItemType::LaunchAction, "New".to_string(), "a")
    );
    assert_eq!(
        with_command(&item, "run".to_string()),
        MenuItem::entry(MenuItemType::LaunchAction, "A".to_string(), "run")
    );
    assert_eq!(
        with_power_action(&item, 3),
        MenuItem::entry(MenuItemType::LaunchAction, "A".to_string(), "Restart")
    );
    assert_eq!(with_power_action(&item, 5), item);
}

#[test]
fn an_empty_label_cannot_be_saved() {
    let empty = MenuItem::entry(MenuItemType::LaunchAction, String::new(), "a");
    assert_eq!(save_request(0, &empty), None);
    assert!(!edit_form(0, &empty).can_save);
    assert_eq!(Dialog::Edit(edit_form(0, &empty)).primary(), None);
    let missing = MenuItem { item_type: MenuItemType::LaunchAction, label: None, command: None };
    assert_eq!(save_request(0, &missing), None);
    assert!(!edit_form(0, &missing).can_save);
}

#[test]
fn a_labelled_item_can_be_saved() {
    let item = launcher("a");
    assert_eq!(save_request(4, &item), Some(Message::SaveItem(4, item.clone())));
    let form = edit_form(4, &item);
    assert!(form.can_save);
    assert_eq!(Dialog::Edit(form).primary(), Some(Message::SaveItem(4, item)));
    let blank = MenuItem::entry(MenuItemType::LaunchAction, " ".to_string(), "");
    assert_eq!(save_request(0, &blank), Some(Message::SaveItem(0, blank.clone())));
}

#[test]
fn the_edit_form_shows_the_item() {
    let power = MenuItem::entry(MenuItemType::PowerAction, "Off".to_string(), "Shutdown");
    let form = edit_form(2, &power);
    assert_eq!(form.index, 2);
    assert_eq!(form.item, power);
    assert_eq!(form.label, "Off");
    assert_eq!(form.command, "Shutdown");
    assert_eq!(form.selected_type, 1);
    assert_eq!(form.selected_power_action, Some(4));
    let form = edit_form(0, &launcher("a"));
    assert_eq!(form.selected_type, 0);
    assert_eq!(form.selected_power_action, None);
    let bare = MenuItem { item_type: MenuItemType::PowerAction, label: None, command: None };
    let form = edit_form(0, &bare);
    assert_eq!(form.label, "");
    assert_eq!(form.command, "");
    assert_eq!(form.selected_power_action, Some(0));
}

#[test]
fn the_dialog_in_front_is_shown() {
    let mut model = model_with(vec![launcher("a")]);
    assert_eq!(model.dialog(), None);
    model.update(Message::DialogRemoveItem(0), &catalog());
    assert_eq!(model.dialog(), Some(Dialog::ConfirmRemove(0)));
    assert_eq!(model.dialog().unwrap().primary(), Some(Message::RemoveItem(0)));
    model.update(Message::DialogResetMenu, &catalog());
    assert_eq!(model.dialog(), Some(Dialog::ConfirmReset));
    assert_eq!(model.dialog().unwrap().primary(), Some(Message::ResetMenu));
    model.update(Message::DialogEditItem(0, launcher("a")), &catalog());
    assert_eq!(model.dialog(), Some(Dialog::Edit(edit_form(0, &launcher("a")))));
}

#[test]
fn rows_show_label_and_command() {
    assert_eq!(row_text(&launcher("a")), Some("A   ::   a".to_string()));
    assert_eq!(
        row_text(&MenuItem::entry(MenuItemType::LaunchAction, "A".to_string(), "")),
        Some("A".to_string())
    );
    assert_eq!(
        row_text(&MenuItem {
            item_type: MenuItemType::LaunchAction,
            label: Some("A".to_string()),
            command: None
        }),
        Some("A".to_string())
    );
    assert_eq!(row_text(&MenuItem::divider()), None);
    assert_eq!(row_icon(MenuItemType::LaunchAction), Some("utilities-terminal-symbolic"));
    assert_eq!(row_icon(MenuItemType::PowerAction), Some("system-shutdown-symbolic"));
    assert_eq!(row_icon(MenuItemType::DefaultAction), Some(""));
    assert_eq!(row_icon(MenuItemType::Divider), None);
    assert_eq!(row(&MenuItem::divider()), Row { icon: None, text: None, can_edit: false });
}

#[test]
fn the_page_has_a_row_for_each_item() {
    let power = MenuItem::entry(MenuItemType::PowerAction, "Off".to_string(), "Shutdown");
    let model = model_with(vec![launcher("a"), MenuItem::divider(), power.clone()]);
    assert_eq!(
        model.rows(),
        vec![
            Row {
                icon: Some("utilities-terminal-symbolic"),
                text: Some("A   ::   a".to_string()),
                can_edit: true
            },
            Row { icon: None, text: None, can_edit: false },
            Row {
                icon: Some("system-shutdown-symbolic"),
                text: Some("Off   ::   Shutdown".to_string()),
                can_edit: true
            },
        ]
    );
    assert_eq!(model.edit_request(0), Some(Message::DialogEditItem(0, launcher("a"))));
    assert_eq!(model.edit_request(1), None);
    assert_eq!(model.edit_request(2), Some(Message::DialogEditItem(2, power)));
    assert_eq!(model.edit_request(3), None);
    assert_eq!(
        model.stored_menu(),
        ConfigWrite::MenuItems(MenuItems {
            items: model.menu_items.items.iter().cloned().collect()
        })
    );
}

#[test]
fn the_page_shows_the_chosen_or_the_custom_logo() {
    let mut model = model_with(Vec::new());
    let table = builtin();
    assert_eq!(
        model.logo(&table, false),
        LogoSource::Builtin("Cosmic (Symbolic)".to_string(), true)
    );
    model.update(Message::UpdateLogo(51), &catalog());
    assert_eq!(model.logo(&table, true), LogoSource::Builtin("Tux".to_string(), false));
    model.update(Message::CustomLogoPicked(Some("/x.svg".to_string())), &catalog());
    model.update(Message::ToggleCustomLogo(true), &catalog());
    assert_eq!(model.logo(&table, true), LogoSource::Custom("/x.svg".to_string()));
    assert_eq!(model.logo(&table, false), LogoSource::Builtin("Tux".to_string(), false));
}

#[test]
fn messages_can_be_copied() {
    let message = Message::DialogUpdate(DialogPage::EditItem(1, launcher("a")));
    assert_eq!(message.clone(), message);
    let message = Message::CustomLogoPicked(Some("/x.svg".to_string()));
    assert_eq!(message.clone(), message);
}
