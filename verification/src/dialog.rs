//! The editor's dialogs: what the dialog in front shows, how an input
//! changes the item being edited, and when the edit may be saved.

use crate::catalog::{text_of, Catalog};
use crate::menu::{MenuItem, MenuItemType, MenuItemView, PowerActionOption};
use crate::settings::{AppModel, AppModelView, DialogPage, DialogPageView, Message};
use crate::text::{text_eq, text_or_empty};
use vstd::prelude::*;
use vstd::string::*;

verus! {

/// The kinds that the edit dialog offers, in the order of its choice.
pub open spec fn spec_menu_types() -> Seq<MenuItemType> {
    seq![MenuItemType::LaunchAction, MenuItemType::PowerAction]
}

/// The power actions that the edit dialog offers, in the order of its
/// choice.
pub open spec fn spec_power_actions() -> Seq<PowerActionOption> {
    seq![
        PowerActionOption::Lock,
        PowerActionOption::Logout,
        PowerActionOption::Suspend,
        PowerActionOption::Restart,
        PowerActionOption::Shutdown,
    ]
}

/// The position of a kind in the dialog's choice. A kind that is not on
/// offer shows as the first.
pub open spec fn spec_selected_type(item_type: MenuItemType) -> int {
    if item_type == MenuItemType::PowerAction {
        1
    } else {
        0
    }
}

/// The position, in the dialog's choice, of the power action that a command
/// text stands for. A text that stands for none shows as the first.
pub open spec fn spec_selected_power_action(command: Seq<char>) -> int {
    if command == "Logout"@ {
        1
    } else if command == "Suspend"@ {
        2
    } else if command == "Restart"@ {
        3
    } else if command == "Shutdown"@ {
        4
    } else {
        0
    }
}

/// The item after the kind at `choice` was picked: it takes the kind, keeps
/// its label, and its command becomes the lock action for a power entry
/// and none for a launcher. A position outside the choice changes nothing.
pub open spec fn spec_with_type(item: MenuItemView, choice: int) -> MenuItemView {
    if 0 <= choice < spec_menu_types().len() {
        let item_type = spec_menu_types()[choice];
        MenuItemView {
            item_type,
            label: item.label,
            command: if item_type == MenuItemType::PowerAction {
                Some("Lock"@)
            } else {
                None
            },
        }
    } else {
        item
    }
}

/// The item with a new label.
pub open spec fn spec_with_label(item: MenuItemView, label: Seq<char>) -> MenuItemView {
    MenuItemView { label: Some(label), ..item }
}

/// The item with a new command.
pub open spec fn spec_with_command(item: MenuItemView, command: Seq<char>) -> MenuItemView {
    MenuItemView { command: Some(command), ..item }
}

/// The item after the power action at `choice` was picked. A position
/// outside the choice changes nothing.
pub open spec fn spec_with_power_action(item: MenuItemView, choice: int) -> MenuItemView {
    if 0 <= choice < spec_power_actions().len() {
        spec_with_command(item, spec_power_actions()[choice].spec_command())
    } else {
        item
    }
}

/// Whether an edited item may be saved: its label is not empty.
pub open spec fn can_save(item: MenuItemView) -> bool {
    text_or_empty(item.label).len() > 0
}

/// The kinds that the edit dialog offers.
pub fn menu_types() -> (types: Vec<MenuItemType>)
    ensures
        types@ == spec_menu_types(),
{
    let mut types: Vec<MenuItemType> = Vec::new();
    types.push(MenuItemType::LaunchAction);
    types.push(MenuItemType::PowerAction);
    assert(types@ =~= spec_menu_types());
    types
}

/// The power actions that the edit dialog offers.
pub fn power_actions() -> (actions: Vec<PowerActionOption>)
    ensures
        actions@ == spec_power_actions(),
{
    let mut actions: Vec<PowerActionOption> = Vec::new();
    actions.push(PowerActionOption::Lock);
    actions.push(PowerActionOption::Logout);
    actions.push(PowerActionOption::Suspend);
    actions.push(PowerActionOption::Restart);
    actions.push(PowerActionOption::Shutdown);
    assert(actions@ =~= spec_power_actions());
    actions
}

/// The names of the kinds on offer, in the catalog's language.
pub fn menu_type_labels(catalog: &Catalog) -> (labels: Vec<String>)
    ensures
        labels.deep_view() == spec_menu_types().map_values(
            |t: MenuItemType| text_of(catalog@, t.spec_message_id()),
        ),
{
    let types = menu_types();
    let mut labels: Vec<String> = Vec::new();
    let mut i: usize = 0;
    while i < types.len()
        invariant
            i <= types.len(),
            types@ == spec_menu_types(),
            labels.len() == i,
            forall|k: int|
                0 <= k < i ==> labels[k]@ == text_of(catalog@, types[k].spec_message_id()),
        decreases types.len() - i,
    {
        labels.push(types[i].as_localized_string(catalog));
        i = i + 1;
    }
    assert(labels.deep_view() =~= spec_menu_types().map_values(
        |t: MenuItemType| text_of(catalog@, t.spec_message_id()),
    ));
    labels
}

/// The names of the power actions on offer, in the catalog's language.
pub fn power_action_labels(catalog: &Catalog) -> (labels: Vec<String>)
    ensures
        labels.deep_view() == spec_power_actions().map_values(
            |a: PowerActionOption| text_of(catalog@, a.spec_message_id()),
        ),
{
    let actions = power_actions();
    let mut labels: Vec<String> = Vec::new();
    let mut i: usize = 0;
    while i < actions.len()
        invariant
            i <= actions.len(),
            actions@ == spec_power_actions(),
            labels.len() == i,
            forall|k: int|
                0 <= k < i ==> labels[k]@ == text_of(catalog@, actions[k].spec_message_id()),
        decreases actions.len() - i,
    {
        labels.push(actions[i].as_localized_string(catalog));
        i = i + 1;
    }
    assert(labels.deep_view() =~= spec_power_actions().map_values(
        |a: PowerActionOption| text_of(catalog@, a.spec_message_id()),
    ));
    labels
}

/// The position of a kind in the dialog's choice.
pub fn selected_type(item_type: MenuItemType) -> (at: usize)
    ensures
        at == spec_selected_type(item_type),
{
    match item_type {
        MenuItemType::PowerAction => 1,
        _ => 0,
    }
}

/// The position, in the dialog's choice, of the power action that a command
/// text stands for.
pub fn selected_power_action(command: &str) -> (at: usize)
    ensures
        at == spec_selected_power_action(command@),
{
    if text_eq(command, "Logout") {
        1
    } else if text_eq(command, "Suspend") {
        2
    } else if text_eq(command, "Restart") {
        3
    } else if text_eq(command, "Shutdown") {
        4
    } else {
        0
    }
}

/// The item after the kind at `choice` was picked.
pub fn with_type(item: &MenuItem, choice: usize) -> (edited: MenuItem)
    ensures
        edited@ == spec_with_type(item@, choice as int),
{
    let types = menu_types();
    if choice < types.len() {
        let item_type = types[choice];
        let command = match item_type {
            MenuItemType::PowerAction => Some("Lock".to_owned()),
            _ => None,
        };
        MenuItem { item_type, label: item.label.clone(), command }
    } else {
        item.clone()
    }
}

/// The item with a new label.
pub fn with_label(item: &MenuItem, label: String) -> (edited: MenuItem)
    ensures
        edited@ == spec_with_label(item@, label@),
{
    MenuItem { item_type: item.item_type, label: Some(label), command: item.command.clone() }
}

/// The item with a new command.
pub fn with_command(item: &MenuItem, command: String) -> (edited: MenuItem)
    ensures
        edited@ == spec_with_command(item@, command@),
{
    MenuItem { item_type: item.item_type, label: item.label.clone(), command: Some(command) }
}

/// The item after the power action at `choice` was picked.
pub fn with_power_action(item: &MenuItem, choice: usize) -> (edited: MenuItem)
    ensures
        edited@ == spec_with_power_action(item@, choice as int),
{
    let actions = power_actions();
    if choice < actions.len() {
        with_command(item, actions[choice].command())
    } else {
        item.clone()
    }
}

/// The message that saves the edited item at `index`, or none where the
/// item may not be saved: an item with an empty label cannot be saved.
pub fn save_request(index: usize, item: &MenuItem) -> (request: Option<Message>)
    ensures
        match request {
            Some(Message::SaveItem(i, saved)) => can_save(item@) && i == index && saved == *item,
            Some(_) => false,
            None => !can_save(item@),
        },
{
    let filled = match &item.label {
        Some(label) => label.as_str().unicode_len() > 0,
        None => false,
    };
    if filled {
        Some(Message::SaveItem(index, item.clone()))
    } else {
        None
    }
}

/// The edit dialog as plain values.
pub struct EditFormView {
    pub index: usize,
    pub item: MenuItemView,
    pub label: Seq<char>,
    pub command: Seq<char>,
    pub selected_type: int,
    pub selected_power_action: Option<int>,
    pub can_save: bool,
}

/// What the edit dialog shows for the copy of an item.
#[derive(Debug, PartialEq, Eq)]
pub struct EditForm {
    /// The position of the item in the menu.
    pub index: usize,
    /// The copy as edited so far.
    pub item: MenuItem,
    /// The text in the label's input, empty for an item without a label.
    pub label: String,
    /// The text in the command's input, empty for an item without one.
    pub command: String,
    /// The position shown in the choice of kinds.
    pub selected_type: usize,
    /// For a power entry, the position shown in the choice of actions; a
    /// launcher has a text input instead.
    pub selected_power_action: Option<usize>,
    /// Whether the save control is enabled.
    pub can_save: bool,
}

impl DeepView for EditForm {
    type V = EditFormView;

    open spec fn deep_view(&self) -> EditFormView {
        EditFormView {
            index: self.index,
            item: self.item@,
            label: self.label@,
            command: self.command@,
            selected_type: self.selected_type as int,
            selected_power_action: match self.selected_power_action {
                Some(at) => Some(at as int),
                None => None,
            },
            can_save: self.can_save,
        }
    }
}

impl View for EditForm {
    type V = EditFormView;

    open spec fn view(&self) -> EditFormView {
        self.deep_view()
    }
}

/// What the dialog in front shows, as plain values.
pub enum DialogView {
    Edit(EditFormView),
    ConfirmRemove(usize),
    ConfirmReset,
}

/// What the dialog in front shows.
#[derive(Debug, PartialEq, Eq)]
pub enum Dialog {
    /// The edit form.
    Edit(EditForm),
    /// The question whether to remove the item at this position.
    ConfirmRemove(usize),
    /// The question whether to reset the menu.
    ConfirmReset,
}

impl DeepView for Dialog {
    type V = DialogView;

    open spec fn deep_view(&self) -> DialogView {
        match self {
            Dialog::Edit(form) => DialogView::Edit(form@),
            Dialog::ConfirmRemove(i) => DialogView::ConfirmRemove(*i),
            Dialog::ConfirmReset => DialogView::ConfirmReset,
        }
    }
}

impl View for Dialog {
    type V = DialogView;

    open spec fn view(&self) -> DialogView {
        self.deep_view()
    }
}

/// The edit form for the copy `item` of the item at `index`.
pub open spec fn spec_edit_form(index: usize, item: MenuItemView) -> EditFormView {
    let command = text_or_empty(item.command);
    EditFormView {
        index,
        item,
        label: text_or_empty(item.label),
        command,
        selected_type: spec_selected_type(item.item_type),
        selected_power_action: if item.item_type == MenuItemType::PowerAction {
            Some(spec_selected_power_action(command))
        } else {
            None
        },
        can_save: can_save(item),
    }
}

/// What a dialog page shows.
pub open spec fn spec_dialog_of(page: DialogPageView) -> DialogView {
    match page {
        DialogPageView::EditItem(index, item) => DialogView::Edit(spec_edit_form(index, item)),
        DialogPageView::RemoveItem(index) => DialogView::ConfirmRemove(index),
        DialogPageView::ResetMenu => DialogView::ConfirmReset,
    }
}

/// What the editor shows as its dialog: the page in front, or nothing where
/// no dialog is open.
pub open spec fn spec_dialog(state: AppModelView) -> Option<DialogView> {
    if state.dialog_pages.len() > 0 {
        Some(spec_dialog_of(state.dialog_pages[0]))
    } else {
        None
    }
}

/// The edit form for the copy `item` of the item at `index`.
pub fn edit_form(index: usize, item: &MenuItem) -> (form: EditForm)
    ensures
        form@ == spec_edit_form(index, item@),
{
    let label = match &item.label {
        Some(label) => label.clone(),
        None => String::new(),
    };
    let command = match &item.command {
        Some(command) => command.clone(),
        None => String::new(),
    };
    let selected_power_action = match item.item_type {
        MenuItemType::PowerAction => Some(selected_power_action(command.as_str())),
        _ => None,
    };
    let can_save = label.as_str().unicode_len() > 0;
    EditForm {
        index,
        item: item.clone(),
        label,
        command,
        selected_type: selected_type(item.item_type),
        selected_power_action,
        can_save,
    }
}

impl Dialog {
    /// The message of the dialog's main control: save, remove or reset.
    /// The edit dialog has none while the item may not be saved.
    pub fn primary(&self) -> (request: Option<Message>)
        ensures
            match (*self, request) {
                (Dialog::Edit(form), Some(Message::SaveItem(i, saved))) => form.can_save && i
                    == form.index && saved == form.item,
                (Dialog::Edit(form), None) => !form.can_save,
                (Dialog::ConfirmRemove(at), Some(Message::RemoveItem(i))) => i == at,
                (Dialog::ConfirmReset, Some(Message::ResetMenu)) => true,
                _ => false,
            },
    {
        match self {
            Dialog::Edit(form) => {
                if form.can_save {
                    Some(Message::SaveItem(form.index, form.item.clone()))
                } else {
                    None
                }
            },
            Dialog::ConfirmRemove(at) => Some(Message::RemoveItem(*at)),
            Dialog::ConfirmReset => Some(Message::ResetMenu),
        }
    }
}

impl AppModel {
    /// What the editor shows as its dialog.
    pub fn dialog(&self) -> (shown: Option<Dialog>)
        ensures
            shown.deep_view() == spec_dialog(self@),
    {
        if self.dialog_pages.len() > 0 {
            Some(
                match &self.dialog_pages[0] {
                    DialogPage::EditItem(index, item) => Dialog::Edit(edit_form(*index, item)),
                    DialogPage::RemoveItem(index) => Dialog::ConfirmRemove(*index),
                    DialogPage::ResetMenu => Dialog::ConfirmReset,
                },
            )
        } else {
            None
        }
    }
}

/// An item with an empty label cannot be saved, whatever else it holds.
pub proof fn lemma_empty_label_blocks_save(index: usize, item: MenuItemView)
    requires
        item.label == Some(Seq::<char>::empty()) || item.label is None,
    ensures
        !can_save(item),
        !spec_edit_form(index, item).can_save,
{
}

} // verus!
