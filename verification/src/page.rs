//! The editor's page: the logo on show, one row for each item of the menu,
//! and the value that every showing of the page persists.

use crate::logos::{logo_source, spec_logo_source, Logo, LogoSource};
use crate::menu::{MenuItem, MenuItemType, MenuItemView};
use crate::settings::{AppModel, ConfigWrite, ConfigWriteView, Message};
use crate::text::text_or_empty;
use vstd::prelude::*;
use vstd::string::*;

verus! {

/// A row of the page as plain values.
pub struct RowView {
    pub icon: Option<Seq<char>>,
    pub text: Option<Seq<char>>,
    pub can_edit: bool,
}

/// What the page shows for one item of the menu, besides the controls that
/// every row has.
#[derive(Debug, PartialEq, Eq)]
pub struct Row {
    /// The name of the row's icon. A divider has none.
    pub icon: Option<&'static str>,
    /// The row's text. A row without text shows a line.
    pub text: Option<String>,
    /// Whether the row's edit control is enabled.
    pub can_edit: bool,
}

impl DeepView for Row {
    type V = RowView;

    open spec fn deep_view(&self) -> RowView {
        RowView { icon: self.icon.deep_view(), text: self.text.deep_view(), can_edit: self.can_edit }
    }
}

impl View for Row {
    type V = RowView;

    open spec fn view(&self) -> RowView {
        self.deep_view()
    }
}

/// The name of the icon for a kind of item. A divider has no icon.
pub open spec fn spec_row_icon(item_type: MenuItemType) -> Option<Seq<char>> {
    match item_type {
        MenuItemType::Divider => None,
        MenuItemType::LaunchAction => Some("utilities-terminal-symbolic"@),
        MenuItemType::PowerAction => Some("system-shutdown-symbolic"@),
        MenuItemType::DefaultAction => Some(""@),
    }
}

/// The text of an item's row: the label, followed by the command where the
/// item has one that is not empty. An item without a label has no text.
pub open spec fn spec_row_text(item: MenuItemView) -> Option<Seq<char>> {
    match item.label {
        Some(label) => {
            let command = text_or_empty(item.command);
            if command.len() > 0 {
                Some(label + "   ::   "@ + command)
            } else {
                Some(label)
            }
        },
        None => None,
    }
}

/// The row of an item. A divider cannot be edited.
pub open spec fn spec_row(item: MenuItemView) -> RowView {
    RowView {
        icon: spec_row_icon(item.item_type),
        text: spec_row_text(item),
        can_edit: item.item_type != MenuItemType::Divider,
    }
}

/// The name of the icon for a kind of item.
pub fn row_icon(item_type: MenuItemType) -> (icon: Option<&'static str>)
    ensures
        icon.deep_view() == spec_row_icon(item_type),
{
    match item_type {
        MenuItemType::Divider => None,
        MenuItemType::LaunchAction => Some("utilities-terminal-symbolic"),
        MenuItemType::PowerAction => Some("system-shutdown-symbolic"),
        MenuItemType::DefaultAction => Some(""),
    }
}

/// The text of an item's row.
pub fn row_text(item: &MenuItem) -> (text: Option<String>)
    ensures
        text.deep_view() == spec_row_text(item@),
{
    match &item.label {
        Some(label) => {
            let mut text = label.clone();
            match &item.command {
                Some(command) => {
                    if command.as_str().unicode_len() > 0 {
                        text.append("   ::   ");
                        text.append(command.as_str());
                    }
                },
                None => {},
            }
            Some(text)
        },
        None => None,
    }
}

/// The row of an item.
pub fn row(item: &MenuItem) -> (shown: Row)
    ensures
        shown@ == spec_row(item@),
{
    let can_edit = match item.item_type {
        MenuItemType::Divider => false,
        _ => true,
    };
    Row { icon: row_icon(item.item_type), text: row_text(item), can_edit }
}

impl AppModel {
    /// The rows of the page, one for each item of the menu, in the menu's
    /// order.
    pub fn rows(&self) -> (shown: Vec<Row>)
        ensures
            shown.deep_view() == self@.menu_items.map_values(|item: MenuItemView| spec_row(item)),
    {
        let mut shown: Vec<Row> = Vec::new();
        let mut i: usize = 0;
        while i < self.menu_items.items.len()
            invariant
                i <= self.menu_items.items.len(),
                shown.len() == i,
                forall|k: int| 0 <= k < i ==> shown[k]@ == spec_row(self.menu_items.items[k]@),
            decreases self.menu_items.items.len() - i,
        {
            shown.push(row(&self.menu_items.items[i]));
            i = i + 1;
        }
        assert(shown.deep_view() =~= self@.menu_items.map_values(
            |item: MenuItemView| spec_row(item),
        ));
        shown
    }

    /// The message of the edit control in the row at `i`: it opens the edit
    /// dialog on a copy of the item. A divider's control is disabled, and
    /// a position outside the menu has no row.
    pub fn edit_request(&self, i: usize) -> (request: Option<Message>)
        ensures
            match request {
                Some(Message::DialogEditItem(at, copy)) => {
                    &&& at == i < self@.menu_items.len()
                    &&& copy@ == self@.menu_items[i as int]
                    &&& copy@.item_type != MenuItemType::Divider
                },
                Some(_) => false,
                None => i >= self@.menu_items.len() || self@.menu_items[i as int].item_type
                    == MenuItemType::Divider,
            },
    {
        if i < self.menu_items.items.len() {
            let item = &self.menu_items.items[i];
            match item.item_type {
                MenuItemType::Divider => None,
                _ => Some(Message::DialogEditItem(i, item.clone())),
            }
        } else {
            None
        }
    }

    /// The logo at the head of the page, out of the set `table`.
    /// `custom_read` says whether the file of the custom logo is there and
    /// was read.
    pub fn logo(&self, table: &Vec<Logo>, custom_read: bool) -> (source: LogoSource)
        ensures
            source@ == spec_logo_source(
                table.deep_view(),
                self@.custom_logo_active,
                custom_read,
                self@.custom_logo_path,
                self@.selected_logo_name,
            ),
    {
        logo_source(
            table,
            self.custom_logo_active,
            custom_read,
            self.custom_logo_path.as_str(),
            self.selected_logo_name.as_str(),
        )
    }

    /// The value that every showing of the page persists: the menu as it
    /// stands.
    pub fn stored_menu(&self) -> (write: ConfigWrite)
        ensures
            write@ == ConfigWriteView::MenuItems(self@.menu_items),
    {
        ConfigWrite::MenuItems(self.menu_items.clone())
    }
}

} // verus!
