//! The menu's data: the kinds of items, the choices that the editor offers
//! for them, and the items themselves.

use crate::catalog::{text_of, Catalog};
use vstd::prelude::*;
use vstd::string::*;

verus! {

/// What kind of entry a menu item is.
#[derive(Clone, Copy, Debug, PartialEq, Eq, Structural)]
pub enum MenuItemType {
    LaunchAction,
    DefaultAction,
    PowerAction,
    Divider,
}

impl MenuItemType {
    /// The id of the message that names this kind.
    pub open spec fn spec_message_id(self) -> Seq<char> {
        match self {
            MenuItemType::LaunchAction => "launch-action"@,
            MenuItemType::DefaultAction => "default-app"@,
            MenuItemType::PowerAction => "power-action"@,
            MenuItemType::Divider => "divider"@,
        }
    }

    /// The id of the message that names this kind.
    pub fn message_id(&self) -> (id: &'static str)
        ensures
            id@ == self.spec_message_id(),
    {
        match self {
            MenuItemType::LaunchAction => "launch-action",
            MenuItemType::DefaultAction => "default-app",
            MenuItemType::PowerAction => "power-action",
            MenuItemType::Divider => "divider",
        }
    }

    /// The name of this kind in the catalog's language.
    pub fn as_localized_string(&self, catalog: &Catalog) -> (text: String)
        ensures
            text@ == text_of(catalog@, self.spec_message_id()),
    {
        catalog.get(self.message_id())
    }
}

/// A category of application for which the desktop keeps a default.
#[derive(Clone, Copy, Debug, PartialEq, Eq, Hash, Structural)]
pub enum DefaultAppOption {
    WebBrowser,
    FileManager,
    MailClient,
    Music,
    Video,
    Photos,
    Calendar,
    Terminal,
    TextEditor,
}

impl DefaultAppOption {
    /// The command text that stands for this category in a menu item.
    pub open spec fn spec_command(self) -> Seq<char> {
        match self {
            DefaultAppOption::WebBrowser => "WebBrowser"@,
            DefaultAppOption::FileManager => "FileManager"@,
            DefaultAppOption::MailClient => "MailClient"@,
            DefaultAppOption::Music => "Music"@,
            DefaultAppOption::Video => "Video"@,
            DefaultAppOption::Photos => "Photos"@,
            DefaultAppOption::Calendar => "Calendar"@,
            DefaultAppOption::Terminal => "Terminal"@,
            DefaultAppOption::TextEditor => "TextEditor"@,
        }
    }

    /// The id of the message that names this category.
    pub open spec fn spec_message_id(self) -> Seq<char> {
        match self {
            DefaultAppOption::WebBrowser => "web-browser"@,
            DefaultAppOption::FileManager => "file-manager"@,
            DefaultAppOption::MailClient => "mail-client"@,
            DefaultAppOption::Music => "music"@,
            DefaultAppOption::Video => "video"@,
            DefaultAppOption::Photos => "photos"@,
            DefaultAppOption::Calendar => "calendar"@,
            DefaultAppOption::Terminal => "terminal"@,
            DefaultAppOption::TextEditor => "text-editor"@,
        }
    }

    /// The command text that stands for this category in a menu item.
    pub fn command(&self) -> (text: String)
        ensures
            text@ == self.spec_command(),
    {
        match self {
            DefaultAppOption::WebBrowser => "WebBrowser".to_owned(),
            DefaultAppOption::FileManager => "FileManager".to_owned(),
            DefaultAppOption::MailClient => "MailClient".to_owned(),
            DefaultAppOption::Music => "Music".to_owned(),
            DefaultAppOption::Video => "Video".to_owned(),
            DefaultAppOption::Photos => "Photos".to_owned(),
            DefaultAppOption::Calendar => "Calendar".to_owned(),
            DefaultAppOption::Terminal => "Terminal".to_owned(),
            DefaultAppOption::TextEditor => "TextEditor".to_owned(),
        }
    }

    /// The id of the message that names this category.
    pub fn message_id(&self) -> (id: &'static str)
        ensures
            id@ == self.spec_message_id(),
    {
        match self {
            DefaultAppOption::WebBrowser => "web-browser",
            DefaultAppOption::FileManager => "file-manager",
            DefaultAppOption::MailClient => "mail-client",
            DefaultAppOption::Music => "music",
            DefaultAppOption::Video => "video",
            DefaultAppOption::Photos => "photos",
            DefaultAppOption::Calendar => "calendar",
            DefaultAppOption::Terminal => "terminal",
            DefaultAppOption::TextEditor => "text-editor",
        }
    }

    /// The name of this category in the catalog's language.
    pub fn as_localized_string(&self, catalog: &Catalog) -> (text: String)
        ensures
            text@ == text_of(catalog@, self.spec_message_id()),
    {
        catalog.get(self.message_id())
    }
}

/// A power action as the editor offers it.
#[derive(Clone, Copy, Debug, PartialEq, Eq, Hash, Structural)]
pub enum PowerActionOption {
    Lock,
    Logout,
    Suspend,
    Restart,
    Shutdown,
}

impl PowerActionOption {
    /// The command text that stands for this action in a menu item.
    pub open spec fn spec_command(self) -> Seq<char> {
        match self {
            PowerActionOption::Lock => "Lock"@,
            PowerActionOption::Logout => "Logout"@,
            PowerActionOption::Suspend => "Suspend"@,
            PowerActionOption::Restart => "Restart"@,
            PowerActionOption::Shutdown => "Shutdown"@,
        }
    }

    /// The id of the message that names this action.
    pub open spec fn spec_message_id(self) -> Seq<char> {
        match self {
            PowerActionOption::Lock => "lock"@,
            PowerActionOption::Logout => "logout"@,
            PowerActionOption::Suspend => "suspend"@,
            PowerActionOption::Restart => "restart"@,
            PowerActionOption::Shutdown => "shutdown"@,
        }
    }

    /// The command text that stands for this action in a menu item.
    pub fn command(&self) -> (text: String)
        ensures
            text@ == self.spec_command(),
    {
        match self {
            PowerActionOption::Lock => "Lock".to_owned(),
            PowerActionOption::Logout => "Logout".to_owned(),
            PowerActionOption::Suspend => "Suspend".to_owned(),
            PowerActionOption::Restart => "Restart".to_owned(),
            PowerActionOption::Shutdown => "Shutdown".to_owned(),
        }
    }

    /// The id of the message that names this action.
    pub fn message_id(&self) -> (id: &'static str)
        ensures
            id@ == self.spec_message_id(),
    {
        match self {
            PowerActionOption::Lock => "lock",
            PowerActionOption::Logout => "logout",
            PowerActionOption::Suspend => "suspend",
            PowerActionOption::Restart => "restart",
            PowerActionOption::Shutdown => "shutdown",
        }
    }

    /// The name of this action in the catalog's language.
    pub fn as_localized_string(&self, catalog: &Catalog) -> (text: String)
        ensures
            text@ == text_of(catalog@, self.spec_message_id()),
    {
        catalog.get(self.message_id())
    }
}

/// What a menu item is, as plain values.
pub struct MenuItemView {
    pub item_type: MenuItemType,
    pub label: Option<Seq<char>>,
    pub command: Option<Seq<char>>,
}

/// One entry of the menu. A divider has neither label nor command.
#[derive(Debug, PartialEq, Eq)]
pub struct MenuItem {
    pub item_type: MenuItemType,
    pub label: Option<String>,
    pub command: Option<String>,
}

impl DeepView for MenuItem {
    type V = MenuItemView;

    open spec fn deep_view(&self) -> MenuItemView {
        MenuItemView {
            item_type: self.item_type,
            label: self.label.deep_view(),
            command: self.command.deep_view(),
        }
    }
}

impl View for MenuItem {
    type V = MenuItemView;

    open spec fn view(&self) -> MenuItemView {
        self.deep_view()
    }
}

impl Clone for MenuItem {
    fn clone(&self) -> (copy: Self)
        ensures
            copy == *self,
    {
        MenuItem {
            item_type: self.item_type,
            label: self.label.clone(),
            command: self.command.clone(),
        }
    }
}

/// The divider as plain values.
pub open spec fn divider_view() -> MenuItemView {
    MenuItemView { item_type: MenuItemType::Divider, label: None, command: None }
}

/// An item of the given kind with a label and a command, as plain values.
pub open spec fn entry_view(item_type: MenuItemType, label: Seq<char>, command: Seq<char>)
    -> MenuItemView {
    MenuItemView { item_type, label: Some(label), command: Some(command) }
}

impl MenuItem {
    /// The separator entry.
    pub fn divider() -> (item: MenuItem)
        ensures
            item@ == divider_view(),
    {
        MenuItem { item_type: MenuItemType::Divider, label: None, command: None }
    }

    /// An entry of the given kind with a label and a command.
    pub fn entry(item_type: MenuItemType, label: String, command: &str) -> (item: MenuItem)
        ensures
            item@ == entry_view(item_type, label@, command@),
    {
        MenuItem { item_type, label: Some(label), command: Some(command.to_owned()) }
    }

    pub fn item_type(&self) -> (kind: MenuItemType)
        ensures
            kind == self.item_type,
    {
        self.item_type
    }

    pub fn label(&self) -> (label: Option<String>)
        ensures
            label == self.label,
    {
        self.label.clone()
    }

    pub fn command(&self) -> (command: Option<String>)
        ensures
            command == self.command,
    {
        self.command.clone()
    }

    /// The command text of a default-application item, which names the
    /// category to resolve; the empty text where the item has no command.
    /// None for an item of another kind.
    pub fn default_app_key(&self) -> (key: Option<String>)
        ensures
            key.deep_view() == spec_default_app_key(self@),
    {
        match self.item_type {
            MenuItemType::DefaultAction => match &self.command {
                Some(command) => Some(command.clone()),
                None => Some(String::new()),
            },
            _ => None,
        }
    }

    /// What to show for the item's command. For a default-application item
    /// it is `resolved`, the name of the application that the desktop gave
    /// for the category, or nothing where it gave none. For any other item
    /// it is the command itself.
    pub fn command_label(&self, resolved: Option<String>) -> (label: Option<String>)
        ensures
            label.deep_view() == spec_command_label(self@, resolved.deep_view()),
    {
        match self.item_type {
            MenuItemType::DefaultAction => resolved,
            _ => self.command.clone(),
        }
    }
}

/// The category text that a default-application item asks to resolve.
pub open spec fn spec_default_app_key(item: MenuItemView) -> Option<Seq<char>> {
    if item.item_type == MenuItemType::DefaultAction {
        match item.command {
            Some(command) => Some(command),
            None => Some(Seq::empty()),
        }
    } else {
        None
    }
}

/// What is shown for an item's command, `resolved` being the name that the
/// desktop gave for a default-application item.
pub open spec fn spec_command_label(item: MenuItemView, resolved: Option<Seq<char>>) -> Option<
    Seq<char>,
> {
    if item.item_type == MenuItemType::DefaultAction {
        resolved
    } else {
        item.command
    }
}

} // verus!
