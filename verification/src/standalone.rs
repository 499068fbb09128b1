//! The applet with a fixed menu: the menu's items are built in, and the
//! choice of the logo is made inside the popup.

use crate::applet::{after_close, toggled, PopupId};
use crate::catalog::{text_of, Catalog};
use crate::launch::{launch_command, spec_launch_command};
use crate::logos::{
    default_logo_name, effective_logo, effective_name, logo_view, names_of, options, Logo,
    LogoView,
};
use crate::power::{
    spec_helper_command, spec_perform, AfterHelper, BusCall, CommandLine, CommandLineView,
    PowerAction,
};
use crate::text::{
    find_name, increasing, index_view, lemma_increasing_has_no_repeats, parts_at, position,
    text_before, text_or_empty,
};
use vstd::prelude::*;
use vstd::string::*;

verus! {

/// What kind of entry a built-in menu item is.
#[derive(Clone, Copy, Debug, PartialEq, Eq, Structural)]
pub enum MenuItemType {
    TermAction,
    PowerAction,
    Divider,
}

/// A built-in menu item as plain values.
pub struct MenuItemView {
    pub item_type: MenuItemType,
    pub label: Option<Seq<char>>,
    pub command: Option<Seq<char>>,
    pub action: Option<PowerAction>,
}

/// An item of the built-in menu. An item of the power kind always has its
/// action.
#[derive(Debug, PartialEq, Eq)]
pub struct MenuItem {
    item_type: MenuItemType,
    label: Option<String>,
    command: Option<String>,
    action: Option<PowerAction>,
}

impl View for MenuItem {
    type V = MenuItemView;

    closed spec fn view(&self) -> MenuItemView {
        MenuItemView {
            item_type: self.item_type,
            label: self.label.deep_view(),
            command: self.command.deep_view(),
            action: self.action,
        }
    }
}

impl DeepView for MenuItem {
    type V = MenuItemView;

    open spec fn deep_view(&self) -> MenuItemView {
        self.view()
    }
}

/// A launcher with the catalog's text for `id` as its label.
pub open spec fn term_view(entries: Seq<(Seq<char>, Seq<char>)>, id: Seq<char>, command: Seq<char>)
    -> MenuItemView {
    MenuItemView {
        item_type: MenuItemType::TermAction,
        label: Some(text_of(entries, id)),
        command: Some(command),
        action: None,
    }
}

/// A power entry with the catalog's text for `id` as its label.
pub open spec fn power_view(entries: Seq<(Seq<char>, Seq<char>)>, id: Seq<char>, action: PowerAction)
    -> MenuItemView {
    MenuItemView {
        item_type: MenuItemType::PowerAction,
        label: Some(text_of(entries, id)),
        command: None,
        action: Some(action),
    }
}

/// The separator.
pub open spec fn divider_view() -> MenuItemView {
    MenuItemView { item_type: MenuItemType::Divider, label: None, command: None, action: None }
}

/// The built-in menu, labelled from the catalog `entries`.
pub open spec fn menu_items(entries: Seq<(Seq<char>, Seq<char>)>) -> Seq<MenuItemView> {
    seq![
        term_view(entries, "applications"@, "cosmic-app-library"@),
        term_view(entries, "launcher"@, "cosmic-launcher"@),
        term_view(entries, "workspaces"@, "cosmic-workspaces"@),
        divider_view(),
        term_view(entries, "terminal"@, "cosmic-term"@),
        term_view(entries, "files"@, "cosmic-files"@),
        term_view(entries, "software"@, "cosmic-store"@),
        divider_view(),
        power_view(entries, "lock-screen"@, PowerAction::Lock),
        power_view(entries, "log-out"@, PowerAction::LogOut),
        power_view(entries, "suspend"@, PowerAction::Suspend),
        power_view(entries, "restart"@, PowerAction::Restart),
        power_view(entries, "shutdown"@, PowerAction::Shutdown),
    ]
}

/// An entry of the popup as plain values.
pub enum MenuEntryView {
    Launch(Seq<char>, Seq<char>),
    Power(Seq<char>, PowerAction),
    Divider,
}

/// An entry of the popup.
#[derive(Debug, PartialEq, Eq)]
pub enum MenuEntry {
    /// A button with this label that launches this command.
    Launch(String, String),
    /// A button with this label that asks for this power action.
    Power(String, PowerAction),
    /// A separating line.
    Divider,
}

impl DeepView for MenuEntry {
    type V = MenuEntryView;

    open spec fn deep_view(&self) -> MenuEntryView {
        match self {
            MenuEntry::Launch(label, command) => MenuEntryView::Launch(label@, command@),
            MenuEntry::Power(label, action) => MenuEntryView::Power(label@, *action),
            MenuEntry::Divider => MenuEntryView::Divider,
        }
    }
}

impl View for MenuEntry {
    type V = MenuEntryView;

    open spec fn view(&self) -> MenuEntryView {
        self.deep_view()
    }
}

/// That an item of the power kind has its action.
pub open spec fn is_complete(item: MenuItemView) -> bool {
    item.item_type == MenuItemType::PowerAction ==> item.action is Some
}

/// The entry that the popup shows for an item. A missing label or command
/// counts as the empty one.
pub open spec fn spec_entry(item: MenuItemView) -> MenuEntryView
    recommends
        is_complete(item),
{
    match item.item_type {
        MenuItemType::TermAction => MenuEntryView::Launch(
            text_or_empty(item.label),
            text_or_empty(item.command),
        ),
        MenuItemType::PowerAction => MenuEntryView::Power(
            text_or_empty(item.label),
            item.action->0,
        ),
        MenuItemType::Divider => MenuEntryView::Divider,
    }
}

fn text_or_default(text: &Option<String>) -> (owned: String)
    ensures
        owned@ == text_or_empty(text.deep_view()),
{
    match text {
        Some(t) => t.clone(),
        None => String::new(),
    }
}

impl MenuItem {
    #[verifier::type_invariant]
    spec fn complete(self) -> bool {
        self.item_type == MenuItemType::PowerAction ==> self.action is Some
    }

    /// A launcher with a label and a command.
    pub fn term(label: String, command: &str) -> (item: MenuItem)
        ensures
            item@ == (MenuItemView {
                item_type: MenuItemType::TermAction,
                label: Some(label@),
                command: Some(command@),
                action: None,
            }),
    {
        MenuItem {
            item_type: MenuItemType::TermAction,
            label: Some(label),
            command: Some(command.to_owned()),
            action: None,
        }
    }

    /// A power entry with a label and its action.
    pub fn power(label: String, action: PowerAction) -> (item: MenuItem)
        ensures
            item@ == (MenuItemView {
                item_type: MenuItemType::PowerAction,
                label: Some(label@),
                command: None,
                action: Some(action),
            }),
    {
        MenuItem {
            item_type: MenuItemType::PowerAction,
            label: Some(label),
            command: None,
            action: Some(action),
        }
    }

    /// The separator.
    pub fn divider() -> (item: MenuItem)
        ensures
            item@ == divider_view(),
    {
        MenuItem { item_type: MenuItemType::Divider, label: None, command: None, action: None }
    }

    pub fn item_type(&self) -> (kind: MenuItemType)
        ensures
            kind == self@.item_type,
    {
        self.item_type
    }

    pub fn label(&self) -> (label: Option<String>)
        ensures
            label.deep_view() == self@.label,
    {
        self.label.clone()
    }

    /// The command that the item launches, if it launches one.
    pub fn command(&self) -> (command: Option<String>)
        ensures
            command.deep_view() == self@.command,
    {
        self.command.clone()
    }

    pub fn action(&self) -> (action: Option<PowerAction>)
        ensures
            action == self@.action,
            is_complete(self@),
    {
        proof {
            use_type_invariant(self);
        }
        self.action
    }

    /// The entry that the popup shows for the item.
    pub fn entry(&self) -> (shown: MenuEntry)
        ensures
            is_complete(self@),
            shown@ == spec_entry(self@),
    {
        proof {
            use_type_invariant(self);
        }
        match self.item_type {
            MenuItemType::TermAction => MenuEntry::Launch(
                text_or_default(&self.label),
                text_or_default(&self.command),
            ),
            MenuItemType::PowerAction => match self.action {
                Some(action) => MenuEntry::Power(text_or_default(&self.label), action),
                None => MenuEntry::Divider,
            },
            MenuItemType::Divider => MenuEntry::Divider,
        }
    }
}

/// The built-in menu, labelled from `catalog`.
pub fn get_menu_items(catalog: &Catalog) -> (items: Vec<MenuItem>)
    ensures
        items.deep_view() == menu_items(catalog@),
{
    let mut items: Vec<MenuItem> = Vec::new();
    items.push(MenuItem::term(catalog.get("applications"), "cosmic-app-library"));
    items.push(MenuItem::term(catalog.get("launcher"), "cosmic-launcher"));
    items.push(MenuItem::term(catalog.get("workspaces"), "cosmic-workspaces"));
    items.push(MenuItem::divider());
    items.push(MenuItem::term(catalog.get("terminal"), "cosmic-term"));
    items.push(MenuItem::term(catalog.get("files"), "cosmic-files"));
    items.push(MenuItem::term(catalog.get("software"), "cosmic-store"));
    items.push(MenuItem::divider());
    items.push(MenuItem::power(catalog.get("lock-screen"), PowerAction::Lock));
    items.push(MenuItem::power(catalog.get("log-out"), PowerAction::LogOut));
    items.push(MenuItem::power(catalog.get("suspend"), PowerAction::Suspend));
    items.push(MenuItem::power(catalog.get("restart"), PowerAction::Restart));
    items.push(MenuItem::power(catalog.get("shutdown"), PowerAction::Shutdown));
    assert(items.deep_view() =~= menu_items(catalog@));
    items
}

/// The entries of the popup, one for each item, in the items' order.
pub fn entries(items: &Vec<MenuItem>) -> (shown: Vec<MenuEntry>)
    ensures
        shown.deep_view() == items.deep_view().map_values(|item: MenuItemView| spec_entry(item)),
{
    let mut shown: Vec<MenuEntry> = Vec::new();
    let mut i: usize = 0;
    while i < items.len()
        invariant
            i <= items.len(),
            shown.len() == i,
            forall|k: int| 0 <= k < i ==> shown[k]@ == spec_entry(items[k]@),
        decreases items.len() - i,
    {
        shown.push(items[i].entry());
        i = i + 1;
    }
    assert(shown.deep_view() =~= items.deep_view().map_values(
        |item: MenuItemView| spec_entry(item),
    ));
    shown
}

/// The logos of this applet, ordered by name.
pub open spec fn logo_set() -> Seq<LogoView> {
    seq![
        logo_view("Alma"@, false),
        logo_view("Alma (Symbolic)"@, true),
        logo_view("Arch"@, false),
        logo_view("Arch (Symbolic)"@, true),
        logo_view("Asahi"@, false),
        logo_view("Asahi (Symbolic)"@, true),
        logo_view("Bazzite"@, false),
        logo_view("Clear"@, false),
        logo_view("Cosmic"@, false),
        logo_view("Cosmic (Black)"@, false),
        logo_view("Cosmic (Symbolic)"@, true),
        logo_view("Debian"@, false),
        logo_view("Debian (Symbolic)"@, true),
        logo_view("EndeavourOS"@, false),
        logo_view("EndeavourOS (Symbolic)"@, true),
        logo_view("Fedora"@, false),
        logo_view("Fedora (Symbolic)"@, true),
        logo_view("FreeBSD"@, false),
        logo_view("FreeBSD (Symbolic)"@, true),
        logo_view("Garuda"@, true),
        logo_view("Garuda (Symbolic)"@, false),
        logo_view("Gentoo (Symbolic)"@, true),
        logo_view("Kali"@, false),
        logo_view("Kali (Symbolic)"@, true),
        logo_view("MX (Symbolic)"@, true),
        logo_view("Manjaro"@, false),
        logo_view("Manjaro (Symbolic)"@, true),
        logo_view("NetBSD"@, false),
        logo_view("NixOS"@, false),
        logo_view("NixOS (Symbolic)"@, true),
        logo_view("Nobara (Symbolic)"@, true),
        logo_view("OpenBSD"@, false),
        logo_view("OpenSuse"@, false),
        logo_view("OpenSuse (Symbolic)"@, true),
        logo_view("Pop!_OS"@, false),
        logo_view("Pop!_OS (Symbolic)"@, true),
        logo_view("PureOS (Symbolic)"@, true),
        logo_view("Raspbian (Symbolic)"@, true),
        logo_view("Red Hat"@, false),
        logo_view("Red Hat (Symbolic)"@, true),
        logo_view("Rocky"@, false),
        logo_view("Rocky (Symbolic)"@, true),
        logo_view("ShastraOS"@, false),
        logo_view("ShastraOS (Symbolic)"@, true),
        logo_view("Solus"@, false),
        logo_view("Solus (Symbolic)"@, true),
        logo_view("SteamDeck (Blue)"@, false),
        logo_view("SteamDeck (Orange)"@, false),
        logo_view("SteamDeck (Symbolic)"@, true),
        logo_view("Tux"@, false),
        logo_view("Tux (Symbolic)"@, true),
        logo_view("Ubuntu"@, false),
        logo_view("Ubuntu (Symbolic)"@, true),
        logo_view("Vanilla"@, false),
        logo_view("Void"@, false),
        logo_view("Void (Symbolic)"@, true),
        logo_view("Voyager (Symbolic)"@, true),
        logo_view("Zorin"@, false),
        logo_view("Zorin (Symbolic)"@, true),
        logo_view("uBlue"@, false),
        logo_view("uBlue (Symbolic)"@, true),
    ]
}

fn logo(name: &str, symbolic: bool) -> (l: Logo)
    ensures
        l@ == logo_view(name@, symbolic),
{
    Logo { name: name.to_owned(), symbolic }
}

/// The logos of this applet, ordered by name.
pub fn logos() -> (table: Vec<Logo>)
    ensures
        table.deep_view() == logo_set(),
{
    let mut table: Vec<Logo> = Vec::new();
    table.push(logo("Alma", false));
    table.push(logo("Alma (Symbolic)", true));
    table.push(logo("Arch", false));
    table.push(logo("Arch (Symbolic)", true));
    table.push(logo("Asahi", false));
    table.push(logo("Asahi (Symbolic)", true));
    table.push(logo("Bazzite", false));
    table.push(logo("Clear", false));
    table.push(logo("Cosmic", false));
    table.push(logo("Cosmic (Black)", false));
    table.push(logo("Cosmic (Symbolic)", true));
    table.push(logo("Debian", false));
    table.push(logo("Debian (Symbolic)", true));
    table.push(logo("EndeavourOS", false));
    table.push(logo("EndeavourOS (Symbolic)", true));
    table.push(logo("Fedora", false));
    table.push(logo("Fedora (Symbolic)", true));
    table.push(logo("FreeBSD", false));
    table.push(logo("FreeBSD (Symbolic)", true));
    table.push(logo("Garuda", true));
    table.push(logo("Garuda (Symbolic)", false));
    table.push(logo("Gentoo (Symbolic)", true));
    table.push(logo("Kali", false));
    table.push(logo("Kali (Symbolic)", true));
    table.push(logo("MX (Symbolic)", true));
    table.push(logo("Manjaro", false));
    table.push(logo("Manjaro (Symbolic)", true));
    table.push(logo("NetBSD", false));
    table.push(logo("NixOS", false));
    table.push(logo("NixOS (Symbolic)", true));
    table.push(logo("Nobara (Symbolic)", true));
    table.push(logo("OpenBSD", false));
    table.push(logo("OpenSuse", false));
    table.push(logo("OpenSuse (Symbolic)", true));
    table.push(logo("Pop!_OS", false));
    table.push(logo("Pop!_OS (Symbolic)", true));
    table.push(logo("PureOS (Symbolic)", true));
    table.push(logo("Raspbian (Symbolic)", true));
    table.push(logo("Red Hat", false));
    table.push(logo("Red Hat (Symbolic)", true));
    table.push(logo("Rocky", false));
    table.push(logo("Rocky (Symbolic)", true));
    table.push(logo("ShastraOS", false));
    table.push(logo("ShastraOS (Symbolic)", true));
    table.push(logo("Solus", false));
    table.push(logo("Solus (Symbolic)", true));
    table.push(logo("SteamDeck (Blue)", false));
    table.push(logo("SteamDeck (Orange)", false));
    table.push(logo("SteamDeck (Symbolic)", true));
    table.push(logo("Tux", false));
    table.push(logo("Tux (Symbolic)", true));
    table.push(logo("Ubuntu", false));
    table.push(logo("Ubuntu (Symbolic)", true));
    table.push(logo("Vanilla", false));
    table.push(logo("Void", false));
    table.push(logo("Void (Symbolic)", true));
    table.push(logo("Voyager (Symbolic)", true));
    table.push(logo("Zorin", false));
    table.push(logo("Zorin (Symbolic)", true));
    table.push(logo("uBlue", false));
    table.push(logo("uBlue (Symbolic)", true));
    assert(table.deep_view() =~= logo_set());
    table
}

/// What the applet is told.
#[derive(Debug, PartialEq, Eq)]
pub enum Message {
    TogglePopup,
    PopupClosed(PopupId),
    /// Launch this command.
    Run(String),
    /// Choose the logo at this position of the options.
    UpdateLogo(usize),
    ToggleMenuSettings,
    Action(PowerAction),
    /// A request on the bus has ended, well or with this error.
    Zbus(Result<(), String>),
}

impl Clone for Message {
    fn clone(&self) -> (copy: Self)
        ensures
            copy == *self,
    {
        match self {
            Message::TogglePopup => Message::TogglePopup,
            Message::PopupClosed(id) => Message::PopupClosed(*id),
            Message::Run(action) => Message::Run(action.clone()),
            Message::UpdateLogo(i) => Message::UpdateLogo(*i),
            Message::ToggleMenuSettings => Message::ToggleMenuSettings,
            Message::Action(action) => Message::Action(*action),
            Message::Zbus(result) => Message::Zbus(
                match result {
                    Ok(done) => Ok(*done),
                    Err(error) => Err(error.clone()),
                },
            ),
        }
    }
}

/// What is to happen outside the applet, as plain values.
pub enum EffectView {
    Nothing,
    OpenPopup(PopupId),
    ClosePopup(PopupId),
    Call(BusCall),
    Helper(PowerAction, CommandLineView),
    Launch(CommandLineView, Option<PopupId>),
    Report(Seq<char>),
    StoreLogo(Seq<char>),
}

/// What is to happen outside the applet after a message.
#[derive(Debug, PartialEq, Eq)]
pub enum Effect {
    Nothing,
    /// Open a popup of this name.
    OpenPopup(PopupId),
    /// Close the popup of this name.
    ClosePopup(PopupId),
    /// Make this request on the bus, and answer with `Message::Zbus`.
    Call(BusCall),
    /// Start the helper program for this action with this command, then
    /// say through `LogoMenu::helper_done` whether it could be started.
    Helper(PowerAction, CommandLine),
    /// Start this command; if it cannot be started, report that and go on.
    /// Then close the popup named, if one is.
    Launch(CommandLine, Option<PopupId>),
    /// Write this text to the error output.
    Report(String),
    /// Persist this name as the chosen logo.
    StoreLogo(String),
}

impl DeepView for Effect {
    type V = EffectView;

    open spec fn deep_view(&self) -> EffectView {
        match self {
            Effect::Nothing => EffectView::Nothing,
            Effect::OpenPopup(id) => EffectView::OpenPopup(*id),
            Effect::ClosePopup(id) => EffectView::ClosePopup(*id),
            Effect::Call(call) => EffectView::Call(*call),
            Effect::Helper(action, line) => EffectView::Helper(*action, line@),
            Effect::Launch(line, close) => EffectView::Launch(line@, *close),
            Effect::Report(text) => EffectView::Report(text@),
            Effect::StoreLogo(name) => EffectView::StoreLogo(name@),
        }
    }
}

impl View for Effect {
    type V = EffectView;

    open spec fn view(&self) -> EffectView {
        self.deep_view()
    }
}

/// The applet's state as plain values.
pub struct LogoMenuView {
    pub popup: Option<PopupId>,
    pub show_menu_settings: bool,
    pub logo_options: Seq<Seq<char>>,
    pub selected_logo_idx: Option<int>,
    pub selected_logo_name: Seq<char>,
}

/// The applet's state.
#[derive(Debug)]
pub struct LogoMenu {
    /// The popup that is open, if one is.
    pub popup: Option<PopupId>,
    /// Whether the popup shows the choice of logos.
    pub show_menu_settings: bool,
    /// The names of the logos on offer, and the one chosen.
    pub logo_options: Vec<String>,
    pub selected_logo_idx: Option<usize>,
    pub selected_logo_name: String,
}

impl DeepView for LogoMenu {
    type V = LogoMenuView;

    open spec fn deep_view(&self) -> LogoMenuView {
        LogoMenuView {
            popup: self.popup,
            show_menu_settings: self.show_menu_settings,
            logo_options: self.logo_options.deep_view(),
            selected_logo_idx: index_view(self.selected_logo_idx),
            selected_logo_name: self.selected_logo_name@,
        }
    }
}

impl View for LogoMenu {
    type V = LogoMenuView;

    open spec fn view(&self) -> LogoMenuView {
        self.deep_view()
    }
}

/// The applet at its start, given the logo that was persisted, if one
/// could be read.
pub open spec fn init_view(logo: Option<Seq<char>>) -> LogoMenuView {
    let names = names_of(logo_set());
    let chosen = effective_name(logo_set(), logo);
    LogoMenuView {
        popup: None,
        show_menu_settings: false,
        logo_options: names,
        selected_logo_idx: position(names, chosen),
        selected_logo_name: chosen,
    }
}

/// The line that reports an error of the bus.
pub open spec fn report_text(error: Seq<char>) -> Seq<char> {
    "cosmic-applet-power ERROR: '"@ + error + "'"@
}

/// The state after a message.
pub open spec fn next_state(pre: LogoMenuView, message: Message, fresh: PopupId) -> LogoMenuView {
    match message {
        Message::TogglePopup => LogoMenuView { popup: toggled(pre.popup, fresh), ..pre },
        Message::PopupClosed(id) => LogoMenuView { popup: after_close(pre.popup, id), ..pre },
        Message::Run(_) => LogoMenuView { popup: None, ..pre },
        Message::UpdateLogo(i) => if i < pre.logo_options.len() {
            LogoMenuView {
                selected_logo_name: pre.logo_options[i as int],
                selected_logo_idx: Some(i as int),
                ..pre
            }
        } else {
            pre
        },
        Message::ToggleMenuSettings => LogoMenuView {
            show_menu_settings: !pre.show_menu_settings,
            ..pre
        },
        _ => pre,
    }
}

/// What is to happen outside the applet after a message. A choice of logo
/// is persisted unless it is the first of the options.
pub open spec fn effect_of(pre: LogoMenuView, message: Message, fresh: PopupId) -> EffectView {
    match message {
        Message::TogglePopup => match pre.popup {
            Some(open) => EffectView::ClosePopup(open),
            None => EffectView::OpenPopup(fresh),
        },
        Message::Action(action) => match spec_helper_command(action, false) {
            Some(line) => EffectView::Helper(action, line),
            None => EffectView::Call(spec_perform(action)),
        },
        Message::Run(action) => EffectView::Launch(spec_launch_command(action@, false), pre.popup),
        Message::Zbus(Err(error)) => EffectView::Report(report_text(error@)),
        Message::UpdateLogo(i) => if 0 < i < pre.logo_options.len() {
            EffectView::StoreLogo(pre.logo_options[i as int])
        } else {
            EffectView::Nothing
        },
        _ => EffectView::Nothing,
    }
}

/// The state after the attempt to start the helper program: where the
/// helper was started the popup is given up.
pub open spec fn after_helper_state(pre: LogoMenuView, started: bool) -> LogoMenuView {
    if started {
        LogoMenuView { popup: None, ..pre }
    } else {
        pre
    }
}

/// What follows the attempt to start the helper program.
pub open spec fn after_helper_effect(pre: LogoMenuView, action: PowerAction, started: bool)
    -> EffectView {
    if started {
        match pre.popup {
            Some(open) => EffectView::ClosePopup(open),
            None => EffectView::Nothing,
        }
    } else {
        EffectView::Call(spec_perform(action))
    }
}

/// The name of the icon on the control that shows or hides the choice of
/// logos.
pub open spec fn spec_settings_icon(shown: bool) -> Seq<char> {
    if shown {
        "go-up-symbolic"@
    } else {
        "go-down-symbolic"@
    }
}

impl LogoMenu {
    /// The applet at its start, given the logo that was persisted, if one
    /// could be read.
    pub fn init(logo: Option<String>) -> (applet: LogoMenu)
        ensures
            applet@ == init_view(logo.deep_view()),
    {
        let table = logos();
        let selected_logo_name = effective_logo(&table, logo);
        let logo_options = options(&table);
        let selected_logo_idx = find_name(&logo_options, selected_logo_name.as_str());
        LogoMenu {
            popup: None,
            show_menu_settings: false,
            logo_options,
            selected_logo_idx,
            selected_logo_name,
        }
    }

    /// Handles one message and says what is to happen outside the applet.
    /// `fresh` is a name that no popup has had yet.
    pub fn update(&mut self, message: Message, fresh: PopupId) -> (effect: Effect)
        ensures
            final(self)@ == next_state(old(self)@, message, fresh),
            effect@ == effect_of(old(self)@, message, fresh),
    {
        match message {
            Message::TogglePopup => {
                match self.popup {
                    Some(open) => {
                        self.popup = None;
                        Effect::ClosePopup(open)
                    },
                    None => {
                        self.popup = Some(fresh);
                        Effect::OpenPopup(fresh)
                    },
                }
            },
            Message::PopupClosed(id) => {
                let is_open = match self.popup {
                    Some(open) => open == id,
                    None => false,
                };
                if is_open {
                    self.popup = None;
                }
                Effect::Nothing
            },
            Message::Run(action) => {
                let close = self.popup;
                self.popup = None;
                Effect::Launch(launch_command(action.as_str(), false), close)
            },
            Message::UpdateLogo(i) => {
                if i < self.logo_options.len() {
                    self.selected_logo_name = self.logo_options[i].clone();
                    self.selected_logo_idx = Some(i);
                    if i > 0 {
                        Effect::StoreLogo(self.selected_logo_name.clone())
                    } else {
                        Effect::Nothing
                    }
                } else {
                    Effect::Nothing
                }
            },
            Message::ToggleMenuSettings => {
                self.show_menu_settings = !self.show_menu_settings;
                Effect::Nothing
            },
            Message::Action(action) => {
                match action.helper_command(false) {
                    Some(line) => Effect::Helper(action, line),
                    None => Effect::Call(action.perform()),
                }
            },
            Message::Zbus(result) => {
                match result {
                    Ok(_) => Effect::Nothing,
                    Err(error) => {
                        let mut text = "cosmic-applet-power ERROR: '".to_owned();
                        text.append(error.as_str());
                        text.append("'");
                        Effect::Report(text)
                    },
                }
            },
        }
    }

    /// What follows the attempt to start the helper program for `action`.
    pub fn helper_done(&mut self, action: PowerAction, started: bool) -> (effect: Effect)
        ensures
            final(self)@ == after_helper_state(old(self)@, started),
            effect@ == after_helper_effect(old(self)@, action, started),
    {
        match action.after_helper(started) {
            AfterHelper::ClosePopup => match self.popup {
                Some(open) => {
                    self.popup = None;
                    Effect::ClosePopup(open)
                },
                None => Effect::Nothing,
            },
            AfterHelper::Call(call) => Effect::Call(call),
        }
    }

    /// The name of the icon on the control that shows or hides the choice
    /// of logos.
    pub fn settings_icon(&self) -> (icon: &'static str)
        ensures
            icon@ == spec_settings_icon(self@.show_menu_settings),
    {
        if self.show_menu_settings {
            "go-up-symbolic"
        } else {
            "go-down-symbolic"
        }
    }
}

/// The names of the logos stand in increasing order, so none occurs twice.
pub proof fn lemma_logo_names_increase()
    ensures
        increasing(names_of(logo_set())),
{
    let names = names_of(logo_set());
    assert(names.len() == 61);
    assert forall|i: int| 0 <= i < names.len() - 1 implies text_before(
        #[trigger] names[i],
        names[i + 1],
    ) by {
        if i == 0 {
            reveal_strlit("Alma");
            reveal_strlit("Alma (Symbolic)");
            assert(parts_at("Alma"@, "Alma (Symbolic)"@, 4));
        } else if i == 1 {
            reveal_strlit("Alma (Symbolic)");
            reveal_strlit("Arch");
            assert(parts_at("Alma (Symbolic)"@, "Arch"@, 1));
        } else if i == 2 {
            reveal_strlit("Arch");
            reveal_strlit("Arch (Symbolic)");
            assert(parts_at("Arch"@, "Arch (Symbolic)"@, 4));
        } else if i == 3 {
            reveal_strlit("Arch (Symbolic)");
            reveal_strlit("Asahi");
            assert(parts_at("Arch (Symbolic)"@, "Asahi"@, 1));
        } else if i == 4 {
            reveal_strlit("Asahi");
            reveal_strlit("Asahi (Symbolic)");
            assert(parts_at("Asahi"@, "Asahi (Symbolic)"@, 5));
        } else if i == 5 {
            reveal_strlit("Asahi (Symbolic)");
            reveal_strlit("Bazzite");
            assert(parts_at("Asahi (Symbolic)"@, "Bazzite"@, 0));
        } else if i == 6 {
            reveal_strlit("Bazzite");
            reveal_strlit("Clear");
            assert(parts_at("Bazzite"@, "Clear"@, 0));
        } else if i == 7 {
            reveal_strlit("Clear");
            reveal_strlit("Cosmic");
            assert(parts_at("Clear"@, "Cosmic"@, 1));
        } else if i == 8 {
            reveal_strlit("Cosmic");
            reveal_strlit("Cosmic (Black)");
            assert(parts_at("Cosmic"@, "Cosmic (Black)"@, 6));
        } else if i == 9 {
            reveal_strlit("Cosmic (Black)");
            reveal_strlit("Cosmic (Symbolic)");
            assert(parts_at("Cosmic (Black)"@, "Cosmic (Symbolic)"@, 8));
        } else if i == 10 {
            reveal_strlit("Cosmic (Symbolic)");
            reveal_strlit("Debian");
            assert(parts_at("Cosmic (Symbolic)"@, "Debian"@, 0));
        } else if i == 11 {
            reveal_strlit("Debian");
            reveal_strlit("Debian (Symbolic)");
            assert(parts_at("Debian"@, "Debian (Symbolic)"@, 6));
        } else if i == 12 {
            reveal_strlit("Debian (Symbolic)");
            reveal_strlit("EndeavourOS");
            assert(parts_at("Debian (Symbolic)"@, "EndeavourOS"@, 0));
        } else if i == 13 {
            reveal_strlit("EndeavourOS");
            reveal_strlit("EndeavourOS (Symbolic)");
            assert(parts_at("EndeavourOS"@, "EndeavourOS (Symbolic)"@, 11));
        } else if i == 14 {
            reveal_strlit("EndeavourOS (Symbolic)");
            reveal_strlit("Fedora");
            assert(parts_at("EndeavourOS (Symbolic)"@, "Fedora"@, 0));
        } else if i == 15 {
            reveal_strlit("Fedora");
            reveal_strlit("Fedora (Symbolic)");
            assert(parts_at("Fedora"@, "Fedora (Symbolic)"@, 6));
        } else if i == 16 {
            reveal_strlit("Fedora (Symbolic)");
            reveal_strlit("FreeBSD");
            assert(parts_at("Fedora (Symbolic)"@, "FreeBSD"@, 1));
        } else if i == 17 {
            reveal_strlit("FreeBSD");
            reveal_strlit("FreeBSD (Symbolic)");
            assert(parts_at("FreeBSD"@, "FreeBSD (Symbolic)"@, 7));
        } else if i == 18 {
            reveal_strlit("FreeBSD (Symbolic)");
            reveal_strlit("Garuda");
            assert(parts_at("FreeBSD (Symbolic)"@, "Garuda"@, 0));
        } else if i == 19 {
            reveal_strlit("Garuda");
            reveal_strlit("Garuda (Symbolic)");
            assert(parts_at("Garuda"@, "Garuda (Symbolic)"@, 6));
        } else if i == 20 {
            reveal_strlit("Garuda (Symbolic)");
            reveal_strlit("Gentoo (Symbolic)");
            assert(parts_at("Garuda (Symbolic)"@, "Gentoo (Symbolic)"@, 1));
        } else if i == 21 {
            reveal_strlit("Gentoo (Symbolic)");
            reveal_strlit("Kali");
            assert(parts_at("Gentoo (Symbolic)"@, "Kali"@, 0));
        } else if i == 22 {
            reveal_strlit("Kali");
            reveal_strlit("Kali (Symbolic)");
            assert(parts_at("Kali"@, "Kali (Symbolic)"@, 4));
        } else if i == 23 {
            reveal_strlit("Kali (Symbolic)");
            reveal_strlit("MX (Symbolic)");
            assert(parts_at("Kali (Symbolic)"@, "MX (Symbolic)"@, 0));
        } else if i == 24 {
            reveal_strlit("MX (Symbolic)");
            reveal_strlit("Manjaro");
            assert(parts_at("MX (Symbolic)"@, "Manjaro"@, 1));
        } else if i == 25 {
            reveal_strlit("Manjaro");
            reveal_strlit("Manjaro (Symbolic)");
            assert(parts_at("Manjaro"@, "Manjaro (Symbolic)"@, 7));
        } else if i == 26 {
            reveal_strlit("Manjaro (Symbolic)");
            reveal_strlit("NetBSD");
            assert(parts_at("Manjaro (Symbolic)"@, "NetBSD"@, 0));
        } else if i == 27 {
            reveal_strlit("NetBSD");
            reveal_strlit("NixOS");
            assert(parts_at("NetBSD"@, "NixOS"@, 1));
        } else if i == 28 {
            reveal_strlit("NixOS");
            reveal_strlit("NixOS (Symbolic)");
            assert(parts_at("NixOS"@, "NixOS (Symbolic)"@, 5));
        } else if i == 29 {
            reveal_strlit("NixOS (Symbolic)");
            reveal_strlit("Nobara (Symbolic)");
            assert(parts_at("NixOS (Symbolic)"@, "Nobara (Symbolic)"@, 1));
        } else if i == 30 {
            reveal_strlit("Nobara (Symbolic)");
            reveal_strlit("OpenBSD");
            assert(parts_at("Nobara (Symbolic)"@, "OpenBSD"@, 0));
        } else if i == 31 {
            reveal_strlit("OpenBSD");
            reveal_strlit("OpenSuse");
            assert(parts_at("OpenBSD"@, "OpenSuse"@, 4));
        } else if i == 32 {
            reveal_strlit("OpenSuse");
            reveal_strlit("OpenSuse (Symbolic)");
            assert(parts_at("OpenSuse"@, "OpenSuse (Symbolic)"@, 8));
        } else if i == 33 {
            reveal_strlit("OpenSuse (Symbolic)");
            reveal_strlit("Pop!_OS");
            assert(parts_at("OpenSuse (Symbolic)"@, "Pop!_OS"@, 0));
        } else if i == 34 {
            reveal_strlit("Pop!_OS");
            reveal_strlit("Pop!_OS (Symbolic)");
            assert(parts_at("Pop!_OS"@, "Pop!_OS (Symbolic)"@, 7));
        } else if i == 35 {
            reveal_strlit("Pop!_OS (Symbolic)");
            reveal_strlit("PureOS (Symbolic)");
            assert(parts_at("Pop!_OS (Symbolic)"@, "PureOS (Symbolic)"@, 1));
        } else if i == 36 {
            reveal_strlit("PureOS (Symbolic)");
            reveal_strlit("Raspbian (Symbolic)");
            assert(parts_at("PureOS (Symbolic)"@, "Raspbian (Symbolic)"@, 0));
        } else if i == 37 {
            reveal_strlit("Raspbian (Symbolic)");
            reveal_strlit("Red Hat");
            assert(parts_at("Raspbian (Symbolic)"@, "Red Hat"@, 1));
        } else if i == 38 {
            reveal_strlit("Red Hat");
            reveal_strlit("Red Hat (Symbolic)");
            assert(parts_at("Red Hat"@, "Red Hat (Symbolic)"@, 7));
        } else if i == 39 {
            reveal_strlit("Red Hat (Symbolic)");
            reveal_strlit("Rocky");
            assert(parts_at("Red Hat (Symbolic)"@, "Rocky"@, 1));
        } else if i == 40 {
            reveal_strlit("Rocky");
            reveal_strlit("Rocky (Symbolic)");
            assert(parts_at("Rocky"@, "Rocky (Symbolic)"@, 5));
        } else if i == 41 {
            reveal_strlit("Rocky (Symbolic)");
            reveal_strlit("ShastraOS");
            assert(parts_at("Rocky (Symbolic)"@, "ShastraOS"@, 0));
        } else if i == 42 {
            reveal_strlit("ShastraOS");
            reveal_strlit("ShastraOS (Symbolic)");
            assert(parts_at("ShastraOS"@, "ShastraOS (Symbolic)"@, 9));
        } else if i == 43 {
            reveal_strlit("ShastraOS (Symbolic)");
            reveal_strlit("Solus");
            assert(parts_at("ShastraOS (Symbolic)"@, "Solus"@, 1));
        } else if i == 44 {
            reveal_strlit("Solus");
            reveal_strlit("Solus (Symbolic)");
            assert(parts_at("Solus"@, "Solus (Symbolic)"@, 5));
        } else if i == 45 {
            reveal_strlit("Solus (Symbolic)");
            reveal_strlit("SteamDeck (Blue)");
            assert(parts_at("Solus (Symbolic)"@, "SteamDeck (Blue)"@, 1));
        } else if i == 46 {
            reveal_strlit("SteamDeck (Blue)");
            reveal_strlit("SteamDeck (Orange)");
            assert(parts_at("SteamDeck (Blue)"@, "SteamDeck (Orange)"@, 11));
        } else if i == 47 {
            reveal_strlit("SteamDeck (Orange)");
            reveal_strlit("SteamDeck (Symbolic)");
            assert(parts_at("SteamDeck (Orange)"@, "SteamDeck (Symbolic)"@, 11));
        } else if i == 48 {
            reveal_strlit("SteamDeck (Symbolic)");
            reveal_strlit("Tux");
            assert(parts_at("SteamDeck (Symbolic)"@, "Tux"@, 0));
        } else if i == 49 {
            reveal_strlit("Tux");
            reveal_strlit("Tux (Symbolic)");
            assert(parts_at("Tux"@, "Tux (Symbolic)"@, 3));
        } else if i == 50 {
            reveal_strlit("Tux (Symbolic)");
            reveal_strlit("Ubuntu");
            assert(parts_at("Tux (Symbolic)"@, "Ubuntu"@, 0));
        } else if i == 51 {
            reveal_strlit("Ubuntu");
            reveal_strlit("Ubuntu (Symbolic)");
            assert(parts_at("Ubuntu"@, "Ubuntu (Symbolic)"@, 6));
        } else if i == 52 {
            reveal_strlit("Ubuntu (Symbolic)");
            reveal_strlit("Vanilla");
            assert(parts_at("Ubuntu (Symbolic)"@, "Vanilla"@, 0));
        } else if i == 53 {
            reveal_strlit("Vanilla");
            reveal_strlit("Void");
            assert(parts_at("Vanilla"@, "Void"@, 1));
        } else if i == 54 {
            reveal_strlit("Void");
            reveal_strlit("Void (Symbolic)");
            assert(parts_at("Void"@, "Void (Symbolic)"@, 4));
        } else if i == 55 {
            reveal_strlit("Void (Symbolic)");
            reveal_strlit("Voyager (Symbolic)");
            assert(parts_at("Void (Symbolic)"@, "Voyager (Symbolic)"@, 2));
        } else if i == 56 {
            reveal_strlit("Voyager (Symbolic)");
            reveal_strlit("Zorin");
            assert(parts_at("Voyager (Symbolic)"@, "Zorin"@, 0));
        } else if i == 57 {
            reveal_strlit("Zorin");
            reveal_strlit("Zorin (Symbolic)");
            assert(parts_at("Zorin"@, "Zorin (Symbolic)"@, 5));
        } else if i == 58 {
            reveal_strlit("Zorin (Symbolic)");
            reveal_strlit("uBlue");
            assert(parts_at("Zorin (Symbolic)"@, "uBlue"@, 0));
        } else if i == 59 {
            reveal_strlit("uBlue");
            reveal_strlit("uBlue (Symbolic)");
            assert(parts_at("uBlue"@, "uBlue (Symbolic)"@, 5));
        }
    }
}

/// That the options stand in increasing order, that the chosen logo is one
/// of them, and that the chosen position is the place where its name
/// stands.
pub open spec fn choice_is_consistent(state: LogoMenuView) -> bool {
    &&& increasing(state.logo_options)
    &&& state.logo_options.contains(state.selected_logo_name)
    &&& state.selected_logo_idx == position(state.logo_options, state.selected_logo_name)
}

/// An applet that is started has a consistent choice of logo.
pub proof fn lemma_init_is_consistent(logo: Option<Seq<char>>)
    ensures
        choice_is_consistent(init_view(logo)),
{
    lemma_logo_names_increase();
    assert(names_of(logo_set())[10] == default_logo_name());
}

/// No message makes a consistent choice of logo inconsistent.
pub proof fn lemma_update_keeps_consistency(pre: LogoMenuView, message: Message, fresh: PopupId)
    requires
        choice_is_consistent(pre),
    ensures
        choice_is_consistent(next_state(pre, message, fresh)),
{
    match message {
        Message::UpdateLogo(i) => {
            if i < pre.logo_options.len() {
                lemma_increasing_has_no_repeats(pre.logo_options, i as int);
            }
        },
        _ => {},
    }
}

} // verus!
