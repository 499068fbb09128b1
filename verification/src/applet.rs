//! The applet: the logo in the panel and the popup menu behind it.
//!
//! The applet's state is the popup that is open, if one is, and the
//! configuration in use. Each message is handled to its end; what must then
//! happen outside (a popup to open or close, a program to start, a request
//! on the bus) is handed back as an `Effect`.

use crate::catalog::Catalog;
use crate::config::{config_or_default, LogoMenuConfig, LogoMenuConfigView};
use crate::launch::{launch_command, spec_launch_command};
use crate::logos::{logo_source, spec_logo_source, Logo, LogoSource};
use crate::menu::{MenuItem, MenuItemType, MenuItemView};
use crate::power::{
    spec_after_helper, spec_from_command, spec_helper_command, spec_perform, AfterHelper,
    BusCall, CommandLine, CommandLineView, PowerAction,
};
use crate::text::text_or_empty;
use vstd::prelude::*;
use vstd::string::*;

verus! {

/// The narrowest and the widest, the lowest and the highest that the popup
/// may be, in pixels.
pub const POPUP_MIN_WIDTH: u32 = 300;

pub const POPUP_MAX_WIDTH: u32 = 372;

pub const POPUP_MIN_HEIGHT: u32 = 200;

pub const POPUP_MAX_HEIGHT: u32 = 1080;

/// The name of a popup window.
#[derive(Debug, Clone, Copy, PartialEq, Eq, Hash, Structural)]
pub struct PopupId(pub u64);

/// What the applet is told.
#[derive(Debug, PartialEq, Eq)]
pub enum Message {
    TogglePopup,
    PopupClosed(PopupId),
    /// Launch this command.
    Run(String),
    Action(PowerAction),
    /// A request on the bus has ended, well or with this error.
    Zbus(Result<(), String>),
    /// The persisted configuration has changed to this.
    ConfigUpdate(LogoMenuConfig),
}

impl Clone for Message {
    fn clone(&self) -> (copy: Self)
        ensures
            match (*self, copy) {
                (Message::ConfigUpdate(config), Message::ConfigUpdate(other)) => other@ == config@,
                _ => copy == *self,
            },
    {
        match self {
            Message::TogglePopup => Message::TogglePopup,
            Message::PopupClosed(id) => Message::PopupClosed(*id),
            Message::Run(action) => Message::Run(action.clone()),
            Message::Action(action) => Message::Action(*action),
            Message::Zbus(result) => Message::Zbus(
                match result {
                    Ok(done) => Ok(*done),
                    Err(error) => Err(error.clone()),
                },
            ),
            Message::ConfigUpdate(config) => Message::ConfigUpdate(config.clone()),
        }
    }
}

/// What the caller knows of the surroundings when it hands over a message.
#[derive(Debug, Clone, Copy, PartialEq, Eq, Structural)]
pub struct Surroundings {
    /// Whether the process runs inside a sandbox.
    pub sandboxed: bool,
    /// A name that no popup has had yet.
    pub fresh_popup: PopupId,
}

/// What is to happen outside the applet, as plain values.
pub enum EffectView {
    Nothing,
    OpenPopup(PopupId),
    ClosePopup(PopupId),
    Call(BusCall),
    Helper(PowerAction, CommandLineView),
    Launch(CommandLineView, Option<PopupId>),
    Report(Seq<char>),
}

/// What is to happen outside the applet after a message.
#[derive(Debug, PartialEq, Eq)]
pub enum Effect {
    Nothing,
    /// Open a popup of this name.
    OpenPopup(PopupId),
    /// Close the popup of this name.
    ClosePopup(PopupId),
    /// Make this request on the bus, and answer with `Message::Zbus`.
    Call(BusCall),
    /// Start the helper program for this action with this command, then
    /// say through `LogoMenu::helper_done` whether it could be started.
    Helper(PowerAction, CommandLine),
    /// Start this command; if it cannot be started, report that and go on.
    /// Then close the popup named, if one is.
    Launch(CommandLine, Option<PopupId>),
    /// Write this text to the error output.
    Report(String),
}

impl DeepView for Effect {
    type V = EffectView;

    open spec fn deep_view(&self) -> EffectView {
        match self {
            Effect::Nothing => EffectView::Nothing,
            Effect::OpenPopup(id) => EffectView::OpenPopup(*id),
            Effect::ClosePopup(id) => EffectView::ClosePopup(*id),
            Effect::Call(call) => EffectView::Call(*call),
            Effect::Helper(action, line) => EffectView::Helper(*action, line@),
            Effect::Launch(line, close) => EffectView::Launch(line@, *close),
            Effect::Report(text) => EffectView::Report(text@),
        }
    }
}

impl View for Effect {
    type V = EffectView;

    open spec fn view(&self) -> EffectView {
        self.deep_view()
    }
}

/// The applet's state as plain values.
pub struct LogoMenuView {
    pub popup: Option<PopupId>,
    pub config: LogoMenuConfigView,
}

/// The applet's state.
#[derive(Debug)]
pub struct LogoMenu {
    /// The popup that is open, if one is.
    pub popup: Option<PopupId>,
    /// The configuration in use.
    pub config: LogoMenuConfig,
}

impl DeepView for LogoMenu {
    type V = LogoMenuView;

    open spec fn deep_view(&self) -> LogoMenuView {
        LogoMenuView { popup: self.popup, config: self.config@ }
    }
}

impl View for LogoMenu {
    type V = LogoMenuView;

    open spec fn view(&self) -> LogoMenuView {
        self.deep_view()
    }
}

/// The popup after a toggle: none where one was open, else the fresh one.
pub open spec fn toggled(popup: Option<PopupId>, fresh: PopupId) -> Option<PopupId> {
    match popup {
        Some(_) => None,
        None => Some(fresh),
    }
}

/// What a toggle asks for: to close the popup that is open, or to open the
/// fresh one.
pub open spec fn toggle_effect(popup: Option<PopupId>, fresh: PopupId) -> EffectView {
    match popup {
        Some(open) => EffectView::ClosePopup(open),
        None => EffectView::OpenPopup(fresh),
    }
}

/// The popup after the window `closed` went away: none where that was the
/// popup, else as before.
pub open spec fn after_close(popup: Option<PopupId>, closed: PopupId) -> Option<PopupId> {
    if popup == Some(closed) {
        None
    } else {
        popup
    }
}

/// What closes the popup, where one is open.
pub open spec fn close_effect(popup: Option<PopupId>) -> EffectView {
    match popup {
        Some(open) => EffectView::ClosePopup(open),
        None => EffectView::Nothing,
    }
}

/// How a power action is begun: with the helper program where the action
/// has one, else on the bus.
pub open spec fn action_effect(action: PowerAction, sandboxed: bool) -> EffectView {
    match spec_helper_command(action, sandboxed) {
        Some(line) => EffectView::Helper(action, line),
        None => EffectView::Call(spec_perform(action)),
    }
}

/// What follows the attempt to start the helper program: the popup closes
/// where the helper was started, and the request goes to the bus where it
/// was not.
pub open spec fn helper_effect(popup: Option<PopupId>, action: PowerAction, started: bool)
    -> EffectView {
    match spec_after_helper(action, started) {
        AfterHelper::ClosePopup => close_effect(popup),
        AfterHelper::Call(call) => EffectView::Call(call),
    }
}

/// The line that reports an error of the bus.
pub open spec fn report_text(error: Seq<char>) -> Seq<char> {
    "cosmic-applet-logomenu ERROR: '"@ + error + "'"@
}

/// The state after a message.
pub open spec fn next_state(pre: LogoMenuView, message: Message, facts: Surroundings)
    -> LogoMenuView {
    match message {
        Message::TogglePopup => LogoMenuView {
            popup: toggled(pre.popup, facts.fresh_popup),
            ..pre
        },
        Message::PopupClosed(id) => LogoMenuView { popup: after_close(pre.popup, id), ..pre },
        Message::ConfigUpdate(config) => LogoMenuView { config: config@, ..pre },
        _ => pre,
    }
}

/// What is to happen outside the applet after a message.
pub open spec fn effect_of(pre: LogoMenuView, message: Message, facts: Surroundings) -> EffectView {
    match message {
        Message::TogglePopup => toggle_effect(pre.popup, facts.fresh_popup),
        Message::Action(action) => action_effect(action, facts.sandboxed),
        Message::Run(action) => EffectView::Launch(
            spec_launch_command(action@, facts.sandboxed),
            pre.popup,
        ),
        Message::Zbus(Err(error)) => EffectView::Report(report_text(error@)),
        _ => EffectView::Nothing,
    }
}

/// An entry of the popup as plain values.
pub enum MenuEntryView {
    Launch(Seq<char>, Seq<char>),
    Power(Seq<char>, PowerAction),
    DefaultApp(Seq<char>, Seq<char>),
    Divider,
}

/// An entry of the popup.
#[derive(Debug, PartialEq, Eq)]
pub enum MenuEntry {
    /// A button with this label that launches this command.
    Launch(String, String),
    /// A button with this label that asks for this power action.
    Power(String, PowerAction),
    /// A button with this label for the default application of this
    /// category. The command behind it is the caller's to resolve.
    DefaultApp(String, String),
    /// A separating line.
    Divider,
}

impl DeepView for MenuEntry {
    type V = MenuEntryView;

    open spec fn deep_view(&self) -> MenuEntryView {
        match self {
            MenuEntry::Launch(label, command) => MenuEntryView::Launch(label@, command@),
            MenuEntry::Power(label, action) => MenuEntryView::Power(label@, *action),
            MenuEntry::DefaultApp(label, category) => MenuEntryView::DefaultApp(
                label@,
                category@,
            ),
            MenuEntry::Divider => MenuEntryView::Divider,
        }
    }
}

impl View for MenuEntry {
    type V = MenuEntryView;

    open spec fn view(&self) -> MenuEntryView {
        self.deep_view()
    }
}

/// The entry that the popup shows for an item. A missing label or command
/// counts as the empty one; what a power entry asks for is read from its
/// command.
pub open spec fn spec_entry(item: MenuItemView) -> MenuEntryView {
    match item.item_type {
        MenuItemType::LaunchAction => MenuEntryView::Launch(
            text_or_empty(item.label),
            text_or_empty(item.command),
        ),
        MenuItemType::PowerAction => MenuEntryView::Power(
            text_or_empty(item.label),
            spec_from_command(item.command),
        ),
        MenuItemType::DefaultAction => MenuEntryView::DefaultApp(
            text_or_empty(item.label),
            text_or_empty(item.command),
        ),
        MenuItemType::Divider => MenuEntryView::Divider,
    }
}

fn text_or_default(text: &Option<String>) -> (owned: String)
    ensures
        owned@ == text_or_empty(text.deep_view()),
{
    match text {
        Some(t) => t.clone(),
        None => String::new(),
    }
}

/// The entry that the popup shows for an item.
pub fn entry(item: &MenuItem) -> (shown: MenuEntry)
    ensures
        shown@ == spec_entry(item@),
{
    match item.item_type {
        MenuItemType::LaunchAction => MenuEntry::Launch(
            text_or_default(&item.label),
            text_or_default(&item.command),
        ),
        MenuItemType::PowerAction => {
            let action = match &item.command {
                Some(command) => PowerAction::from_command(Some(command.as_str())),
                None => PowerAction::from_command(None),
            };
            MenuEntry::Power(text_or_default(&item.label), action)
        },
        MenuItemType::DefaultAction => MenuEntry::DefaultApp(
            text_or_default(&item.label),
            text_or_default(&item.command),
        ),
        MenuItemType::Divider => MenuEntry::Divider,
    }
}

impl MenuEntry {
    /// The message that a press on the entry sends. A divider cannot be
    /// pressed, and a default-application entry sends nothing before its
    /// command is resolved.
    pub fn message(&self) -> (sent: Option<Message>)
        ensures
            match (*self, sent) {
                (MenuEntry::Launch(_, command), Some(Message::Run(run))) => run == command,
                (MenuEntry::Power(_, action), Some(Message::Action(asked))) => asked == action,
                (MenuEntry::DefaultApp(_, _), None) => true,
                (MenuEntry::Divider, None) => true,
                _ => false,
            },
    {
        match self {
            MenuEntry::Launch(_, command) => Some(Message::Run(command.clone())),
            MenuEntry::Power(_, action) => Some(Message::Action(*action)),
            MenuEntry::DefaultApp(_, _) => None,
            MenuEntry::Divider => None,
        }
    }
}

impl LogoMenu {
    /// The applet at its start, on what could be read of the persisted
    /// configuration: no popup is open, and defaults stand in for a
    /// configuration that could not be read.
    pub fn init(stored: Option<LogoMenuConfig>, catalog: &Catalog) -> (applet: LogoMenu)
        ensures
            applet@ == (LogoMenuView {
                popup: None,
                config: config_or_default(stored.deep_view(), catalog@),
            }),
    {
        LogoMenu { popup: None, config: LogoMenuConfig::load(stored, catalog) }
    }

    /// The message that a request to close the window `id` sends.
    pub fn on_close_requested(&self, id: PopupId) -> (sent: Option<Message>)
        ensures
            sent == Some(Message::PopupClosed(id)),
    {
        Some(Message::PopupClosed(id))
    }

    fn close_popup(&self) -> (effect: Effect)
        ensures
            effect@ == close_effect(self@.popup),
    {
        match self.popup {
            Some(open) => Effect::ClosePopup(open),
            None => Effect::Nothing,
        }
    }

    /// Handles one message and says what is to happen outside the applet.
    pub fn update(&mut self, message: Message, facts: Surroundings) -> (effect: Effect)
        ensures
            final(self)@ == next_state(old(self)@, message, facts),
            effect@ == effect_of(old(self)@, message, facts),
    {
        match message {
            Message::TogglePopup => {
                match self.popup {
                    Some(open) => {
                        self.popup = None;
                        Effect::ClosePopup(open)
                    },
                    None => {
                        self.popup = Some(facts.fresh_popup);
                        Effect::OpenPopup(facts.fresh_popup)
                    },
                }
            },
            Message::PopupClosed(id) => {
                let is_open = match self.popup {
                    Some(open) => open == id,
                    None => false,
                };
                if is_open {
                    self.popup = None;
                }
                Effect::Nothing
            },
            Message::Run(action) => Effect::Launch(
                launch_command(action.as_str(), facts.sandboxed),
                self.popup,
            ),
            Message::Action(action) => {
                match action.helper_command(facts.sandboxed) {
                    Some(line) => Effect::Helper(action, line),
                    None => Effect::Call(action.perform()),
                }
            },
            Message::Zbus(result) => {
                match result {
                    Ok(()) => Effect::Nothing,
                    Err(error) => {
                        let mut text = "cosmic-applet-logomenu ERROR: '".to_owned();
                        text.append(error.as_str());
                        text.append("'");
                        Effect::Report(text)
                    },
                }
            },
            Message::ConfigUpdate(config) => {
                self.config = config;
                Effect::Nothing
            },
        }
    }

    /// What follows the attempt to start the helper program for `action`.
    /// The state stays as it is.
    pub fn helper_done(&self, action: PowerAction, started: bool) -> (effect: Effect)
        ensures
            effect@ == helper_effect(self@.popup, action, started),
    {
        match action.after_helper(started) {
            AfterHelper::ClosePopup => self.close_popup(),
            AfterHelper::Call(call) => Effect::Call(call),
        }
    }

    /// The entries of the popup, one for each item of the menu, in the
    /// menu's order.
    pub fn entries(&self) -> (shown: Vec<MenuEntry>)
        ensures
            shown.deep_view() == self@.config.menu_items.map_values(
                |item: MenuItemView| spec_entry(item),
            ),
    {
        let mut shown: Vec<MenuEntry> = Vec::new();
        let mut i: usize = 0;
        while i < self.config.menu_items.items.len()
            invariant
                i <= self.config.menu_items.items.len(),
                shown.len() == i,
                forall|k: int|
                    0 <= k < i ==> shown[k]@ == spec_entry(self.config.menu_items.items[k]@),
            decreases self.config.menu_items.items.len() - i,
        {
            shown.push(entry(&self.config.menu_items.items[i]));
            i = i + 1;
        }
        assert(shown.deep_view() =~= self@.config.menu_items.map_values(
            |item: MenuItemView| spec_entry(item),
        ));
        shown
    }

    /// The logo in the panel, out of the set `table`. `custom_read` says
    /// whether the file of the custom logo is there and was read.
    pub fn logo(&self, table: &Vec<Logo>, custom_read: bool) -> (source: LogoSource)
        ensures
            source@ == spec_logo_source(
                table.deep_view(),
                self@.config.custom_logo_active,
                custom_read,
                self@.config.custom_logo_path,
                self@.config.logo,
            ),
    {
        logo_source(
            table,
            self.config.custom_logo_active,
            custom_read,
            self.config.custom_logo_path.as_str(),
            self.config.logo.as_str(),
        )
    }
}

/// Log-out, restart and shutdown begin with the helper program; lock and
/// suspend go to the bus at once.
pub proof fn lemma_which_actions_use_the_helper(action: PowerAction, sandboxed: bool)
    ensures
        action_effect(action, sandboxed) is Helper <==> (action == PowerAction::LogOut || action
            == PowerAction::Restart || action == PowerAction::Shutdown),
        action_effect(action, sandboxed) is Call <==> (action == PowerAction::Lock || action
            == PowerAction::Suspend),
{
}

/// The bus is asked after the helper only where the helper could not be
/// started.
pub proof fn lemma_bus_only_after_failed_start(
    popup: Option<PopupId>,
    action: PowerAction,
    started: bool,
)
    ensures
        helper_effect(popup, action, started) is Call <==> !started,
{
}

} // verus!
