//! The settings editor: its state, the messages it takes and what each one
//! does to the state.
//!
//! The editor keeps the menu as an ordered list and a stack of open
//! dialogs, the one in front being shown. A message is handled to its end
//! before the next one; what must then happen outside the editor (a value
//! to persist, a file to pick) is handed back as an `Effect`.

use crate::catalog::Catalog;
use crate::list::{
    default_items, moved_down, moved_up, new_item, new_item_view, prepended, removed, replaced,
    reset_of, MenuItems,
};
use crate::logos::{
    builtin, builtin_logos, effective_logo, effective_name, lemma_builtin_names_increase,
    lemma_effective_logo_is_builtin, names_of, options,
};
use crate::menu::{MenuItem, MenuItemType, MenuItemView};
use crate::text::{find_name, increasing, index_view, lemma_increasing_has_no_repeats, position};
use std::collections::VecDeque;
use vstd::prelude::*;
use vstd::string::*;

verus! {

/// The direction in which an item is moved.
#[derive(Debug, Clone, Copy, PartialEq, Eq, Structural)]
pub enum OrderDirection {
    Up,
    Down,
}

/// A page of the context drawer.
#[derive(Copy, Clone, Debug, Default, PartialEq, Eq, Structural)]
pub enum ContextPage {
    #[default]
    About,
}

/// An entry of the editor's own menu bar.
#[derive(Clone, Copy, Debug, PartialEq, Eq, Structural)]
pub enum MenuAction {
    About,
}

/// A dialog as plain values.
pub enum DialogPageView {
    EditItem(usize, MenuItemView),
    RemoveItem(usize),
    ResetMenu,
}

/// A dialog of the editor.
#[derive(Debug, PartialEq, Eq)]
pub enum DialogPage {
    /// Edit a copy of the item at this position.
    EditItem(usize, MenuItem),
    /// Confirm the removal of the item at this position.
    RemoveItem(usize),
    /// Confirm the reset of the menu.
    ResetMenu,
}

impl DeepView for DialogPage {
    type V = DialogPageView;

    open spec fn deep_view(&self) -> DialogPageView {
        match self {
            DialogPage::EditItem(i, item) => DialogPageView::EditItem(*i, item@),
            DialogPage::RemoveItem(i) => DialogPageView::RemoveItem(*i),
            DialogPage::ResetMenu => DialogPageView::ResetMenu,
        }
    }
}

impl View for DialogPage {
    type V = DialogPageView;

    open spec fn view(&self) -> DialogPageView {
        self.deep_view()
    }
}

impl Clone for DialogPage {
    fn clone(&self) -> (copy: Self)
        ensures
            copy == *self,
    {
        match self {
            DialogPage::EditItem(i, item) => DialogPage::EditItem(*i, item.clone()),
            DialogPage::RemoveItem(i) => DialogPage::RemoveItem(*i),
            DialogPage::ResetMenu => DialogPage::ResetMenu,
        }
    }
}

/// What the editor is told.
#[derive(Debug, PartialEq, Eq)]
pub enum Message {
    ToggleContextPage(ContextPage),
    /// Choose the logo at this position of the options.
    UpdateLogo(usize),
    ToggleCustomLogo(bool),
    /// Ask for a file to use as the custom logo.
    UpdateCustomLogo,
    /// The answer to that question: the path picked, if one was.
    CustomLogoPicked(Option<String>),
    AddItem(MenuItemType),
    SaveItem(usize, MenuItem),
    RemoveItem(usize),
    MoveItem(OrderDirection, usize),
    ResetMenu,
    DialogUpdate(DialogPage),
    DialogCancel,
    DialogEditItem(usize, MenuItem),
    DialogRemoveItem(usize),
    DialogResetMenu,
}

impl Clone for Message {
    fn clone(&self) -> (copy: Self)
        ensures
            copy == *self,
    {
        match self {
            Message::ToggleContextPage(page) => Message::ToggleContextPage(*page),
            Message::UpdateLogo(i) => Message::UpdateLogo(*i),
            Message::ToggleCustomLogo(on) => Message::ToggleCustomLogo(*on),
            Message::UpdateCustomLogo => Message::UpdateCustomLogo,
            Message::CustomLogoPicked(picked) => Message::CustomLogoPicked(picked.clone()),
            Message::AddItem(item_type) => Message::AddItem(*item_type),
            Message::SaveItem(i, item) => Message::SaveItem(*i, item.clone()),
            Message::RemoveItem(i) => Message::RemoveItem(*i),
            Message::MoveItem(direction, i) => Message::MoveItem(*direction, *i),
            Message::ResetMenu => Message::ResetMenu,
            Message::DialogUpdate(page) => Message::DialogUpdate(page.clone()),
            Message::DialogCancel => Message::DialogCancel,
            Message::DialogEditItem(i, item) => Message::DialogEditItem(*i, item.clone()),
            Message::DialogRemoveItem(i) => Message::DialogRemoveItem(*i),
            Message::DialogResetMenu => Message::DialogResetMenu,
        }
    }
}

impl MenuAction {
    /// The message that the entry sends.
    pub fn message(&self) -> (message: Message)
        ensures
            message == Message::ToggleContextPage(ContextPage::About),
    {
        match self {
            MenuAction::About => Message::ToggleContextPage(ContextPage::About),
        }
    }
}

/// A value to persist, as plain values.
pub enum ConfigWriteView {
    Logo(Seq<char>),
    MenuItems(Seq<MenuItemView>),
    CustomLogoActive(bool),
    CustomLogoPath(Seq<char>),
}

/// A value to persist under its key.
#[derive(Debug, PartialEq, Eq)]
pub enum ConfigWrite {
    Logo(String),
    MenuItems(MenuItems),
    CustomLogoActive(bool),
    CustomLogoPath(String),
}

impl DeepView for ConfigWrite {
    type V = ConfigWriteView;

    open spec fn deep_view(&self) -> ConfigWriteView {
        match self {
            ConfigWrite::Logo(name) => ConfigWriteView::Logo(name@),
            ConfigWrite::MenuItems(items) => ConfigWriteView::MenuItems(items@),
            ConfigWrite::CustomLogoActive(on) => ConfigWriteView::CustomLogoActive(*on),
            ConfigWrite::CustomLogoPath(path) => ConfigWriteView::CustomLogoPath(path@),
        }
    }
}

impl View for ConfigWrite {
    type V = ConfigWriteView;

    open spec fn view(&self) -> ConfigWriteView {
        self.deep_view()
    }
}

/// The key under which a value is persisted.
pub open spec fn spec_key(write: ConfigWriteView) -> Seq<char> {
    match write {
        ConfigWriteView::Logo(_) => "logo"@,
        ConfigWriteView::MenuItems(_) => "menu_items"@,
        ConfigWriteView::CustomLogoActive(_) => "custom_logo_active"@,
        ConfigWriteView::CustomLogoPath(_) => "custom_logo_path"@,
    }
}

impl ConfigWrite {
    /// The key under which the value is persisted.
    pub fn key(&self) -> (key: &'static str)
        ensures
            key@ == spec_key(self@),
    {
        match self {
            ConfigWrite::Logo(_) => "logo",
            ConfigWrite::MenuItems(_) => "menu_items",
            ConfigWrite::CustomLogoActive(_) => "custom_logo_active",
            ConfigWrite::CustomLogoPath(_) => "custom_logo_path",
        }
    }
}

/// What is to happen outside the editor, as plain values.
pub enum EffectView {
    Nothing,
    Store(ConfigWriteView),
    PickLogoFile,
}

/// What is to happen outside the editor after a message.
#[derive(Debug, PartialEq, Eq)]
pub enum Effect {
    Nothing,
    /// Persist this value.
    Store(ConfigWrite),
    /// Let the user pick an image file, and answer with
    /// `Message::CustomLogoPicked`.
    PickLogoFile,
}

impl DeepView for Effect {
    type V = EffectView;

    open spec fn deep_view(&self) -> EffectView {
        match self {
            Effect::Nothing => EffectView::Nothing,
            Effect::Store(write) => EffectView::Store(write@),
            Effect::PickLogoFile => EffectView::PickLogoFile,
        }
    }
}

impl View for Effect {
    type V = EffectView;

    open spec fn view(&self) -> EffectView {
        self.deep_view()
    }
}

/// What could be read of the persisted settings, key by key.
#[derive(Debug, PartialEq, Eq)]
pub struct StoredSettings {
    pub logo: Option<String>,
    pub menu_items: Option<MenuItems>,
    pub custom_logo_active: Option<bool>,
    pub custom_logo_path: Option<String>,
}

/// The editor's state as plain values.
pub struct AppModelView {
    pub context_page: ContextPage,
    pub show_context: bool,
    pub dialog_pages: Seq<DialogPageView>,
    pub logo_options: Seq<Seq<char>>,
    pub selected_logo_idx: Option<int>,
    pub selected_logo_name: Seq<char>,
    pub custom_logo_active: bool,
    pub custom_logo_path: Seq<char>,
    pub menu_items: Seq<MenuItemView>,
}

/// The editor's state.
#[derive(Debug)]
pub struct AppModel {
    /// The page of the context drawer, and whether the drawer is open.
    pub context_page: ContextPage,
    pub show_context: bool,
    /// The open dialogs; the first one is shown.
    pub dialog_pages: VecDeque<DialogPage>,
    /// The names of the logos on offer, and the one chosen.
    pub logo_options: Vec<String>,
    pub selected_logo_idx: Option<usize>,
    pub selected_logo_name: String,
    pub custom_logo_active: bool,
    pub custom_logo_path: String,
    /// The menu being edited.
    pub menu_items: MenuItems,
}

impl DeepView for AppModel {
    type V = AppModelView;

    open spec fn deep_view(&self) -> AppModelView {
        AppModelView {
            context_page: self.context_page,
            show_context: self.show_context,
            dialog_pages: self.dialog_pages.deep_view(),
            logo_options: self.logo_options.deep_view(),
            selected_logo_idx: index_view(self.selected_logo_idx),
            selected_logo_name: self.selected_logo_name@,
            custom_logo_active: self.custom_logo_active,
            custom_logo_path: self.custom_logo_path@,
            menu_items: self.menu_items@,
        }
    }
}

impl View for AppModel {
    type V = AppModelView;

    open spec fn view(&self) -> AppModelView {
        self.deep_view()
    }
}

/// `s` without its first item; `s` itself where it is empty.
pub open spec fn popped<A>(s: Seq<A>) -> Seq<A> {
    if s.len() > 0 {
        s.subrange(1, s.len() as int)
    } else {
        s
    }
}

/// The state of an editor that has just been started on what was stored:
/// every value that could not be read gives way to its default.
pub open spec fn init_view(
    logo: Option<Seq<char>>,
    menu_items: Option<Seq<MenuItemView>>,
    custom_logo_active: Option<bool>,
    custom_logo_path: Option<Seq<char>>,
    entries: Seq<(Seq<char>, Seq<char>)>,
) -> AppModelView {
    let names = names_of(builtin_logos());
    let chosen = effective_name(builtin_logos(), logo);
    AppModelView {
        context_page: ContextPage::About,
        show_context: false,
        dialog_pages: Seq::empty(),
        logo_options: names,
        selected_logo_idx: position(names, chosen),
        selected_logo_name: chosen,
        custom_logo_active: match custom_logo_active {
            Some(on) => on,
            None => false,
        },
        custom_logo_path: match custom_logo_path {
            Some(path) => path,
            None => Seq::empty(),
        },
        menu_items: match menu_items {
            Some(items) => items,
            None => default_items(entries),
        },
    }
}

/// The state after a message. `entries` is the catalog from which new and
/// built-in items take their labels.
pub open spec fn next_state(
    pre: AppModelView,
    message: Message,
    entries: Seq<(Seq<char>, Seq<char>)>,
) -> AppModelView {
    match message {
        Message::ToggleContextPage(page) => if pre.context_page == page {
            AppModelView { show_context: !pre.show_context, ..pre }
        } else {
            AppModelView { context_page: page, show_context: true, ..pre }
        },
        Message::UpdateLogo(i) => if i < pre.logo_options.len() {
            AppModelView {
                selected_logo_name: pre.logo_options[i as int],
                selected_logo_idx: Some(i as int),
                ..pre
            }
        } else {
            pre
        },
        Message::ToggleCustomLogo(on) => AppModelView { custom_logo_active: on, ..pre },
        Message::UpdateCustomLogo => pre,
        Message::CustomLogoPicked(picked) => match picked {
            Some(path) => AppModelView { custom_logo_path: path@, ..pre },
            None => pre,
        },
        Message::AddItem(item_type) => {
            let item = new_item_view(item_type, entries);
            AppModelView {
                menu_items: prepended(pre.menu_items, item),
                dialog_pages: if item_type == MenuItemType::LaunchAction {
                    prepended(pre.dialog_pages, DialogPageView::EditItem(0, item))
                } else {
                    pre.dialog_pages
                },
                ..pre
            }
        },
        Message::SaveItem(i, item) => AppModelView {
            menu_items: replaced(pre.menu_items, i as int, item@),
            dialog_pages: popped(pre.dialog_pages),
            ..pre
        },
        Message::RemoveItem(i) => AppModelView {
            menu_items: removed(pre.menu_items, i as int),
            dialog_pages: popped(pre.dialog_pages),
            ..pre
        },
        Message::MoveItem(direction, i) => AppModelView {
            menu_items: match direction {
                OrderDirection::Up => moved_up(pre.menu_items, i as int),
                OrderDirection::Down => moved_down(pre.menu_items, i as int),
            },
            ..pre
        },
        Message::ResetMenu => AppModelView {
            menu_items: reset_of(pre.menu_items, entries),
            dialog_pages: popped(pre.dialog_pages),
            ..pre
        },
        Message::DialogUpdate(page) => AppModelView {
            dialog_pages: replaced(pre.dialog_pages, 0, page@),
            ..pre
        },
        Message::DialogCancel => AppModelView { dialog_pages: popped(pre.dialog_pages), ..pre },
        Message::DialogEditItem(i, item) => AppModelView {
            dialog_pages: prepended(pre.dialog_pages, DialogPageView::EditItem(i, item@)),
            ..pre
        },
        Message::DialogRemoveItem(i) => AppModelView {
            dialog_pages: prepended(pre.dialog_pages, DialogPageView::RemoveItem(i)),
            ..pre
        },
        Message::DialogResetMenu => AppModelView {
            dialog_pages: prepended(pre.dialog_pages, DialogPageView::ResetMenu),
            ..pre
        },
    }
}

/// What is to happen outside the editor after a message.
pub open spec fn effect_of(pre: AppModelView, message: Message) -> EffectView {
    match message {
        Message::UpdateLogo(i) => if i < pre.logo_options.len() {
            EffectView::Store(ConfigWriteView::Logo(pre.logo_options[i as int]))
        } else {
            EffectView::Nothing
        },
        Message::ToggleCustomLogo(on) => EffectView::Store(ConfigWriteView::CustomLogoActive(on)),
        Message::UpdateCustomLogo => EffectView::PickLogoFile,
        Message::CustomLogoPicked(Some(path)) => EffectView::Store(
            ConfigWriteView::CustomLogoPath(path@),
        ),
        _ => EffectView::Nothing,
    }
}

/// That the options stand in increasing order, that the chosen logo is one
/// of them, and that the chosen position is the place where its name
/// stands.
pub open spec fn choice_is_consistent(state: AppModelView) -> bool {
    &&& increasing(state.logo_options)
    &&& state.logo_options.contains(state.selected_logo_name)
    &&& state.selected_logo_idx == position(state.logo_options, state.selected_logo_name)
}

impl AppModel {
    /// The editor at its start, on what could be read of the persisted
    /// settings.
    pub fn init(stored: StoredSettings, catalog: &Catalog) -> (model: AppModel)
        ensures
            model@ == init_view(
                stored.logo.deep_view(),
                stored.menu_items.deep_view(),
                stored.custom_logo_active,
                stored.custom_logo_path.deep_view(),
                catalog@,
            ),
    {
        let table = builtin();
        let selected_logo_name = effective_logo(&table, stored.logo);
        let logo_options = options(&table);
        let selected_logo_idx = find_name(&logo_options, selected_logo_name.as_str());
        let menu_items = match stored.menu_items {
            Some(items) => items,
            None => MenuItems::defaults(catalog),
        };
        let custom_logo_active = match stored.custom_logo_active {
            Some(on) => on,
            None => false,
        };
        let custom_logo_path = match stored.custom_logo_path {
            Some(path) => path,
            None => String::new(),
        };
        let model = AppModel {
            context_page: ContextPage::About,
            show_context: false,
            dialog_pages: VecDeque::new(),
            logo_options,
            selected_logo_idx,
            selected_logo_name,
            custom_logo_active,
            custom_logo_path,
            menu_items,
        };
        assert(model@.dialog_pages =~= Seq::<DialogPageView>::empty());
        model
    }

    fn push_dialog(&mut self, page: DialogPage)
        ensures
            final(self)@ == (AppModelView {
                dialog_pages: prepended(old(self)@.dialog_pages, page@),
                ..old(self)@
            }),
    {
        self.dialog_pages.push_front(page);
        assert(self@.dialog_pages =~= prepended(old(self)@.dialog_pages, page@));
    }

    fn pop_dialog(&mut self)
        ensures
            final(self)@ == (AppModelView {
                dialog_pages: popped(old(self)@.dialog_pages),
                ..old(self)@
            }),
    {
        let _ = self.dialog_pages.pop_front();
        assert(self@.dialog_pages =~= popped(old(self)@.dialog_pages));
    }

    /// Handles one message and says what is to happen outside the editor.
    pub fn update(&mut self, message: Message, catalog: &Catalog) -> (effect: Effect)
        ensures
            final(self)@ == next_state(old(self)@, message, catalog@),
            effect@ == effect_of(old(self)@, message),
    {
        match message {
            Message::ToggleContextPage(page) => {
                if self.context_page == page {
                    self.show_context = !self.show_context;
                } else {
                    self.context_page = page;
                    self.show_context = true;
                }
                Effect::Nothing
            },
            Message::UpdateLogo(i) => {
                if i < self.logo_options.len() {
                    self.selected_logo_name = self.logo_options[i].clone();
                    self.selected_logo_idx = Some(i);
                    Effect::Store(ConfigWrite::Logo(self.selected_logo_name.clone()))
                } else {
                    Effect::Nothing
                }
            },
            Message::ToggleCustomLogo(on) => {
                self.custom_logo_active = on;
                Effect::Store(ConfigWrite::CustomLogoActive(on))
            },
            Message::UpdateCustomLogo => Effect::PickLogoFile,
            Message::CustomLogoPicked(picked) => {
                match picked {
                    Some(path) => {
                        self.custom_logo_path = path.clone();
                        Effect::Store(ConfigWrite::CustomLogoPath(path))
                    },
                    None => Effect::Nothing,
                }
            },
            Message::AddItem(item_type) => {
                let item = new_item(item_type, catalog);
                self.menu_items.add(item.clone());
                if item_type == MenuItemType::LaunchAction {
                    self.push_dialog(DialogPage::EditItem(0, item));
                }
                Effect::Nothing
            },
            Message::SaveItem(i, item) => {
                self.menu_items.replace(i, item);
                self.pop_dialog();
                Effect::Nothing
            },
            Message::RemoveItem(i) => {
                self.menu_items.remove(i);
                self.pop_dialog();
                Effect::Nothing
            },
            Message::MoveItem(direction, i) => {
                match direction {
                    OrderDirection::Up => self.menu_items.move_up(i),
                    OrderDirection::Down => self.menu_items.move_down(i),
                }
                Effect::Nothing
            },
            Message::ResetMenu => {
                self.menu_items.reset(catalog);
                self.pop_dialog();
                Effect::Nothing
            },
            Message::DialogUpdate(page) => {
                if self.dialog_pages.len() > 0 {
                    let _ = self.dialog_pages.pop_front();
                    self.dialog_pages.push_front(page);
                    assert(self@.dialog_pages =~= replaced(old(self)@.dialog_pages, 0, page@));
                }
                Effect::Nothing
            },
            Message::DialogCancel => {
                self.pop_dialog();
                Effect::Nothing
            },
            Message::DialogEditItem(i, item) => {
                self.push_dialog(DialogPage::EditItem(i, item));
                Effect::Nothing
            },
            Message::DialogRemoveItem(i) => {
                self.push_dialog(DialogPage::RemoveItem(i));
                Effect::Nothing
            },
            Message::DialogResetMenu => {
                self.push_dialog(DialogPage::ResetMenu);
                Effect::Nothing
            },
        }
    }
}

/// The menu to edit: the stored one, or the built-in one where none could
/// be read.
pub fn get_menu_items(stored: Option<MenuItems>, catalog: &Catalog) -> (items: Vec<MenuItem>)
    ensures
        items.deep_view() == (match stored {
            Some(list) => list@,
            None => default_items(catalog@),
        }),
{
    match stored {
        Some(list) => list.items,
        None => MenuItems::defaults(catalog).items,
    }
}

/// An editor that is started has a consistent choice of logo.
pub proof fn lemma_init_is_consistent(
    logo: Option<Seq<char>>,
    menu_items: Option<Seq<MenuItemView>>,
    custom_logo_active: Option<bool>,
    custom_logo_path: Option<Seq<char>>,
    entries: Seq<(Seq<char>, Seq<char>)>,
)
    ensures
        choice_is_consistent(
            init_view(logo, menu_items, custom_logo_active, custom_logo_path, entries),
        ),
{
    lemma_builtin_names_increase();
    lemma_effective_logo_is_builtin(logo);
}

/// No message makes a consistent choice of logo inconsistent.
pub proof fn lemma_update_keeps_consistency(
    pre: AppModelView,
    message: Message,
    entries: Seq<(Seq<char>, Seq<char>)>,
)
    requires
        choice_is_consistent(pre),
    ensures
        choice_is_consistent(next_state(pre, message, entries)),
{
    match message {
        Message::UpdateLogo(i) => {
            if i < pre.logo_options.len() {
                lemma_increasing_has_no_repeats(pre.logo_options, i as int);
            }
        },
        _ => {},
    }
}

} // verus!
