//! The ordered list of menu items and the edits made to it.
//!
//! The order of the list is the order in which the menu shows its items. An
//! edit that names a position outside the list leaves the list as it is.

use crate::catalog::{text_of, Catalog};
use crate::menu::{divider_view, entry_view, MenuItem, MenuItemType, MenuItemView};
use vstd::prelude::*;
use vstd::string::*;

verus! {

/// `s` with `a` put in front.
pub open spec fn prepended<A>(s: Seq<A>, a: A) -> Seq<A> {
    seq![a] + s
}

/// `s` without the item at `i`; `s` itself where `i` names no item.
pub open spec fn removed<A>(s: Seq<A>, i: int) -> Seq<A> {
    if 0 <= i < s.len() {
        s.remove(i)
    } else {
        s
    }
}

/// `s` with the items at `i` and `j` exchanged.
pub open spec fn swapped<A>(s: Seq<A>, i: int, j: int) -> Seq<A> {
    s.update(i, s[j]).update(j, s[i])
}

/// `s` with the item at `i` moved one place towards the front; `s` itself
/// where `i` is the first position or names no item.
pub open spec fn moved_up<A>(s: Seq<A>, i: int) -> Seq<A> {
    if 0 < i < s.len() {
        swapped(s, i - 1, i)
    } else {
        s
    }
}

/// `s` with the item at `i` moved one place towards the back; `s` itself
/// where `i` is the last position or names no item.
pub open spec fn moved_down<A>(s: Seq<A>, i: int) -> Seq<A> {
    if 0 <= i < s.len() - 1 {
        swapped(s, i, i + 1)
    } else {
        s
    }
}

/// `s` with `a` in place of the item at `i`; `s` itself where `i` names no
/// item.
pub open spec fn replaced<A>(s: Seq<A>, i: int, a: A) -> Seq<A> {
    if 0 <= i < s.len() {
        s.update(i, a)
    } else {
        s
    }
}

/// A launcher of the built-in menu: its label is the catalog's text for `id`.
pub open spec fn launcher_view(
    entries: Seq<(Seq<char>, Seq<char>)>,
    id: Seq<char>,
    command: Seq<char>,
) -> MenuItemView {
    entry_view(MenuItemType::LaunchAction, text_of(entries, id), command)
}

/// A power entry of the built-in menu: its label is the catalog's text for
/// `id`.
pub open spec fn power_view(entries: Seq<(Seq<char>, Seq<char>)>, id: Seq<char>, command: Seq<char>)
    -> MenuItemView {
    entry_view(MenuItemType::PowerAction, text_of(entries, id), command)
}

/// The built-in menu, labelled from the catalog `entries`.
pub open spec fn default_items(entries: Seq<(Seq<char>, Seq<char>)>) -> Seq<MenuItemView> {
    seq![
        launcher_view(entries, "about-system"@, "cosmic-settings about"@),
        divider_view(),
        launcher_view(entries, "applications"@, "cosmic-app-library"@),
        launcher_view(entries, "launcher"@, "cosmic-launcher"@),
        launcher_view(entries, "workspaces"@, "cosmic-workspaces"@),
        divider_view(),
        launcher_view(entries, "terminal"@, "cosmic-term"@),
        launcher_view(entries, "files"@, "cosmic-files"@),
        launcher_view(entries, "software"@, "cosmic-store"@),
        launcher_view(entries, "settings"@, "cosmic-settings"@),
        divider_view(),
        power_view(entries, "lock"@, "Lock"@),
        power_view(entries, "logout"@, "Logout"@),
        power_view(entries, "suspend"@, "Suspend"@),
        divider_view(),
        power_view(entries, "restart"@, "Restart"@),
        power_view(entries, "shutdown"@, "Shutdown"@),
        divider_view(),
        launcher_view(entries, "menu-settings"@, "cosmic-logomenu-settings"@),
    ]
}

/// The list after a reset: the built-in menu, whatever `s` was.
pub open spec fn reset_of(s: Seq<MenuItemView>, entries: Seq<(Seq<char>, Seq<char>)>) -> Seq<
    MenuItemView,
> {
    default_items(entries)
}

/// The item that "add" creates: a launcher comes with a label and a command
/// to start from, any other kind comes bare.
pub open spec fn new_item_view(item_type: MenuItemType, entries: Seq<(Seq<char>, Seq<char>)>)
    -> MenuItemView {
    if item_type == MenuItemType::LaunchAction {
        launcher_view(entries, "new-launcher"@, "cosmic-logomenu-settings"@)
    } else {
        MenuItemView { item_type, label: None, command: None }
    }
}

/// The menu's items in the order in which they are shown.
#[derive(Debug, PartialEq, Eq)]
pub struct MenuItems {
    pub items: Vec<MenuItem>,
}

impl DeepView for MenuItems {
    type V = Seq<MenuItemView>;

    open spec fn deep_view(&self) -> Seq<MenuItemView> {
        self.items.deep_view()
    }
}

impl View for MenuItems {
    type V = Seq<MenuItemView>;

    open spec fn view(&self) -> Seq<MenuItemView> {
        self.items.deep_view()
    }
}

impl Clone for MenuItems {
    fn clone(&self) -> (copy: Self)
        ensures
            copy@ == self@,
    {
        let mut items: Vec<MenuItem> = Vec::new();
        let mut i: usize = 0;
        while i < self.items.len()
            invariant
                i <= self.items.len(),
                items.len() == i,
                forall|k: int| 0 <= k < i ==> items[k] == self.items[k],
            decreases self.items.len() - i,
        {
            items.push(self.items[i].clone());
            i = i + 1;
        }
        let copy = MenuItems { items };
        assert(copy@ =~= self@);
        copy
    }
}

/// The item that "add" creates for the given kind.
pub fn new_item(item_type: MenuItemType, catalog: &Catalog) -> (item: MenuItem)
    ensures
        item@ == new_item_view(item_type, catalog@),
{
    match item_type {
        MenuItemType::LaunchAction => MenuItem::entry(
            MenuItemType::LaunchAction,
            catalog.get("new-launcher"),
            "cosmic-logomenu-settings",
        ),
        _ => MenuItem { item_type, label: None, command: None },
    }
}

fn launcher(catalog: &Catalog, id: &str, command: &str) -> (item: MenuItem)
    ensures
        item@ == launcher_view(catalog@, id@, command@),
{
    MenuItem::entry(MenuItemType::LaunchAction, catalog.get(id), command)
}

fn power(catalog: &Catalog, id: &str, command: &str) -> (item: MenuItem)
    ensures
        item@ == power_view(catalog@, id@, command@),
{
    MenuItem::entry(MenuItemType::PowerAction, catalog.get(id), command)
}

impl MenuItems {
    /// The built-in menu, labelled from `catalog`.
    pub fn defaults(catalog: &Catalog) -> (list: MenuItems)
        ensures
            list@ == default_items(catalog@),
    {
        let mut items: Vec<MenuItem> = Vec::new();
        items.push(launcher(catalog, "about-system", "cosmic-settings about"));
        items.push(MenuItem::divider());
        items.push(launcher(catalog, "applications", "cosmic-app-library"));
        items.push(launcher(catalog, "launcher", "cosmic-launcher"));
        items.push(launcher(catalog, "workspaces", "cosmic-workspaces"));
        items.push(MenuItem::divider());
        items.push(launcher(catalog, "terminal", "cosmic-term"));
        items.push(launcher(catalog, "files", "cosmic-files"));
        items.push(launcher(catalog, "software", "cosmic-store"));
        items.push(launcher(catalog, "settings", "cosmic-settings"));
        items.push(MenuItem::divider());
        items.push(power(catalog, "lock", "Lock"));
        items.push(power(catalog, "logout", "Logout"));
        items.push(power(catalog, "suspend", "Suspend"));
        items.push(MenuItem::divider());
        items.push(power(catalog, "restart", "Restart"));
        items.push(power(catalog, "shutdown", "Shutdown"));
        items.push(MenuItem::divider());
        items.push(launcher(catalog, "menu-settings", "cosmic-logomenu-settings"));
        let list = MenuItems { items };
        assert(list@ =~= default_items(catalog@));
        list
    }

    /// The number of items.
    pub fn len(&self) -> (n: usize)
        ensures
            n == self@.len(),
    {
        self.items.len()
    }

    /// Puts `item` in front of the others.
    pub fn add(&mut self, item: MenuItem)
        ensures
            final(self)@ == prepended(old(self)@, item@),
    {
        self.items.insert(0, item);
        assert(self@ =~= prepended(old(self)@, item@));
    }

    /// Deletes the item at `i`. Where `i` names no item, nothing changes.
    pub fn remove(&mut self, i: usize)
        ensures
            final(self)@ == removed(old(self)@, i as int),
    {
        if i < self.items.len() {
            self.items.remove(i);
            assert(self@ =~= old(self)@.remove(i as int));
        }
    }

    /// Exchanges the item at `i` with the one before it. Nothing changes
    /// where `i` is the first position or names no item.
    pub fn move_up(&mut self, i: usize)
        ensures
            final(self)@ == moved_up(old(self)@, i as int),
    {
        if 0 < i && i < self.items.len() {
            let upper = self.items[i - 1].clone();
            let lower = self.items[i].clone();
            self.items[i - 1] = lower;
            self.items[i] = upper;
            assert(self@ =~= swapped(old(self)@, i - 1, i as int));
        }
    }

    /// Exchanges the item at `i` with the one after it. Nothing changes
    /// where `i` is the last position or names no item.
    pub fn move_down(&mut self, i: usize)
        ensures
            final(self)@ == moved_down(old(self)@, i as int),
    {
        if i < self.items.len() && i + 1 < self.items.len() {
            let upper = self.items[i].clone();
            let lower = self.items[i + 1].clone();
            self.items[i] = lower;
            self.items[i + 1] = upper;
            assert(self@ =~= swapped(old(self)@, i as int, i + 1));
        }
    }

    /// Puts `item` in place of the item at `i`. Where `i` names no item,
    /// nothing changes.
    pub fn replace(&mut self, i: usize, item: MenuItem)
        ensures
            final(self)@ == replaced(old(self)@, i as int, item@),
    {
        if i < self.items.len() {
            self.items[i] = item;
            assert(self@ =~= old(self)@.update(i as int, item@));
        }
    }

    /// Puts the built-in menu, labelled from `catalog`, in place of the list.
    pub fn reset(&mut self, catalog: &Catalog)
        ensures
            final(self)@ == reset_of(old(self)@, catalog@),
    {
        *self = MenuItems::defaults(catalog);
    }
}

/// Moving the first item up changes nothing.
pub proof fn lemma_move_up_at_front<A>(s: Seq<A>)
    ensures
        moved_up(s, 0) == s,
{
}

/// Moving the last item down changes nothing.
pub proof fn lemma_move_down_at_back<A>(s: Seq<A>)
    ensures
        moved_down(s, s.len() - 1) == s,
{
}

/// Moving the item at `i` up, for `i` past the first position, exchanges it
/// with the item before it and leaves every other item in its place.
pub proof fn lemma_move_up_swaps<A>(s: Seq<A>, i: int)
    requires
        0 < i < s.len(),
    ensures
        moved_up(s, i).len() == s.len(),
        moved_up(s, i)[i - 1] == s[i],
        moved_up(s, i)[i] == s[i - 1],
        forall|k: int| 0 <= k < s.len() && k != i && k != i - 1 ==> moved_up(s, i)[k] == s[k],
{
}

/// Moving the item at `i` down, for `i` before the last position, exchanges
/// it with the item after it and leaves every other item in its place.
pub proof fn lemma_move_down_swaps<A>(s: Seq<A>, i: int)
    requires
        0 <= i < s.len() - 1,
    ensures
        moved_down(s, i).len() == s.len(),
        moved_down(s, i)[i + 1] == s[i],
        moved_down(s, i)[i] == s[i + 1],
        forall|k: int| 0 <= k < s.len() && k != i && k != i + 1 ==> moved_down(s, i)[k] == s[k],
{
}

/// Moving an item down and then moving it back up restores the list.
pub proof fn lemma_move_down_then_up<A>(s: Seq<A>, i: int)
    requires
        0 <= i < s.len() - 1,
    ensures
        moved_up(moved_down(s, i), i + 1) == s,
{
    assert(moved_up(moved_down(s, i), i + 1) =~= s);
}

/// Removing the item at `i` shortens the list by one and keeps every other
/// item, in the order they had: what stood before `i` stays in place, what
/// stood after `i` moves one place to the front. The position `i` itself
/// has no place in the result.
pub proof fn lemma_remove_keeps_the_rest<A>(s: Seq<A>, i: int)
    requires
        0 <= i < s.len(),
    ensures
        removed(s, i).len() == s.len() - 1,
        forall|j: int| 0 <= j < i ==> removed(s, i)[j] == s[j],
        forall|j: int| i < j < s.len() ==> removed(s, i)[j - 1] == s[j],
{
}

/// A reset gives the same list whatever the list was before, so a second
/// reset changes nothing.
pub proof fn lemma_reset_is_fixed(
    a: Seq<MenuItemView>,
    b: Seq<MenuItemView>,
    entries: Seq<(Seq<char>, Seq<char>)>,
)
    ensures
        reset_of(a, entries) == reset_of(b, entries),
        reset_of(reset_of(a, entries), entries) == reset_of(a, entries),
{
}

} // verus!
