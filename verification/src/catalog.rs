//! The message catalog: the texts of the current language, by message id.

use crate::text::text_eq;
use vstd::prelude::*;
use vstd::string::*;

verus! {

/// What stands in for a message that the catalog lacks.
pub open spec fn missing_text(id: Seq<char>) -> Seq<char> {
    "No localization for id: \""@ + id + "\""@
}

/// The text recorded last for `id` among `entries`, if any.
pub open spec fn lookup(entries: Seq<(Seq<char>, Seq<char>)>, id: Seq<char>) -> Option<Seq<char>>
    decreases entries.len(),
{
    if entries.len() == 0 {
        None
    } else if entries.last().0 == id {
        Some(entries.last().1)
    } else {
        lookup(entries.drop_last(), id)
    }
}

/// The text shown for `id`: the recorded one, or the stand-in.
pub open spec fn text_of(entries: Seq<(Seq<char>, Seq<char>)>, id: Seq<char>) -> Seq<char> {
    match lookup(entries, id) {
        Some(t) => t,
        None => missing_text(id),
    }
}

/// Message texts by id. A later entry for an id replaces an earlier one.
#[derive(Debug)]
pub struct Catalog {
    entries: Vec<(String, String)>,
}

impl View for Catalog {
    type V = Seq<(Seq<char>, Seq<char>)>;

    closed spec fn view(&self) -> Seq<(Seq<char>, Seq<char>)> {
        self.entries@.map_values(|e: (String, String)| (e.0@, e.1@))
    }
}

impl Catalog {
    /// A catalog without any message.
    pub fn new() -> (c: Catalog)
        ensures
            c@ == Seq::<(Seq<char>, Seq<char>)>::empty(),
    {
        let c = Catalog { entries: Vec::new() };
        assert(c@ =~= Seq::<(Seq<char>, Seq<char>)>::empty());
        c
    }

    /// Records `text` for `id`.
    pub fn insert(&mut self, id: &str, text: &str)
        ensures
            final(self)@ == old(self)@.push((id@, text@)),
    {
        self.entries.push((id.to_owned(), text.to_owned()));
        assert(self@ =~= old(self)@.push((id@, text@)));
    }

    /// The number of entries recorded, replaced ones included.
    pub fn len(&self) -> (n: usize)
        ensures
            n == self@.len(),
    {
        self.entries.len()
    }

    /// The text for `id`.
    pub fn get(&self, id: &str) -> (text: String)
        ensures
            text@ == text_of(self@, id@),
    {
        let mut i: usize = self.entries.len();
        assert(self@.take(i as int) =~= self@);
        while i > 0
            invariant
                i <= self.entries.len(),
                lookup(self@, id@) == lookup(self@.take(i as int), id@),
            decreases i,
        {
            i = i - 1;
            proof {
                let upto = self@.take(i + 1);
                assert(upto.last() == self@[i as int]);
                assert(upto.drop_last() =~= self@.take(i as int));
            }
            if text_eq(self.entries[i].0.as_str(), id) {
                return self.entries[i].1.clone();
            }
        }
        assert(self@.take(0).len() == 0);
        let mut text = "No localization for id: \"".to_owned();
        text.append(id);
        text.append("\"");
        text
    }
}

/// The ids of the messages that the menu asks a catalog for.
pub open spec fn spec_message_ids() -> Seq<Seq<char>> {
    seq![
        "launch-action"@,
        "default-app"@,
        "power-action"@,
        "divider"@,
        "web-browser"@,
        "file-manager"@,
        "mail-client"@,
        "music"@,
        "video"@,
        "photos"@,
        "calendar"@,
        "terminal"@,
        "text-editor"@,
        "lock"@,
        "logout"@,
        "suspend"@,
        "restart"@,
        "shutdown"@,
        "about-system"@,
        "applications"@,
        "launcher"@,
        "workspaces"@,
        "files"@,
        "software"@,
        "settings"@,
        "menu-settings"@,
        "new-launcher"@,
        "lock-screen"@,
        "log-out"@,
    ]
}

/// The ids of the messages that the menu asks a catalog for: the ones to
/// fill in before the catalog is used.
pub fn message_ids() -> (ids: Vec<&'static str>)
    ensures
        ids.deep_view() == spec_message_ids(),
{
    let mut ids: Vec<&'static str> = Vec::new();
    ids.push("launch-action");
    ids.push("default-app");
    ids.push("power-action");
    ids.push("divider");
    ids.push("web-browser");
    ids.push("file-manager");
    ids.push("mail-client");
    ids.push("music");
    ids.push("video");
    ids.push("photos");
    ids.push("calendar");
    ids.push("terminal");
    ids.push("text-editor");
    ids.push("lock");
    ids.push("logout");
    ids.push("suspend");
    ids.push("restart");
    ids.push("shutdown");
    ids.push("about-system");
    ids.push("applications");
    ids.push("launcher");
    ids.push("workspaces");
    ids.push("files");
    ids.push("software");
    ids.push("settings");
    ids.push("menu-settings");
    ids.push("new-launcher");
    ids.push("lock-screen");
    ids.push("log-out");
    assert(ids.deep_view() =~= spec_message_ids());
    ids
}

} // verus!
