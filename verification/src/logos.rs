//! The built-in logos: their names in display order, and the choice of the
//! logo that is shown.

use crate::text::{
    increasing, index_view, lemma_position, parts_at, position, position_from, text_before,
    text_eq,
};
use vstd::prelude::*;
use vstd::string::*;

verus! {

/// A logo as plain values.
pub struct LogoView {
    pub name: Seq<char>,
    pub symbolic: bool,
}

/// A logo of the built-in set. A symbolic logo is drawn in the theme's
/// colour.
#[derive(Debug, PartialEq, Eq)]
pub struct Logo {
    pub name: String,
    pub symbolic: bool,
}

impl DeepView for Logo {
    type V = LogoView;

    open spec fn deep_view(&self) -> LogoView {
        LogoView { name: self.name@, symbolic: self.symbolic }
    }
}

impl View for Logo {
    type V = LogoView;

    open spec fn view(&self) -> LogoView {
        self.deep_view()
    }
}

pub open spec fn logo_view(name: Seq<char>, symbolic: bool) -> LogoView {
    LogoView { name, symbolic }
}

/// The name of the logo that is shown where none, or an unknown one, is
/// chosen.
pub open spec fn default_logo_name() -> Seq<char> {
    "Cosmic (Symbolic)"@
}

/// The built-in set, ordered by name.
pub open spec fn builtin_logos() -> Seq<LogoView> {
    seq![
        logo_view("Aeryn"@, false),
        logo_view("Aeryn (Symbolic)"@, true),
        logo_view("Alma"@, false),
        logo_view("Alma (Symbolic)"@, true),
        logo_view("Alpine"@, false),
        logo_view("Alpine (Symbolic)"@, true),
        logo_view("Arch"@, false),
        logo_view("Arch (Symbolic)"@, true),
        logo_view("Asahi"@, false),
        logo_view("Asahi (Symbolic)"@, true),
        logo_view("Bazzite"@, false),
        logo_view("Bazzite (Symbolic)"@, true),
        logo_view("Cachy"@, false),
        logo_view("Cachy (Symbolic)"@, true),
        logo_view("Cosmic"@, false),
        logo_view("Cosmic (Black)"@, false),
        logo_view("Cosmic (Symbolic)"@, true),
        logo_view("Debian"@, false),
        logo_view("Debian (Symbolic)"@, true),
        logo_view("EndeavourOS"@, false),
        logo_view("EndeavourOS (Symbolic)"@, true),
        logo_view("Fedora"@, false),
        logo_view("Fedora (Symbolic)"@, true),
        logo_view("Gentoo"@, false),
        logo_view("Gentoo (Symbolic)"@, true),
        logo_view("MX (Symbolic)"@, true),
        logo_view("Manjaro"@, false),
        logo_view("Manjaro (Symbolic)"@, true),
        logo_view("NixOS"@, false),
        logo_view("NixOS (Symbolic)"@, true),
        logo_view("Nobara (Symbolic)"@, true),
        logo_view("OpenSuse"@, false),
        logo_view("OpenSuse (Symbolic)"@, true),
        logo_view("Pop!_OS"@, false),
        logo_view("Pop!_OS (Symbolic)"@, true),
        logo_view("PostmarketOS"@, false),
        logo_view("PostmarketOS (Symbolic)"@, true),
        logo_view("PureOS (Symbolic)"@, true),
        logo_view("Raspbian (Symbolic)"@, true),
        logo_view("Red Hat"@, false),
        logo_view("Red Hat (Symbolic)"@, true),
        logo_view("Redox (Symbolic)"@, true),
        logo_view("Rocky"@, false),
        logo_view("Rocky (Symbolic)"@, true),
        logo_view("Solus"@, false),
        logo_view("Solus (Symbolic)"@, true),
        logo_view("SteamDeck (Blue)"@, false),
        logo_view("SteamDeck (Orange)"@, false),
        logo_view("SteamDeck (Symbolic)"@, true),
        logo_view("System76"@, false),
        logo_view("System76 (Symbolic)"@, true),
        logo_view("Tux"@, false),
        logo_view("Tux (Symbolic)"@, true),
        logo_view("Ubuntu"@, false),
        logo_view("Ubuntu (Symbolic)"@, true),
        logo_view("Universal Blue"@, false),
        logo_view("Universal Blue (Symbolic)"@, true),
        logo_view("Void"@, false),
        logo_view("Void (Symbolic)"@, true),
        logo_view("Zorin"@, false),
        logo_view("Zorin (Symbolic)"@, true),
    ]
}

/// The names of a set of logos, in the set's order.
pub open spec fn names_of(table: Seq<LogoView>) -> Seq<Seq<char>> {
    table.map_values(|l: LogoView| l.name)
}

/// The name of the logo to show for a persisted choice: the choice itself
/// where the set has a logo of that name, else the default name.
pub open spec fn effective_name(table: Seq<LogoView>, persisted: Option<Seq<char>>) -> Seq<char> {
    match persisted {
        Some(name) => if names_of(table).contains(name) {
            name
        } else {
            default_logo_name()
        },
        None => default_logo_name(),
    }
}

fn logo(name: &str, symbolic: bool) -> (l: Logo)
    ensures
        l@ == logo_view(name@, symbolic),
{
    Logo { name: name.to_owned(), symbolic }
}

/// The name of the logo that is shown where none, or an unknown one, is
/// chosen.
pub fn default_logo() -> (name: String)
    ensures
        name@ == default_logo_name(),
{
    "Cosmic (Symbolic)".to_owned()
}

/// The built-in set, ordered by name.
pub fn builtin() -> (table: Vec<Logo>)
    ensures
        table.deep_view() == builtin_logos(),
{
    let mut table: Vec<Logo> = Vec::new();
    table.push(logo("Aeryn", false));
    table.push(logo("Aeryn (Symbolic)", true));
    table.push(logo("Alma", false));
    table.push(logo("Alma (Symbolic)", true));
    table.push(logo("Alpine", false));
    table.push(logo("Alpine (Symbolic)", true));
    table.push(logo("Arch", false));
    table.push(logo("Arch (Symbolic)", true));
    table.push(logo("Asahi", false));
    table.push(logo("Asahi (Symbolic)", true));
    table.push(logo("Bazzite", false));
    table.push(logo("Bazzite (Symbolic)", true));
    table.push(logo("Cachy", false));
    table.push(logo("Cachy (Symbolic)", true));
    table.push(logo("Cosmic", false));
    table.push(logo("Cosmic (Black)", false));
    table.push(logo("Cosmic (Symbolic)", true));
    table.push(logo("Debian", false));
    table.push(logo("Debian (Symbolic)", true));
    table.push(logo("EndeavourOS", false));
    table.push(logo("EndeavourOS (Symbolic)", true));
    table.push(logo("Fedora", false));
    table.push(logo("Fedora (Symbolic)", true));
    table.push(logo("Gentoo", false));
    table.push(logo("Gentoo (Symbolic)", true));
    table.push(logo("MX (Symbolic)", true));
    table.push(logo("Manjaro", false));
    table.push(logo("Manjaro (Symbolic)", true));
    table.push(logo("NixOS", false));
    table.push(logo("NixOS (Symbolic)", true));
    table.push(logo("Nobara (Symbolic)", true));
    table.push(logo("OpenSuse", false));
    table.push(logo("OpenSuse (Symbolic)", true));
    table.push(logo("Pop!_OS", false));
    table.push(logo("Pop!_OS (Symbolic)", true));
    table.push(logo("PostmarketOS", false));
    table.push(logo("PostmarketOS (Symbolic)", true));
    table.push(logo("PureOS (Symbolic)", true));
    table.push(logo("Raspbian (Symbolic)", true));
    table.push(logo("Red Hat", false));
    table.push(logo("Red Hat (Symbolic)", true));
    table.push(logo("Redox (Symbolic)", true));
    table.push(logo("Rocky", false));
    table.push(logo("Rocky (Symbolic)", true));
    table.push(logo("Solus", false));
    table.push(logo("Solus (Symbolic)", true));
    table.push(logo("SteamDeck (Blue)", false));
    table.push(logo("SteamDeck (Orange)", false));
    table.push(logo("SteamDeck (Symbolic)", true));
    table.push(logo("System76", false));
    table.push(logo("System76 (Symbolic)", true));
    table.push(logo("Tux", false));
    table.push(logo("Tux (Symbolic)", true));
    table.push(logo("Ubuntu", false));
    table.push(logo("Ubuntu (Symbolic)", true));
    table.push(logo("Universal Blue", false));
    table.push(logo("Universal Blue (Symbolic)", true));
    table.push(logo("Void", false));
    table.push(logo("Void (Symbolic)", true));
    table.push(logo("Zorin", false));
    table.push(logo("Zorin (Symbolic)", true));
    assert(table.deep_view() =~= builtin_logos());
    table
}

/// The first position at which `table` has a logo of the given name.
pub fn find(table: &Vec<Logo>, name: &str) -> (found: Option<usize>)
    ensures
        index_view(found) == position(names_of(table.deep_view()), name@),
{
    let ghost names = names_of(table.deep_view());
    let mut i: usize = 0;
    while i < table.len()
        invariant
            i <= table.len(),
            names == names_of(table.deep_view()),
            position(names, name@) == position_from(names, name@, i as int),
        decreases table.len() - i,
    {
        if text_eq(table[i].name.as_str(), name) {
            return Some(i);
        }
        i = i + 1;
    }
    None
}

/// The names of `table`, in its order: the choices offered to the user.
pub fn options(table: &Vec<Logo>) -> (names: Vec<String>)
    ensures
        names.deep_view() == names_of(table.deep_view()),
{
    let mut names: Vec<String> = Vec::new();
    let mut i: usize = 0;
    while i < table.len()
        invariant
            i <= table.len(),
            names.len() == i,
            forall|k: int| 0 <= k < i ==> names[k]@ == table[k].name@,
        decreases table.len() - i,
    {
        names.push(table[i].name.clone());
        i = i + 1;
    }
    assert(names.deep_view() =~= names_of(table.deep_view()));
    names
}

/// The name of the logo to show for a persisted choice. A choice that
/// `table` does not hold gives way to the default.
pub fn effective_logo(table: &Vec<Logo>, persisted: Option<String>) -> (name: String)
    ensures
        name@ == effective_name(table.deep_view(), persisted.deep_view()),
{
    match persisted {
        Some(choice) => {
            let found = find(table, choice.as_str());
            proof {
                lemma_position(names_of(table.deep_view()), choice@, 0);
            }
            if found.is_some() {
                choice
            } else {
                default_logo()
            }
        },
        None => default_logo(),
    }
}

/// The built-in set holds the default logo, so the logo to show for any
/// persisted choice is one of the built-in set.
pub proof fn lemma_effective_logo_is_builtin(persisted: Option<Seq<char>>)
    ensures
        names_of(builtin_logos()).contains(effective_name(builtin_logos(), persisted)),
{
    assert(names_of(builtin_logos())[16] == default_logo_name());
}

/// A choice outside the set gives the default logo.
pub proof fn lemma_unknown_logo_gives_default(table: Seq<LogoView>, name: Seq<char>)
    requires
        !names_of(table).contains(name),
    ensures
        effective_name(table, Some(name)) == default_logo_name(),
{
}

/// Whether the logo of the given name is symbolic; a name that the set does
/// not hold counts as not symbolic.
pub open spec fn symbolic_of(table: Seq<LogoView>, name: Seq<char>) -> bool {
    match position(names_of(table), name) {
        Some(i) => table[i].symbolic,
        None => false,
    }
}

/// Where the logo on show comes from, as plain values.
pub enum LogoSourceView {
    Custom(Seq<char>),
    Builtin(Seq<char>, bool),
}

/// Where the logo on show comes from.
#[derive(Debug, PartialEq, Eq)]
pub enum LogoSource {
    /// The image file at this path.
    Custom(String),
    /// The logo of this name from the set, symbolic or not.
    Builtin(String, bool),
}

impl DeepView for LogoSource {
    type V = LogoSourceView;

    open spec fn deep_view(&self) -> LogoSourceView {
        match self {
            LogoSource::Custom(path) => LogoSourceView::Custom(path@),
            LogoSource::Builtin(name, symbolic) => LogoSourceView::Builtin(name@, *symbolic),
        }
    }
}

impl View for LogoSource {
    type V = LogoSourceView;

    open spec fn view(&self) -> LogoSourceView {
        self.deep_view()
    }
}

/// The logo to show: the custom image where one is switched on and its file
/// was read, else the logo of the set that the chosen name leads to. A
/// custom image whose file is missing or cannot be read gives way to the
/// set without more ado.
pub open spec fn spec_logo_source(
    table: Seq<LogoView>,
    custom_active: bool,
    custom_read: bool,
    custom_path: Seq<char>,
    chosen: Seq<char>,
) -> LogoSourceView {
    if custom_active && custom_read {
        LogoSourceView::Custom(custom_path)
    } else {
        let name = effective_name(table, Some(chosen));
        LogoSourceView::Builtin(name, symbolic_of(table, name))
    }
}

/// The logo to show. `custom_read` says whether the file at `custom_path`
/// is there and was read: the caller reads it before it asks.
pub fn logo_source(
    table: &Vec<Logo>,
    custom_active: bool,
    custom_read: bool,
    custom_path: &str,
    chosen: &str,
) -> (source: LogoSource)
    ensures
        source@ == spec_logo_source(
            table.deep_view(),
            custom_active,
            custom_read,
            custom_path@,
            chosen@,
        ),
{
    if custom_active && custom_read {
        LogoSource::Custom(custom_path.to_owned())
    } else {
        let name = effective_logo(table, Some(chosen.to_owned()));
        let symbolic = match find(table, name.as_str()) {
            Some(i) => {
                proof {
                    lemma_position(names_of(table.deep_view()), name@, 0);
                }
                table[i].symbolic
            },
            None => false,
        };
        LogoSource::Builtin(name, symbolic)
    }
}

/// A custom logo whose file is missing or cannot be read gives way to the
/// logo of the set that the chosen name leads to, switched on or not.
pub proof fn lemma_unread_custom_logo_falls_back(
    table: Seq<LogoView>,
    custom_active: bool,
    custom_path: Seq<char>,
    chosen: Seq<char>,
)
    ensures
        spec_logo_source(table, custom_active, false, custom_path, chosen)
            == LogoSourceView::Builtin(
            effective_name(table, Some(chosen)),
            symbolic_of(table, effective_name(table, Some(chosen))),
        ),
{
}

/// The names of the built-in set stand in increasing order, so none occurs
/// twice.
pub proof fn lemma_builtin_names_increase()
    ensures
        increasing(names_of(builtin_logos())),
{
    let names = names_of(builtin_logos());
    assert(names.len() == 61);
    assert forall|i: int| 0 <= i < names.len() - 1 implies text_before(
        #[trigger] names[i],
        names[i + 1],
    ) by {
        if i == 0 {
            reveal_strlit("Aeryn");
            reveal_strlit("Aeryn (Symbolic)");
            assert(parts_at("Aeryn"@, "Aeryn (Symbolic)"@, 5));
        } else if i == 1 {
            reveal_strlit("Aeryn (Symbolic)");
            reveal_strlit("Alma");
            assert(parts_at("Aeryn (Symbolic)"@, "Alma"@, 1));
        } else if i == 2 {
            reveal_strlit("Alma");
            reveal_strlit("Alma (Symbolic)");
            assert(parts_at("Alma"@, "Alma (Symbolic)"@, 4));
        } else if i == 3 {
            reveal_strlit("Alma (Symbolic)");
            reveal_strlit("Alpine");
            assert(parts_at("Alma (Symbolic)"@, "Alpine"@, 2));
        } else if i == 4 {
            reveal_strlit("Alpine");
            reveal_strlit("Alpine (Symbolic)");
            assert(parts_at("Alpine"@, "Alpine (Symbolic)"@, 6));
        } else if i == 5 {
            reveal_strlit("Alpine (Symbolic)");
            reveal_strlit("Arch");
            assert(parts_at("Alpine (Symbolic)"@, "Arch"@, 1));
        } else if i == 6 {
            reveal_strlit("Arch");
            reveal_strlit("Arch (Symbolic)");
            assert(parts_at("Arch"@, "Arch (Symbolic)"@, 4));
        } else if i == 7 {
            reveal_strlit("Arch (Symbolic)");
            reveal_strlit("Asahi");
            assert(parts_at("Arch (Symbolic)"@, "Asahi"@, 1));
        } else if i == 8 {
            reveal_strlit("Asahi");
            reveal_strlit("Asahi (Symbolic)");
            assert(parts_at("Asahi"@, "Asahi (Symbolic)"@, 5));
        } else if i == 9 {
            reveal_strlit("Asahi (Symbolic)");
            reveal_strlit("Bazzite");
            assert(parts_at("Asahi (Symbolic)"@, "Bazzite"@, 0));
        } else if i == 10 {
            reveal_strlit("Bazzite");
            reveal_strlit("Bazzite (Symbolic)");
            assert(parts_at("Bazzite"@, "Bazzite (Symbolic)"@, 7));
        } else if i == 11 {
            reveal_strlit("Bazzite (Symbolic)");
            reveal_strlit("Cachy");
            assert(parts_at("Bazzite (Symbolic)"@, "Cachy"@, 0));
        } else if i == 12 {
            reveal_strlit("Cachy");
            reveal_strlit("Cachy (Symbolic)");
            assert(parts_at("Cachy"@, "Cachy (Symbolic)"@, 5));
        } else if i == 13 {
            reveal_strlit("Cachy (Symbolic)");
            reveal_strlit("Cosmic");
            assert(parts_at("Cachy (Symbolic)"@, "Cosmic"@, 1));
        } else if i == 14 {
            reveal_strlit("Cosmic");
            reveal_strlit("Cosmic (Black)");
            assert(parts_at("Cosmic"@, "Cosmic (Black)"@, 6));
        } else if i == 15 {
            reveal_strlit("Cosmic (Black)");
            reveal_strlit("Cosmic (Symbolic)");
            assert(parts_at("Cosmic (Black)"@, "Cosmic (Symbolic)"@, 8));
        } else if i == 16 {
            reveal_strlit("Cosmic (Symbolic)");
            reveal_strlit("Debian");
            assert(parts_at("Cosmic (Symbolic)"@, "Debian"@, 0));
        } else if i == 17 {
            reveal_strlit("Debian");
            reveal_strlit("Debian (Symbolic)");
            assert(parts_at("Debian"@, "Debian (Symbolic)"@, 6));
        } else if i == 18 {
            reveal_strlit("Debian (Symbolic)");
            reveal_strlit("EndeavourOS");
            assert(parts_at("Debian (Symbolic)"@, "EndeavourOS"@, 0));
        } else if i == 19 {
            reveal_strlit("EndeavourOS");
            reveal_strlit("EndeavourOS (Symbolic)");
            assert(parts_at("EndeavourOS"@, "EndeavourOS (Symbolic)"@, 11));
        } else if i == 20 {
            reveal_strlit("EndeavourOS (Symbolic)");
            reveal_strlit("Fedora");
            assert(parts_at("EndeavourOS (Symbolic)"@, "Fedora"@, 0));
        } else if i == 21 {
            reveal_strlit("Fedora");
            reveal_strlit("Fedora (Symbolic)");
            assert(parts_at("Fedora"@, "Fedora (Symbolic)"@, 6));
        } else if i == 22 {
            reveal_strlit("Fedora (Symbolic)");
            reveal_strlit("Gentoo");
            assert(parts_at("Fedora (Symbolic)"@, "Gentoo"@, 0));
        } else if i == 23 {
            reveal_strlit("Gentoo");
            reveal_strlit("Gentoo (Symbolic)");
            assert(parts_at("Gentoo"@, "Gentoo (Symbolic)"@, 6));
        } else if i == 24 {
            reveal_strlit("Gentoo (Symbolic)");
            reveal_strlit("MX (Symbolic)");
            assert(parts_at("Gentoo (Symbolic)"@, "MX (Symbolic)"@, 0));
        } else if i == 25 {
            reveal_strlit("MX (Symbolic)");
            reveal_strlit("Manjaro");
            assert(parts_at("MX (Symbolic)"@, "Manjaro"@, 1));
        } else if i == 26 {
            reveal_strlit("Manjaro");
            reveal_strlit("Manjaro (Symbolic)");
            assert(parts_at("Manjaro"@, "Manjaro (Symbolic)"@, 7));
        } else if i == 27 {
            reveal_strlit("Manjaro (Symbolic)");
            reveal_strlit("NixOS");
            assert(parts_at("Manjaro (Symbolic)"@, "NixOS"@, 0));
        } else if i == 28 {
            reveal_strlit("NixOS");
            reveal_strlit("NixOS (Symbolic)");
            assert(parts_at("NixOS"@, "NixOS (Symbolic)"@, 5));
        } else if i == 29 {
            reveal_strlit("NixOS (Symbolic)");
            reveal_strlit("Nobara (Symbolic)");
            assert(parts_at("NixOS (Symbolic)"@, "Nobara (Symbolic)"@, 1));
        } else if i == 30 {
            reveal_strlit("Nobara (Symbolic)");
            reveal_strlit("OpenSuse");
            assert(parts_at("Nobara (Symbolic)"@, "OpenSuse"@, 0));
        } else if i == 31 {
            reveal_strlit("OpenSuse");
            reveal_strlit("OpenSuse (Symbolic)");
            assert(parts_at("OpenSuse"@, "OpenSuse (Symbolic)"@, 8));
        } else if i == 32 {
            reveal_strlit("OpenSuse (Symbolic)");
            reveal_strlit("Pop!_OS");
            assert(parts_at("OpenSuse (Symbolic)"@, "Pop!_OS"@, 0));
        } else if i == 33 {
            reveal_strlit("Pop!_OS");
            reveal_strlit("Pop!_OS (Symbolic)");
            assert(parts_at("Pop!_OS"@, "Pop!_OS (Symbolic)"@, 7));
        } else if i == 34 {
            reveal_strlit("Pop!_OS (Symbolic)");
            reveal_strlit("PostmarketOS");
            assert(parts_at("Pop!_OS (Symbolic)"@, "PostmarketOS"@, 2));
        } else if i == 35 {
            reveal_strlit("PostmarketOS");
            reveal_strlit("PostmarketOS (Symbolic)");
            assert(parts_at("PostmarketOS"@, "PostmarketOS (Symbolic)"@, 12));
        } else if i == 36 {
            reveal_strlit("PostmarketOS (Symbolic)");
            reveal_strlit("PureOS (Symbolic)");
            assert(parts_at("PostmarketOS (Symbolic)"@, "PureOS (Symbolic)"@, 1));
        } else if i == 37 {
            reveal_strlit("PureOS (Symbolic)");
            reveal_strlit("Raspbian (Symbolic)");
            assert(parts_at("PureOS (Symbolic)"@, "Raspbian (Symbolic)"@, 0));
        } else if i == 38 {
            reveal_strlit("Raspbian (Symbolic)");
            reveal_strlit("Red Hat");
            assert(parts_at("Raspbian (Symbolic)"@, "Red Hat"@, 1));
        } else if i == 39 {
            reveal_strlit("Red Hat");
            reveal_strlit("Red Hat (Symbolic)");
            assert(parts_at("Red Hat"@, "Red Hat (Symbolic)"@, 7));
        } else if i == 40 {
            reveal_strlit("Red Hat (Symbolic)");
            reveal_strlit("Redox (Symbolic)");
            assert(parts_at("Red Hat (Symbolic)"@, "Redox (Symbolic)"@, 3));
        } else if i == 41 {
            reveal_strlit("Redox (Symbolic)");
            reveal_strlit("Rocky");
            assert(parts_at("Redox (Symbolic)"@, "Rocky"@, 1));
        } else if i == 42 {
            reveal_strlit("Rocky");
            reveal_strlit("Rocky (Symbolic)");
            assert(parts_at("Rocky"@, "Rocky (Symbolic)"@, 5));
        } else if i == 43 {
            reveal_strlit("Rocky (Symbolic)");
            reveal_strlit("Solus");
            assert(parts_at("Rocky (Symbolic)"@, "Solus"@, 0));
        } else if i == 44 {
            reveal_strlit("Solus");
            reveal_strlit("Solus (Symbolic)");
            assert(parts_at("Solus"@, "Solus (Symbolic)"@, 5));
        } else if i == 45 {
            reveal_strlit("Solus (Symbolic)");
            reveal_strlit("SteamDeck (Blue)");
            assert(parts_at("Solus (Symbolic)"@, "SteamDeck (Blue)"@, 1));
        } else if i == 46 {
            reveal_strlit("SteamDeck (Blue)");
            reveal_strlit("SteamDeck (Orange)");
            assert(parts_at("SteamDeck (Blue)"@, "SteamDeck (Orange)"@, 11));
        } else if i == 47 {
            reveal_strlit("SteamDeck (Orange)");
            reveal_strlit("SteamDeck (Symbolic)");
            assert(parts_at("SteamDeck (Orange)"@, "SteamDeck (Symbolic)"@, 11));
        } else if i == 48 {
            reveal_strlit("SteamDeck (Symbolic)");
            reveal_strlit("System76");
            assert(parts_at("SteamDeck (Symbolic)"@, "System76"@, 1));
        } else if i == 49 {
            reveal_strlit("System76");
            reveal_strlit("System76 (Symbolic)");
            assert(parts_at("System76"@, "System76 (Symbolic)"@, 8));
        } else if i == 50 {
            reveal_strlit("System76 (Symbolic)");
            reveal_strlit("Tux");
            assert(parts_at("System76 (Symbolic)"@, "Tux"@, 0));
        } else if i == 51 {
            reveal_strlit("Tux");
            reveal_strlit("Tux (Symbolic)");
            assert(parts_at("Tux"@, "Tux (Symbolic)"@, 3));
        } else if i == 52 {
            reveal_strlit("Tux (Symbolic)");
            reveal_strlit("Ubuntu");
            assert(parts_at("Tux (Symbolic)"@, "Ubuntu"@, 0));
        } else if i == 53 {
            reveal_strlit("Ubuntu");
            reveal_strlit("Ubuntu (Symbolic)");
            assert(parts_at("Ubuntu"@, "Ubuntu (Symbolic)"@, 6));
        } else if i == 54 {
            reveal_strlit("Ubuntu (Symbolic)");
            reveal_strlit("Universal Blue");
            assert(parts_at("Ubuntu (Symbolic)"@, "Universal Blue"@, 1));
        } else if i == 55 {
            reveal_strlit("Universal Blue");
            reveal_strlit("Universal Blue (Symbolic)");
            assert(parts_at("Universal Blue"@, "Universal Blue (Symbolic)"@, 14));
        } else if i == 56 {
            reveal_strlit("Universal Blue (Symbolic)");
            reveal_strlit("Void");
            assert(parts_at("Universal Blue (Symbolic)"@, "Void"@, 0));
        } else if i == 57 {
            reveal_strlit("Void");
            reveal_strlit("Void (Symbolic)");
            assert(parts_at("Void"@, "Void (Symbolic)"@, 4));
        } else if i == 58 {
            reveal_strlit("Void (Symbolic)");
            reveal_strlit("Zorin");
            assert(parts_at("Void (Symbolic)"@, "Zorin"@, 0));
        } else if i == 59 {
            reveal_strlit("Zorin");
            reveal_strlit("Zorin (Symbolic)");
            assert(parts_at("Zorin"@, "Zorin (Symbolic)"@, 5));
        }
    }
}

} // verus!
