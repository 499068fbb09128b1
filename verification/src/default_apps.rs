//! Default applications: which MIME types stand for a category, how the
//! desktop is asked for the default handler of a type, and how the answer
//! is read and matched against the installed desktop entries.
//!
//! The questions are put by the caller, who runs the commands and lists the
//! desktop entries. What to ask, and what an answer means, is decided here.

use crate::menu::{
    spec_command_label, spec_default_app_key, DefaultAppOption, MenuItem, MenuItemType,
    MenuItemView,
};
use crate::power::{CommandLine, CommandLineView};
use crate::text::{
    find_name, lemma_position, lowercase, position, remove_all, text_eq, text_or_empty,
    to_lowercase, trim, trimmed, without,
};
use vstd::prelude::*;
use vstd::string::*;

verus! {

/// The category that a command text stands for, if it stands for one.
pub open spec fn spec_option_of(key: Seq<char>) -> Option<DefaultAppOption> {
    if key == "WebBrowser"@ {
        Some(DefaultAppOption::WebBrowser)
    } else if key == "FileManager"@ {
        Some(DefaultAppOption::FileManager)
    } else if key == "MailClient"@ {
        Some(DefaultAppOption::MailClient)
    } else if key == "Music"@ {
        Some(DefaultAppOption::Music)
    } else if key == "Video"@ {
        Some(DefaultAppOption::Video)
    } else if key == "Photos"@ {
        Some(DefaultAppOption::Photos)
    } else if key == "Calendar"@ {
        Some(DefaultAppOption::Calendar)
    } else if key == "Terminal"@ {
        Some(DefaultAppOption::Terminal)
    } else if key == "TextEditor"@ {
        Some(DefaultAppOption::TextEditor)
    } else {
        None
    }
}

/// The MIME types by which the default application of a category is asked
/// for, in the order in which they are tried.
pub open spec fn spec_mimes(option: DefaultAppOption) -> Seq<Seq<char>> {
    match option {
        DefaultAppOption::WebBrowser => seq!["x-scheme-handler/http"@],
        DefaultAppOption::FileManager => seq!["inode/directory"@],
        DefaultAppOption::MailClient => seq!["x-scheme-handler/mailto"@],
        DefaultAppOption::Music => seq!["audio/mp3"@, "application/ogg"@, "video/mp4"@],
        DefaultAppOption::Video => seq!["video/mp4"@],
        DefaultAppOption::Photos => seq!["image/png"@],
        DefaultAppOption::Calendar => seq!["text/calendar"@],
        DefaultAppOption::Terminal => seq![
            "x-scheme-handler/terminal"@,
            "application/x-terminal-emulator"@,
        ],
        DefaultAppOption::TextEditor => seq!["text/plain"@],
    }
}

/// The MIME types for a command text, if it stands for a category.
pub open spec fn spec_mimes_of(key: Seq<char>) -> Option<Seq<Seq<char>>> {
    match spec_option_of(key) {
        Some(option) => Some(spec_mimes(option)),
        None => None,
    }
}

/// The command that asks for the default handler of `mime`: directly, or
/// from inside a sandbox through the host spawner.
pub open spec fn spec_query_command(mime: Seq<char>, sandboxed: bool) -> CommandLineView {
    if sandboxed {
        CommandLineView {
            program: "flatpak-spawn"@,
            args: seq!["--host"@, "xdg-mime"@, "query"@, "default"@, mime],
        }
    } else {
        CommandLineView { program: "xdg-mime"@, args: seq!["query"@, "default"@, mime] }
    }
}

/// The application id in the output of a query: the output without the
/// white space around it and without the desktop-file suffix.
pub open spec fn spec_app_id(stdout: Seq<char>) -> Seq<char> {
    without(trimmed(stdout), ".desktop"@)
}

/// The shell line that looks for a desktop file of the given name in the
/// application directories of the host, system-wide and per user.
pub open spec fn spec_find_script(desktop_file: Seq<char>) -> Seq<char> {
    "find /usr/share/applications /usr/local/share/applications ~/.local/share/applications /var/lib/flatpak/exports/share/applications ~/.local/share/flatpak/exports/share/applications ~/.var/app/*/data/applications -name '"@
        + desktop_file + "' 2>/dev/null | head -n 1"@
}

/// The command that runs the search for a desktop file on the host.
pub open spec fn spec_find_command(desktop_file: Seq<char>) -> CommandLineView {
    CommandLineView {
        program: "flatpak-spawn"@,
        args: seq!["--host"@, "sh"@, "-c"@, spec_find_script(desktop_file)],
    }
}

/// The path in the output of a search, if the search printed one.
pub open spec fn spec_found_path(stdout: Seq<char>) -> Option<Seq<char>> {
    if trimmed(stdout).len() > 0 {
        Some(trimmed(stdout))
    } else {
        None
    }
}

impl DefaultAppOption {
    /// The category that a command text stands for, if it stands for one.
    pub fn from_command(key: &str) -> (option: Option<DefaultAppOption>)
        ensures
            option == spec_option_of(key@),
    {
        if text_eq(key, "WebBrowser") {
            Some(DefaultAppOption::WebBrowser)
        } else if text_eq(key, "FileManager") {
            Some(DefaultAppOption::FileManager)
        } else if text_eq(key, "MailClient") {
            Some(DefaultAppOption::MailClient)
        } else if text_eq(key, "Music") {
            Some(DefaultAppOption::Music)
        } else if text_eq(key, "Video") {
            Some(DefaultAppOption::Video)
        } else if text_eq(key, "Photos") {
            Some(DefaultAppOption::Photos)
        } else if text_eq(key, "Calendar") {
            Some(DefaultAppOption::Calendar)
        } else if text_eq(key, "Terminal") {
            Some(DefaultAppOption::Terminal)
        } else if text_eq(key, "TextEditor") {
            Some(DefaultAppOption::TextEditor)
        } else {
            None
        }
    }

    /// The MIME types by which the category's default application is asked
    /// for, in the order in which they are tried.
    pub fn mimes(self) -> (list: Vec<&'static str>)
        ensures
            list.deep_view() == spec_mimes(self),
    {
        let mut list: Vec<&'static str> = Vec::new();
        match self {
            DefaultAppOption::WebBrowser => {
                list.push("x-scheme-handler/http");
            },
            DefaultAppOption::FileManager => {
                list.push("inode/directory");
            },
            DefaultAppOption::MailClient => {
                list.push("x-scheme-handler/mailto");
            },
            DefaultAppOption::Music => {
                list.push("audio/mp3");
                list.push("application/ogg");
                list.push("video/mp4");
            },
            DefaultAppOption::Video => {
                list.push("video/mp4");
            },
            DefaultAppOption::Photos => {
                list.push("image/png");
            },
            DefaultAppOption::Calendar => {
                list.push("text/calendar");
            },
            DefaultAppOption::Terminal => {
                list.push("x-scheme-handler/terminal");
                list.push("application/x-terminal-emulator");
            },
            DefaultAppOption::TextEditor => {
                list.push("text/plain");
            },
        }
        assert(list.deep_view() =~= spec_mimes(self));
        list
    }
}

/// The MIME types for a command text, or none where the text stands for no
/// category.
pub fn default_app_mimes(key: &str) -> (list: Option<Vec<&'static str>>)
    ensures
        list.deep_view() == spec_mimes_of(key@),
{
    match DefaultAppOption::from_command(key) {
        Some(option) => Some(option.mimes()),
        None => None,
    }
}

/// The command that asks the desktop for the default handler of `mime`.
pub fn query_command(mime: &str, sandboxed: bool) -> (line: CommandLine)
    ensures
        line@ == spec_query_command(mime@, sandboxed),
{
    let mut args: Vec<String> = Vec::new();
    let program = if sandboxed {
        args.push("--host".to_owned());
        args.push("xdg-mime".to_owned());
        "flatpak-spawn".to_owned()
    } else {
        "xdg-mime".to_owned()
    };
    args.push("query".to_owned());
    args.push("default".to_owned());
    args.push(mime.to_owned());
    let line = CommandLine { program, args };
    assert(line@.args =~= spec_query_command(mime@, sandboxed).args);
    line
}

/// The application id that a successful query printed.
pub fn app_id_from_output(stdout: &str) -> (id: String)
    ensures
        id@ == spec_app_id(stdout@),
{
    remove_all(trim(stdout), ".desktop")
}

/// The command that looks for the desktop file of the given name in the
/// application directories of the host.
pub fn find_command(desktop_file: &str) -> (line: CommandLine)
    ensures
        line@ == spec_find_command(desktop_file@),
{
    let mut script =
        "find /usr/share/applications /usr/local/share/applications ~/.local/share/applications /var/lib/flatpak/exports/share/applications ~/.local/share/flatpak/exports/share/applications ~/.var/app/*/data/applications -name '".to_owned();
    script.append(desktop_file);
    script.append("' 2>/dev/null | head -n 1");
    let mut args: Vec<String> = Vec::new();
    args.push("--host".to_owned());
    args.push("sh".to_owned());
    args.push("-c".to_owned());
    args.push(script);
    let line = CommandLine { program: "flatpak-spawn".to_owned(), args };
    assert(line@.args =~= spec_find_command(desktop_file@).args);
    line
}

/// The path that a search printed, or none where it printed nothing but
/// white space.
pub fn found_path(stdout: &str) -> (path: Option<String>)
    ensures
        path.deep_view() == spec_found_path(stdout@),
{
    let t = trim(stdout);
    if t.unicode_len() > 0 {
        Some(t.to_owned())
    } else {
        None
    }
}

/// What one query for a default handler came to.
#[derive(Debug, PartialEq, Eq)]
pub enum QueryResult {
    /// The command could not be run; the error's text.
    Failed(String),
    /// The command ran: whether it reported success, and what it printed.
    Output { success: bool, stdout: String },
}

/// What a search for a default application came to, as plain values.
pub enum SearchOutcomeView {
    /// The desktop named this application.
    Found(Seq<char>),
    /// No query was answered.
    NotFound,
    /// A command could not be run.
    Failed(Seq<char>),
}

/// What a search for a default application came to.
#[derive(Debug, PartialEq, Eq)]
pub enum SearchOutcome {
    /// The desktop named this application.
    Found(String),
    /// No query was answered.
    NotFound,
    /// A command could not be run; the error's text.
    Failed(String),
}

impl DeepView for SearchOutcome {
    type V = SearchOutcomeView;

    open spec fn deep_view(&self) -> SearchOutcomeView {
        match self {
            SearchOutcome::Found(id) => SearchOutcomeView::Found(id@),
            SearchOutcome::NotFound => SearchOutcomeView::NotFound,
            SearchOutcome::Failed(e) => SearchOutcomeView::Failed(e@),
        }
    }
}

impl View for SearchOutcome {
    type V = SearchOutcomeView;

    open spec fn view(&self) -> SearchOutcomeView {
        self.deep_view()
    }
}

/// The id of the desktop entry to look up after a search: the application
/// found, the empty id where none was found, and none at all where the
/// search failed.
pub open spec fn spec_desktop_id(outcome: SearchOutcomeView) -> Option<Seq<char>> {
    match outcome {
        SearchOutcomeView::Found(id) => Some(id),
        SearchOutcomeView::NotFound => Some(Seq::empty()),
        SearchOutcomeView::Failed(_) => None,
    }
}

impl SearchOutcome {
    /// The id of the desktop entry to look up after the search.
    pub fn desktop_id(&self) -> (id: Option<String>)
        ensures
            id.deep_view() == spec_desktop_id(self@),
    {
        match self {
            SearchOutcome::Found(id) => Some(id.clone()),
            SearchOutcome::NotFound => Some(String::new()),
            SearchOutcome::Failed(_) => None,
        }
    }
}

/// What the search does next, as plain values.
pub enum SearchStepView {
    Ask(int, CommandLineView),
    Done(SearchOutcomeView),
}

/// What the search does next.
#[derive(Debug, PartialEq, Eq)]
pub enum SearchStep {
    /// Run this command, which asks about the type at this position.
    Ask(usize, CommandLine),
    /// The search is over.
    Done(SearchOutcome),
}

impl DeepView for SearchStep {
    type V = SearchStepView;

    open spec fn deep_view(&self) -> SearchStepView {
        match self {
            SearchStep::Ask(i, line) => SearchStepView::Ask(*i as int, line@),
            SearchStep::Done(outcome) => SearchStepView::Done(outcome@),
        }
    }
}

impl View for SearchStep {
    type V = SearchStepView;

    open spec fn view(&self) -> SearchStepView {
        self.deep_view()
    }
}

/// The step that asks about the type at `at`, or ends the search where the
/// types are used up.
pub open spec fn spec_ask(mimes: Seq<Seq<char>>, at: int, sandboxed: bool) -> SearchStepView {
    if 0 <= at < mimes.len() {
        SearchStepView::Ask(at, spec_query_command(mimes[at], sandboxed))
    } else {
        SearchStepView::Done(SearchOutcomeView::NotFound)
    }
}

/// The step after the answer to the query about the type at `asked`: a
/// command that could not be run ends the search with its error, a
/// successful query ends it with the application it printed, and after an
/// unsuccessful one the next type is tried.
pub open spec fn spec_after_answer(
    mimes: Seq<Seq<char>>,
    asked: int,
    answer: QueryResult,
    sandboxed: bool,
) -> SearchStepView {
    match answer {
        QueryResult::Failed(e) => SearchStepView::Done(SearchOutcomeView::Failed(e@)),
        QueryResult::Output { success, stdout } => if success {
            SearchStepView::Done(SearchOutcomeView::Found(spec_app_id(stdout@)))
        } else {
            spec_ask(mimes, asked + 1, sandboxed)
        },
    }
}

/// The first step of a search over `mimes`.
pub fn first_query(mimes: &Vec<&'static str>, sandboxed: bool) -> (step: SearchStep)
    ensures
        step@ == spec_ask(mimes.deep_view(), 0, sandboxed),
{
    if mimes.len() > 0 {
        SearchStep::Ask(0, query_command(mimes[0], sandboxed))
    } else {
        SearchStep::Done(SearchOutcome::NotFound)
    }
}

/// The step after the answer to the query about the type at `asked`.
pub fn after_answer(
    mimes: &Vec<&'static str>,
    asked: usize,
    answer: QueryResult,
    sandboxed: bool,
) -> (step: SearchStep)
    ensures
        step@ == spec_after_answer(mimes.deep_view(), asked as int, answer, sandboxed),
{
    match answer {
        QueryResult::Failed(e) => SearchStep::Done(SearchOutcome::Failed(e)),
        QueryResult::Output { success, stdout } => {
            if success {
                SearchStep::Done(SearchOutcome::Found(app_id_from_output(stdout.as_str())))
            } else if asked < mimes.len() && asked + 1 < mimes.len() {
                SearchStep::Ask(asked + 1, query_command(mimes[asked + 1], sandboxed))
            } else {
                SearchStep::Done(SearchOutcome::NotFound)
            }
        },
    }
}

impl Clone for QueryResult {
    fn clone(&self) -> (copy: Self)
        ensures
            copy == *self,
    {
        match self {
            QueryResult::Failed(e) => QueryResult::Failed(e.clone()),
            QueryResult::Output { success, stdout } => QueryResult::Output {
                success: *success,
                stdout: stdout.clone(),
            },
        }
    }
}

/// What a search comes to that stands before the type at `from` of `count`
/// types, `answers` holding what each query gives: the first query that
/// cannot be run or that succeeds decides; types without an answer are not
/// asked about.
pub open spec fn spec_search(answers: Seq<QueryResult>, from: int, count: int)
    -> SearchOutcomeView
    decreases count - from,
{
    if from < 0 || from >= count || from >= answers.len() {
        SearchOutcomeView::NotFound
    } else {
        match answers[from] {
            QueryResult::Failed(e) => SearchOutcomeView::Failed(e@),
            QueryResult::Output { success, stdout } => if success {
                SearchOutcomeView::Found(spec_app_id(stdout@))
            } else {
                spec_search(answers, from + 1, count)
            },
        }
    }
}

/// What the search for the default application of a category comes to,
/// or nothing where the text names no category.
pub open spec fn spec_default_app(default_type: Seq<char>, answers: Seq<QueryResult>) -> Option<
    SearchOutcomeView,
> {
    match spec_mimes_of(default_type) {
        Some(mimes) => Some(spec_search(answers, 0, mimes.len() as int)),
        None => None,
    }
}

/// Searches for the default application of a category, the answers of the
/// desktop being known beforehand: `answers` holds, type by type, what the
/// query about it gives. Nothing where `default_type` names no category.
pub fn get_default_app(default_type: &str, answers: &Vec<QueryResult>) -> (found: Option<
    SearchOutcome,
>)
    ensures
        found.deep_view() == spec_default_app(default_type@, answers@),
{
    let mimes = match default_app_mimes(default_type) {
        Some(mimes) => mimes,
        None => {
            return None;
        },
    };
    let ghost count = mimes.len() as int;
    let mut step = first_query(&mimes, false);
    loop
        invariant
            count == mimes.len(),
            spec_mimes_of(default_type@) == Some(mimes.deep_view()),
            match step@ {
                SearchStepView::Ask(i, _) => 0 <= i < count && spec_search(answers@, 0, count)
                    == spec_search(answers@, i, count),
                SearchStepView::Done(outcome) => outcome == spec_search(answers@, 0, count),
            },
        decreases
                match step@ {
                    SearchStepView::Ask(i, _) => count - i + 1,
                    SearchStepView::Done(_) => 0,
                },
    {
        match step {
            SearchStep::Ask(asked, _) => {
                if asked < answers.len() {
                    assert(asked + 1 >= count ==> spec_search(answers@, asked + 1, count)
                        == SearchOutcomeView::NotFound);
                    step = after_answer(&mimes, asked, answers[asked].clone(), false);
                } else {
                    return Some(SearchOutcome::NotFound);
                }
            },
            SearchStep::Done(outcome) => {
                return Some(outcome);
            },
        }
    }
}

/// A desktop entry, as far as the menu reads it.
#[derive(Debug, PartialEq, Eq)]
pub struct DesktopEntryInfo {
    /// The entry's application id.
    pub appid: String,
    /// The entry's name in the user's language, if it has one.
    pub name: Option<String>,
    /// The entry's command line, if it has one.
    pub exec_line: Option<String>,
}

/// Why no name and command were found for an application, as plain values.
pub enum DesktopErrorView {
    NotFound(Seq<char>),
    Unnamed,
}

/// Why no name and command were found for an application.
#[derive(Debug, PartialEq, Eq)]
pub enum DesktopError {
    /// No entry has the application's id; the message says which id.
    NotFound(String),
    /// The entry of that id has no name.
    Unnamed,
}

impl DeepView for DesktopError {
    type V = DesktopErrorView;

    open spec fn deep_view(&self) -> DesktopErrorView {
        match self {
            DesktopError::NotFound(text) => DesktopErrorView::NotFound(text@),
            DesktopError::Unnamed => DesktopErrorView::Unnamed,
        }
    }
}

impl View for DesktopError {
    type V = DesktopErrorView;

    open spec fn view(&self) -> DesktopErrorView {
        self.deep_view()
    }
}

/// The application ids of the entries in lower case, in the entries'
/// order.
pub open spec fn lowered_ids(entries: Seq<DesktopEntryInfo>) -> Seq<Seq<char>> {
    entries.map_values(|e: DesktopEntryInfo| lowercase(e.appid@))
}

/// The message for an application without an entry.
pub open spec fn not_found_text(app: Seq<char>) -> Seq<char> {
    "Desktop entry for '"@ + app + "' not found"@
}

/// The name and command of an entry, where the entry has a name. A missing
/// command counts as the empty one.
pub open spec fn entry_result(entry: DesktopEntryInfo) -> Result<
    (Seq<char>, Seq<char>),
    DesktopErrorView,
> {
    match entry.name {
        Some(name) => Ok(
            (
                name@,
                match entry.exec_line {
                    Some(line) => line@,
                    None => Seq::empty(),
                },
            ),
        ),
        None => Err(DesktopErrorView::Unnamed),
    }
}

/// The name and command of the first entry whose id is the application's
/// but for the case of letters.
pub open spec fn spec_parse(entries: Seq<DesktopEntryInfo>, app: Seq<char>) -> Result<
    (Seq<char>, Seq<char>),
    DesktopErrorView,
> {
    match position(lowered_ids(entries), lowercase(app)) {
        Some(i) => entry_result(entries[i]),
        None => Err(DesktopErrorView::NotFound(not_found_text(app))),
    }
}

/// A result as plain values.
pub open spec fn parsed_view(r: Result<(String, String), DesktopError>) -> Result<
    (Seq<char>, Seq<char>),
    DesktopErrorView,
> {
    match r {
        Ok((name, line)) => Ok((name@, line@)),
        Err(e) => Err(e@),
    }
}

/// The name and command of an entry. A missing command counts as the
/// empty one; an entry without a name gives none.
pub fn entry_info(entry: &DesktopEntryInfo) -> (result: Result<(String, String), DesktopError>)
    ensures
        parsed_view(result) == entry_result(*entry),
{
    match &entry.name {
        Some(name) => {
            let line = match &entry.exec_line {
                Some(line) => line.clone(),
                None => String::new(),
            };
            Ok((name.clone(), line))
        },
        None => Err(DesktopError::Unnamed),
    }
}

/// The name and the command line of an application, from the first of the
/// desktop entries whose id is the application's but for the case of
/// letters.
pub fn parse_desktop_file(entries: &Vec<DesktopEntryInfo>, app_desktop: &str) -> (result: Result<
    (String, String),
    DesktopError,
>)
    ensures
        parsed_view(result) == spec_parse(entries@, app_desktop@),
{
    let app_lower = to_lowercase(app_desktop);
    let mut ids: Vec<String> = Vec::new();
    let mut i: usize = 0;
    while i < entries.len()
        invariant
            i <= entries.len(),
            ids.len() == i,
            forall|k: int| 0 <= k < i ==> ids[k]@ == lowercase(entries[k].appid@),
        decreases entries.len() - i,
    {
        ids.push(to_lowercase(entries[i].appid.as_str()));
        i = i + 1;
    }
    assert(ids.deep_view() =~= lowered_ids(entries@));
    match find_name(&ids, app_lower.as_str()) {
        Some(found) => {
            proof {
                lemma_position(lowered_ids(entries@), lowercase(app_desktop@), 0);
            }
            entry_info(&entries[found])
        },
        None => {
            let mut text = "Desktop entry for '".to_owned();
            text.append(app_desktop);
            text.append("' not found");
            Err(DesktopError::NotFound(text))
        },
    }
}

/// The name to show for an application: the name of its entry, or nothing
/// where the lookup gave an error.
pub fn resolved_name(parsed: Result<(String, String), DesktopError>) -> (name: Option<String>)
    ensures
        name.deep_view() == (match parsed_view(parsed) {
            Ok(found) => Some(found.0),
            Err(_) => None,
        }),
{
    match parsed {
        Ok((name, _)) => Some(name),
        Err(_) => None,
    }
}

/// The label of a default application, from what the search for it gave
/// and from the desktop entries: the name of the application's entry.
/// There is no label where the text named no category, where the search
/// failed, where no entry is the application's, or where that entry has no
/// name.
pub open spec fn spec_default_app_label(
    found: Option<SearchOutcomeView>,
    entries: Seq<DesktopEntryInfo>,
) -> Option<Seq<char>> {
    match found {
        Some(outcome) => match spec_desktop_id(outcome) {
            Some(id) => match spec_parse(entries, id) {
                Ok(info) => Some(info.0),
                Err(_) => None,
            },
            None => None,
        },
        None => None,
    }
}

/// What is shown for an item's command, the desktop's answers and entries
/// being known beforehand: for a default-application item the label of the
/// application that its command stands for, for any other item the command
/// itself.
pub open spec fn spec_item_label(
    item: MenuItemView,
    answers: Seq<QueryResult>,
    entries: Seq<DesktopEntryInfo>,
) -> Option<Seq<char>> {
    match spec_default_app_key(item) {
        Some(key) => spec_default_app_label(spec_default_app(key, answers), entries),
        None => item.command,
    }
}

/// The label of a default application, from what the search for it gave
/// and from the desktop entries. Nothing that goes wrong on the way is an
/// error: it leaves the application without a label.
pub fn default_app_label(found: Option<SearchOutcome>, entries: &Vec<DesktopEntryInfo>) -> (label:
    Option<String>)
    ensures
        label.deep_view() == spec_default_app_label(found.deep_view(), entries@),
{
    match found {
        Some(outcome) => match outcome.desktop_id() {
            Some(id) => resolved_name(parse_desktop_file(entries, id.as_str())),
            None => None,
        },
        None => None,
    }
}

/// What is shown for an item's command, the desktop's answers and entries
/// being known beforehand.
pub fn item_command_label(
    item: &MenuItem,
    answers: &Vec<QueryResult>,
    entries: &Vec<DesktopEntryInfo>,
) -> (label: Option<String>)
    ensures
        label.deep_view() == spec_item_label(item@, answers@, entries@),
        label.deep_view() == spec_command_label(
            item@,
            spec_default_app_label(
                spec_default_app(text_or_empty(item@.command), answers@),
                entries@,
            ),
        ),
{
    match item.default_app_key() {
        Some(key) => default_app_label(get_default_app(key.as_str(), answers), entries),
        None => item.command(),
    }
}

/// The empty text names no category.
pub proof fn lemma_empty_text_names_no_category()
    ensures
        spec_option_of(Seq::<char>::empty()) is None,
{
    reveal_strlit("WebBrowser");
    assert("WebBrowser"@.len() == 10);
    reveal_strlit("FileManager");
    assert("FileManager"@.len() == 11);
    reveal_strlit("MailClient");
    assert("MailClient"@.len() == 10);
    reveal_strlit("Music");
    assert("Music"@.len() == 5);
    reveal_strlit("Video");
    assert("Video"@.len() == 5);
    reveal_strlit("Photos");
    assert("Photos"@.len() == 6);
    reveal_strlit("Calendar");
    assert("Calendar"@.len() == 8);
    reveal_strlit("Terminal");
    assert("Terminal"@.len() == 8);
    reveal_strlit("TextEditor");
    assert("TextEditor"@.len() == 10);
}

/// A default-application item whose command names no category has no
/// label, whatever the desktop answers.
pub proof fn lemma_unknown_category_has_no_label(
    item: MenuItemView,
    answers: Seq<QueryResult>,
    entries: Seq<DesktopEntryInfo>,
)
    requires
        item.item_type == MenuItemType::DefaultAction,
        spec_option_of(text_or_empty(item.command)) is None,
    ensures
        spec_item_label(item, answers, entries) is None,
{
}

/// A default-application item without a command has no label.
pub proof fn lemma_missing_command_has_no_label(
    item: MenuItemView,
    answers: Seq<QueryResult>,
    entries: Seq<DesktopEntryInfo>,
)
    requires
        item.item_type == MenuItemType::DefaultAction,
        item.command is None,
    ensures
        spec_item_label(item, answers, entries) is None,
{
    lemma_empty_text_names_no_category();
}

} // verus!
