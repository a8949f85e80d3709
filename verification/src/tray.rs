//! The quick-access menu: which projects it lists, what it shows, and what
//! a click on it asks for.

use crate::json::{json_document, parse_json, Json};
use crate::text::{same_text, starts_with_seq, starts_with_text};
use vstd::prelude::*;
use vstd::string::*;

verus! {

/// A project as the quick-access menu knows it.
#[derive(Debug, Clone, PartialEq, Eq)]
pub struct TrayProject {
    pub id: String,
    pub name: String,
    pub path: String,
}

/// A project of the menu as text: identifier, name and path.
pub type TrayView = (Seq<char>, Seq<char>, Seq<char>);

impl View for TrayProject {
    type V = TrayView;

    open spec fn view(&self) -> TrayView {
        (self.id@, self.name@, self.path@)
    }
}

/// The projects as text, in order.
pub open spec fn tray_view(projects: Seq<TrayProject>) -> Seq<TrayView> {
    Seq::new(projects.len(), |i: int| projects[i]@)
}

/// How many projects the menu looks at.
pub const TRAY_LIMIT: usize = 10;

/// The folder, below the data folder of the user, that holds the list of
/// projects.
pub fn storage_folder() -> (r: &'static str)
    ensures
        r@ == "com.devlaunch.app"@,
{
    "com.devlaunch.app"
}

/// The file that holds the list of projects.
pub fn storage_file() -> (r: &'static str)
    ensures
        r@ == "projects.json"@,
{
    "projects.json"
}

/// Whether a stored project is archived: only where it says so.
pub open spec fn archived(project: Json) -> bool {
    project.member("isArchived"@) == Some(Json::Bool(true))
}

/// The text that a stored project holds under `key`.
pub open spec fn stored_text(project: Json, key: Seq<char>) -> Option<Seq<char>> {
    match project.member(key) {
        Some(Json::Text(t)) => Some(t@),
        _ => None,
    }
}

/// A stored project as the menu knows it, where it has an identifier, a
/// name and a path.
pub open spec fn stored_project(project: Json) -> Option<TrayView> {
    match (stored_text(project, "id"@), stored_text(project, "name"@), stored_text(project, "path"@)) {
        (Some(id), Some(name), Some(path)) => Some((id, name, path)),
        _ => None,
    }
}

/// The stored projects that are not archived, in their order.
pub open spec fn open_projects(stored: Seq<Json>) -> Seq<Json>
    decreases stored.len(),
{
    if stored.len() == 0 {
        Seq::empty()
    } else if archived(stored.last()) {
        open_projects(stored.drop_last())
    } else {
        open_projects(stored.drop_last()).push(stored.last())
    }
}

/// The complete ones among some stored projects, as the menu knows them.
pub open spec fn complete_projects(stored: Seq<Json>) -> Seq<TrayView>
    decreases stored.len(),
{
    if stored.len() == 0 {
        Seq::empty()
    } else {
        match stored_project(stored.last()) {
            Some(project) => complete_projects(stored.drop_last()).push(project),
            None => complete_projects(stored.drop_last()),
        }
    }
}

/// The first `n` of some items, or all of them where they are fewer.
pub open spec fn first(items: Seq<Json>, n: nat) -> Seq<Json> {
    if items.len() <= n {
        items
    } else {
        items.take(n as int)
    }
}

/// The projects of the menu: of the stored projects that are not archived
/// the first ten, and of these the complete ones. A store that is no list
/// gives none.
pub open spec fn menu_projects(store: Json) -> Seq<TrayView> {
    match store {
        Json::Array(stored) => complete_projects(first(open_projects(stored@), TRAY_LIMIT as nat)),
        _ => Seq::empty(),
    }
}

proof fn lemma_open_projects_grow(stored: Seq<Json>, i: int)
    requires
        0 <= i <= stored.len(),
    ensures
        open_projects(stored.take(i)).len() <= open_projects(stored).len(),
        open_projects(stored.take(i)) == open_projects(stored).take(
            open_projects(stored.take(i)).len() as int,
        ),
    decreases stored.len(),
{
    if i == stored.len() {
        assert(stored.take(i) =~= stored);
        assert(open_projects(stored).take(open_projects(stored).len() as int) =~= open_projects(
            stored,
        ));
    } else {
        assert(stored.drop_last().take(i) =~= stored.take(i));
        lemma_open_projects_grow(stored.drop_last(), i);
        let part = open_projects(stored.take(i));
        let most = open_projects(stored.drop_last());
        assert(part == most.take(part.len() as int));
        if archived(stored.last()) {
        } else {
            assert(most.push(stored.last()).take(part.len() as int) =~= most.take(
                part.len() as int,
            ));
        }
    }
}

fn stored_string(project: &Json, key: &str) -> (r: Option<String>)
    ensures
        match r {
            Some(t) => stored_text(*project, key@) == Some(t@),
            None => stored_text(*project, key@) is None,
        },
{
    match project.get(key) {
        Some(Json::Text(t)) => Some(t.clone()),
        _ => None,
    }
}

fn is_archived(project: &Json) -> (r: bool)
    ensures
        r == archived(*project),
{
    match project.get("isArchived") {
        Some(Json::Bool(flag)) => *flag,
        _ => false,
    }
}

fn read_project(project: &Json) -> (r: Option<TrayProject>)
    ensures
        match r {
            Some(p) => stored_project(*project) == Some(p@),
            None => stored_project(*project) is None,
        },
{
    let id = stored_string(project, "id");
    let name = stored_string(project, "name");
    let path = stored_string(project, "path");
    match (id, name, path) {
        (Some(id), Some(name), Some(path)) => Some(TrayProject { id, name, path }),
        _ => None,
    }
}

/// The projects that the menu lists, from the stored list of projects.
pub fn tray_projects(store: &Json) -> (r: Vec<TrayProject>)
    ensures
        tray_view(r@) == menu_projects(*store),
{
    let mut listed: Vec<TrayProject> = Vec::new();
    match store {
        Json::Array(stored) => {
            let mut seen: usize = 0;
            let mut i: usize = 0;
            assert(stored@.take(0) =~= Seq::<Json>::empty());
            assert(tray_view(listed@) =~= Seq::<TrayView>::empty());
            while i < stored.len() && seen < TRAY_LIMIT
                invariant
                    i <= stored.len(),
                    seen <= TRAY_LIMIT,
                    seen == open_projects(stored@.take(i as int)).len(),
                    tray_view(listed@) == complete_projects(open_projects(stored@.take(i as int))),
                decreases stored.len() - i,
            {
                let ghost before = stored@.take(i as int);
                let ghost after = stored@.take(i + 1);
                assert(after.drop_last() =~= before);
                assert(after.last() == stored@[i as int]);
                if !is_archived(&stored[i]) {
                    seen = seen + 1;
                    assert(open_projects(after).drop_last() =~= open_projects(before));
                    let ghost shown = tray_view(listed@);
                    match read_project(&stored[i]) {
                        Some(project) => {
                            listed.push(project);
                            assert(tray_view(listed@) =~= shown.push(project@));
                        },
                        None => {},
                    }
                }
                i = i + 1;
            }
            proof {
                let part = open_projects(stored@.take(i as int));
                let all = open_projects(stored@);
                lemma_open_projects_grow(stored@, i as int);
                if i == stored.len() {
                    assert(stored@.take(i as int) =~= stored@);
                } else {
                    assert(part.len() == TRAY_LIMIT);
                    if all.len() <= TRAY_LIMIT {
                        assert(all.take(part.len() as int) =~= all);
                    }
                }
                assert(part == first(all, TRAY_LIMIT as nat));
            }
        },
        _ => {
            assert(tray_view(listed@) =~= Seq::<TrayView>::empty());
        },
    }
    listed
}

/// The projects of the menu from the text of the stored list; none where
/// the text is no JSON.
pub open spec fn stored_menu_projects(content: Seq<char>) -> Seq<TrayView> {
    match json_document(content) {
        Ok(store) => menu_projects(store),
        Err(_) => Seq::empty(),
    }
}

/// The projects that the menu lists, from the text of the stored list of
/// projects; `None` where the list could not be read.
pub fn load_projects_for_tray(content: Option<&str>) -> (r: Vec<TrayProject>)
    ensures
        tray_view(r@) == match content {
            Some(text) => stored_menu_projects(text@),
            None => Seq::empty(),
        },
{
    let none: Vec<TrayProject> = Vec::new();
    assert(tray_view(none@) =~= Seq::<TrayView>::empty());
    match content {
        Some(text) => match parse_json(text) {
            Ok(store) => tray_projects(&store),
            Err(_) => none,
        },
        None => none,
    }
}

/// One line of the menu.
#[derive(Debug, Clone, PartialEq, Eq)]
pub enum MenuEntry {
    /// A line to click on, or to read where it is not enabled.
    Item { id: String, label: String, enabled: bool },
    /// A line that parts the menu.
    Separator,
}

/// A line of the menu as text.
pub enum MenuView {
    Item { id: Seq<char>, label: Seq<char>, enabled: bool },
    Separator,
}

impl View for MenuEntry {
    type V = MenuView;

    open spec fn view(&self) -> MenuView {
        match self {
            MenuEntry::Item { id, label, enabled } => MenuView::Item {
                id: id@,
                label: label@,
                enabled: *enabled,
            },
            MenuEntry::Separator => MenuView::Separator,
        }
    }
}

/// The lines as text, in order.
pub open spec fn menu_view(entries: Seq<MenuEntry>) -> Seq<MenuView> {
    Seq::new(entries.len(), |i: int| entries[i]@)
}

/// The head of the menu.
pub open spec fn menu_head() -> Seq<MenuView> {
    seq![
        MenuView::Item { id: "header"@, label: "── Quick Open ──"@, enabled: false },
        MenuView::Separator,
    ]
}

/// The foot of the menu.
pub open spec fn menu_foot() -> Seq<MenuView> {
    seq![
        MenuView::Separator,
        MenuView::Item { id: "show"@, label: "Show Window"@, enabled: true },
        MenuView::Item { id: "quit"@, label: "Quit DevLaunch"@, enabled: true },
    ]
}

/// The line of a project: a click on it opens the project.
pub open spec fn project_line(project: TrayView) -> MenuView {
    MenuView::Item { id: "open:"@ + project.2, label: "📁 "@ + project.1, enabled: true }
}

/// The lines of the projects; one line that says so where there are none.
pub open spec fn menu_body(projects: Seq<TrayView>) -> Seq<MenuView> {
    if projects.len() == 0 {
        seq![MenuView::Item { id: "no_projects"@, label: "No projects yet"@, enabled: false }]
    } else {
        Seq::new(projects.len(), |i: int| project_line(projects[i]))
    }
}

/// The menu: head, projects, foot.
pub open spec fn menu_lines(projects: Seq<TrayView>) -> Seq<MenuView> {
    menu_head() + menu_body(projects) + menu_foot()
}

fn item(id: &str, label: &str, enabled: bool) -> (r: MenuEntry)
    ensures
        r@ == (MenuView::Item { id: id@, label: label@, enabled }),
{
    MenuEntry::Item { id: String::from_str(id), label: String::from_str(label), enabled }
}

/// The lines of the quick-access menu for the projects that it lists.
pub fn tray_menu(projects: &Vec<TrayProject>) -> (r: Vec<MenuEntry>)
    ensures
        menu_view(r@) == menu_lines(tray_view(projects@)),
{
    let mut menu: Vec<MenuEntry> = Vec::new();
    menu.push(item("header", "── Quick Open ──", false));
    menu.push(MenuEntry::Separator);
    assert(menu_view(menu@) =~= menu_head());
    if projects.len() == 0 {
        menu.push(item("no_projects", "No projects yet", false));
        assert(menu_view(menu@) =~= menu_head() + menu_body(tray_view(projects@)));
    } else {
        let mut i: usize = 0;
        while i < projects.len()
            invariant
                i <= projects.len(),
                menu@.len() == 2 + i,
                menu_view(menu@).take(2) == menu_head(),
                forall|k: int|
                    2 <= k < 2 + i ==> (#[trigger] menu@[k])@ == project_line(projects@[k - 2]@),
            decreases projects.len() - i,
        {
            let ghost before = menu_view(menu@);
            let mut id = String::from_str("open:");
            id.append(projects[i].path.as_str());
            let mut label = String::from_str("📁 ");
            label.append(projects[i].name.as_str());
            let entry = MenuEntry::Item { id, label, enabled: true };
            menu.push(entry);
            assert(menu_view(menu@).take(2) =~= before.take(2));
            i = i + 1;
        }
        assert(menu_view(menu@) =~= menu_view(menu@).take(2) + menu_body(tray_view(projects@)));
    }
    let ghost above = menu_view(menu@);
    menu.push(MenuEntry::Separator);
    menu.push(item("show", "Show Window", true));
    menu.push(item("quit", "Quit DevLaunch", true));
    assert(menu_view(menu@) =~= above + menu_foot());
    menu
}

/// What a click on a line of the menu asks for.
#[derive(Debug, Clone, PartialEq, Eq)]
pub enum TrayAction {
    /// Leave the application.
    Quit,
    /// Show the main window.
    Show,
    /// Open the project at `path` in the editor.
    Open { path: String },
    /// Nothing.
    Ignore,
}

/// A request of the menu as text.
pub enum ActionView {
    Quit,
    Show,
    Open { path: Seq<char> },
    Ignore,
}

impl View for TrayAction {
    type V = ActionView;

    open spec fn view(&self) -> ActionView {
        match self {
            TrayAction::Quit => ActionView::Quit,
            TrayAction::Show => ActionView::Show,
            TrayAction::Open { path } => ActionView::Open { path: path@ },
            TrayAction::Ignore => ActionView::Ignore,
        }
    }
}

/// What a click on the line with the identifier `id` asks for. The line of
/// a project carries the path of the project behind `open:`.
pub open spec fn action_for(id: Seq<char>) -> ActionView {
    if id == "quit"@ {
        ActionView::Quit
    } else if id == "show"@ {
        ActionView::Show
    } else if starts_with_seq(id, "open:"@) {
        ActionView::Open { path: id.skip(5) }
    } else {
        ActionView::Ignore
    }
}

/// Tells what a click on the line with the identifier `id` asks for.
pub fn tray_action(id: &str) -> (r: TrayAction)
    ensures
        r@ == action_for(id@),
{
    if same_text(id, "quit") {
        TrayAction::Quit
    } else if same_text(id, "show") {
        TrayAction::Show
    } else if starts_with_text(id, "open:") {
        proof {
            reveal_strlit("open:");
        }
        let n = id.unicode_len();
        let path = id.substring_char(5, n);
        assert(id@.subrange(5, n as int) =~= id@.skip(5));
        TrayAction::Open { path: String::from_str(path) }
    } else {
        TrayAction::Ignore
    }
}

} // verus!
