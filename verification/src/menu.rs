//! The application menu and the tray menu: their layout, and what each
//! item id does when it is chosen.
use vstd::prelude::*;
use vstd::string::StringExecFns;
use crate::text::eq_str;

verus! {

broadcast use vstd::string::group_string_axioms;

/// Address opened by "Documentation".
pub const DOCS_URL: &'static str = "https://chat.qwen.ai";

/// Address opened by "GitHub Repository".
pub const GITHUB_URL: &'static str = "https://github.com/youssefvdel/qwen-studio";

/// Script that reloads the main window.
pub const RELOAD_SCRIPT: &'static str = "window.location.reload();";

/// One entry of a submenu.
pub enum MenuEntry {
    /// An item of the app's own, dispatched by its id.
    Item { id: &'static str, label: &'static str, accelerator: Option<&'static str> },
    Separator,
    Undo,
    Redo,
    Cut,
    Copy,
    Paste,
    SelectAll,
    Minimize,
}

/// A submenu of the menu bar.
pub struct Submenu {
    pub id: &'static str,
    pub label: &'static str,
    pub entries: Vec<MenuEntry>,
}

/// The mathematical form of a menu entry.
pub enum EntryView {
    Item(Seq<char>, Seq<char>, Option<Seq<char>>),
    Separator,
    Undo,
    Redo,
    Cut,
    Copy,
    Paste,
    SelectAll,
    Minimize,
}

impl MenuEntry {
    pub open spec fn entry_view(&self) -> EntryView {
        match *self {
            MenuEntry::Item { id, label, accelerator } => EntryView::Item(
                id@,
                label@,
                match accelerator {
                    Some(a) => Some(a@),
                    None => None,
                },
            ),
            MenuEntry::Separator => EntryView::Separator,
            MenuEntry::Undo => EntryView::Undo,
            MenuEntry::Redo => EntryView::Redo,
            MenuEntry::Cut => EntryView::Cut,
            MenuEntry::Copy => EntryView::Copy,
            MenuEntry::Paste => EntryView::Paste,
            MenuEntry::SelectAll => EntryView::SelectAll,
            MenuEntry::Minimize => EntryView::Minimize,
        }
    }
}

impl Submenu {
    pub open spec fn submenu_view(&self) -> (Seq<char>, Seq<char>, Seq<EntryView>) {
        (self.id@, self.label@, self.entries@.map_values(|e: MenuEntry| e.entry_view()))
    }
}

pub open spec fn item(id: Seq<char>, label: Seq<char>, accelerator: Option<Seq<char>>) -> EntryView {
    EntryView::Item(id, label, accelerator)
}

/// The menu bar: File, Edit, View, Window, Help.
pub open spec fn menu_layout() -> Seq<(Seq<char>, Seq<char>, Seq<EntryView>)> {
    seq![
        (
            "file"@,
            "File"@,
            seq![
                item("minimize"@, "Minimize"@, Some("Ctrl+M"@)),
                item("maximize"@, "Maximize"@, Some("Ctrl+Shift+M"@)),
                EntryView::Separator,
                item("quit"@, "Quit"@, Some("Ctrl+Q"@)),
            ],
        ),
        (
            "edit"@,
            "Edit"@,
            seq![
                EntryView::Undo,
                EntryView::Redo,
                EntryView::Separator,
                EntryView::Cut,
                EntryView::Copy,
                EntryView::Paste,
                EntryView::SelectAll,
            ],
        ),
        (
            "view"@,
            "View"@,
            seq![
                item("toggle_devtools"@, "Toggle DevTools"@, Some("F12"@)),
                EntryView::Separator,
                item("reload"@, "Reload"@, Some("Ctrl+R"@)),
            ],
        ),
        (
            "window"@,
            "Window"@,
            seq![
                EntryView::Minimize,
                EntryView::Separator,
                item("toggle_fullscreen"@, "Toggle Fullscreen"@, Some("F11"@)),
            ],
        ),
        (
            "help"@,
            "Help"@,
            seq![
                item("open_docs"@, "Documentation"@, None),
                item("open_github"@, "GitHub Repository"@, None),
                EntryView::Separator,
                item("about"@, "About Qwen Studio"@, None),
            ],
        ),
    ]
}

fn custom_item(id: &'static str, label: &'static str, accelerator: Option<&'static str>) -> (r: MenuEntry)
    ensures
        r.entry_view() == item(
            id@,
            label@,
            match accelerator {
                Some(a) => Some(a@),
                None => None,
            },
        ),
{
    MenuEntry::Item { id, label, accelerator }
}

/// The layout of the menu bar.
pub fn create_menu() -> (r: Vec<Submenu>)
    ensures
        r@.map_values(|s: Submenu| s.submenu_view()) == menu_layout(),
{
    let file = Submenu {
        id: "file",
        label: "File",
        entries: vec![
            custom_item("minimize", "Minimize", Some("Ctrl+M")),
            custom_item("maximize", "Maximize", Some("Ctrl+Shift+M")),
            MenuEntry::Separator,
            custom_item("quit", "Quit", Some("Ctrl+Q")),
        ],
    };
    let edit = Submenu {
        id: "edit",
        label: "Edit",
        entries: vec![
            MenuEntry::Undo,
            MenuEntry::Redo,
            MenuEntry::Separator,
            MenuEntry::Cut,
            MenuEntry::Copy,
            MenuEntry::Paste,
            MenuEntry::SelectAll,
        ],
    };
    let view = Submenu {
        id: "view",
        label: "View",
        entries: vec![
            custom_item("toggle_devtools", "Toggle DevTools", Some("F12")),
            MenuEntry::Separator,
            custom_item("reload", "Reload", Some("Ctrl+R")),
        ],
    };
    let window = Submenu {
        id: "window",
        label: "Window",
        entries: vec![
            MenuEntry::Minimize,
            MenuEntry::Separator,
            custom_item("toggle_fullscreen", "Toggle Fullscreen", Some("F11")),
        ],
    };
    let help = Submenu {
        id: "help",
        label: "Help",
        entries: vec![
            custom_item("open_docs", "Documentation", None),
            custom_item("open_github", "GitHub Repository", None),
            MenuEntry::Separator,
            custom_item("about", "About Qwen Studio", None),
        ],
    };
    assert(file.entries@.map_values(|e: MenuEntry| e.entry_view()) =~= menu_layout()[0].2);
    assert(edit.entries@.map_values(|e: MenuEntry| e.entry_view()) =~= menu_layout()[1].2);
    assert(view.entries@.map_values(|e: MenuEntry| e.entry_view()) =~= menu_layout()[2].2);
    assert(window.entries@.map_values(|e: MenuEntry| e.entry_view()) =~= menu_layout()[3].2);
    assert(help.entries@.map_values(|e: MenuEntry| e.entry_view()) =~= menu_layout()[4].2);
    let r = vec![file, edit, view, window, help];
    assert(r@.map_values(|s: Submenu| s.submenu_view()) =~= menu_layout());
    r
}

/// What choosing a menu item does.
#[derive(Clone, Copy, PartialEq, Eq, Structural, Debug)]
pub enum MenuAction {
    MinimizeMain,
    ToggleMaximizeMain,
    Quit,
    ToggleDevtools,
    /// Run `RELOAD_SCRIPT` in the main window.
    ReloadMain,
    ToggleFullscreen,
    /// Open `DOCS_URL`.
    OpenDocs,
    /// Open `GITHUB_URL`.
    OpenGithub,
    /// Run the about script in the main window.
    ShowAbout,
    Ignore,
}

pub open spec fn menu_action_for(id: Seq<char>) -> MenuAction {
    if id == "minimize"@ {
        MenuAction::MinimizeMain
    } else if id == "maximize"@ {
        MenuAction::ToggleMaximizeMain
    } else if id == "quit"@ {
        MenuAction::Quit
    } else if id == "toggle_devtools"@ {
        MenuAction::ToggleDevtools
    } else if id == "reload"@ {
        MenuAction::ReloadMain
    } else if id == "toggle_fullscreen"@ {
        MenuAction::ToggleFullscreen
    } else if id == "open_docs"@ {
        MenuAction::OpenDocs
    } else if id == "open_github"@ {
        MenuAction::OpenGithub
    } else if id == "about"@ {
        MenuAction::ShowAbout
    } else {
        MenuAction::Ignore
    }
}

/// What the menu item with id `id` does.
pub fn handle_menu_event(id: &str) -> (r: MenuAction)
    ensures
        r == menu_action_for(id@),
{
    if eq_str(id, "minimize") {
        MenuAction::MinimizeMain
    } else if eq_str(id, "maximize") {
        MenuAction::ToggleMaximizeMain
    } else if eq_str(id, "quit") {
        MenuAction::Quit
    } else if eq_str(id, "toggle_devtools") {
        MenuAction::ToggleDevtools
    } else if eq_str(id, "reload") {
        MenuAction::ReloadMain
    } else if eq_str(id, "toggle_fullscreen") {
        MenuAction::ToggleFullscreen
    } else if eq_str(id, "open_docs") {
        MenuAction::OpenDocs
    } else if eq_str(id, "open_github") {
        MenuAction::OpenGithub
    } else if eq_str(id, "about") {
        MenuAction::ShowAbout
    } else {
        MenuAction::Ignore
    }
}

pub open spec fn about_text(version: Seq<char>) -> Seq<char> {
    "alert(\"Qwen Studio v"@ + version
        + "\\n\\nOpen-source Qwen AI desktop client with MCP support.\\nMIT License\");"@
}

/// The about box of the menu bar for app version `version`.
pub fn about_script(version: &str) -> (r: String)
    ensures
        r@ == about_text(version@),
{
    let mut r = String::from_str("alert(\"Qwen Studio v");
    r.append(version);
    r.append("\\n\\nOpen-source Qwen AI desktop client with MCP support.\\nMIT License\");");
    r
}

/// The about box of the title-bar menu for app version `version`.
pub fn titlebar_about_script(version: &str) -> (r: String)
    ensures
        r@ == "alert(\"Qwen Studio v"@ + version@ + "\");"@,
{
    let mut r = String::from_str("alert(\"Qwen Studio v");
    r.append(version);
    r.append("\");");
    r
}

/// Script that reloads the main window from the title-bar menu.
pub const TITLEBAR_RELOAD_SCRIPT: &'static str = "location.reload();";

/// What choosing an item of the title-bar menu does.
#[derive(Clone, Copy, PartialEq, Eq, Structural, Debug)]
pub enum TitlebarAction {
    MinimizeMain,
    ToggleMaximizeMain,
    Quit,
    ToggleDevtools,
    /// Run `TITLEBAR_RELOAD_SCRIPT` in the main window.
    ReloadMain,
    ToggleFullscreen,
    /// Open `DOCS_URL`.
    OpenDocs,
    /// Open `GITHUB_URL`.
    OpenGithub,
    /// Run a manual update check.
    CheckForUpdates,
    /// Run the title-bar about script in the main window.
    ShowAbout,
    /// The item is shown and does nothing.
    Nothing,
}

/// The menu behind the title-bar button: each submenu's title, and its items
/// with what they do. The Edit items are shown and do nothing.
pub open spec fn titlebar_layout() -> Seq<(Seq<char>, Seq<(Seq<char>, TitlebarAction)>)> {
    seq![
        (
            "File"@,
            seq![
                ("Minimize"@, TitlebarAction::MinimizeMain),
                ("Maximize"@, TitlebarAction::ToggleMaximizeMain),
                ("Quit"@, TitlebarAction::Quit),
            ],
        ),
        (
            "Edit"@,
            seq![
                ("Undo"@, TitlebarAction::Nothing),
                ("Redo"@, TitlebarAction::Nothing),
                ("Cut"@, TitlebarAction::Nothing),
                ("Copy"@, TitlebarAction::Nothing),
                ("Paste"@, TitlebarAction::Nothing),
                ("Select All"@, TitlebarAction::Nothing),
            ],
        ),
        (
            "View"@,
            seq![
                ("Toggle DevTools"@, TitlebarAction::ToggleDevtools),
                ("Reload"@, TitlebarAction::ReloadMain),
            ],
        ),
        ("Window"@, seq![("Toggle Fullscreen"@, TitlebarAction::ToggleFullscreen)]),
        (
            "Help"@,
            seq![
                ("Documentation"@, TitlebarAction::OpenDocs),
                ("GitHub"@, TitlebarAction::OpenGithub),
                ("Check for Updates"@, TitlebarAction::CheckForUpdates),
                ("About"@, TitlebarAction::ShowAbout),
            ],
        ),
    ]
}

/// The items of one submenu as plain texts and actions.
pub open spec fn titlebar_items_view(items: Seq<(&'static str, TitlebarAction)>) -> Seq<
    (Seq<char>, TitlebarAction),
> {
    items.map_values(|e: (&'static str, TitlebarAction)| (e.0@, e.1))
}

/// The menu behind the title-bar button.
pub fn titlebar_menu() -> (r: Vec<(&'static str, Vec<(&'static str, TitlebarAction)>)>)
    ensures
        r@.map_values(
            |s: (&'static str, Vec<(&'static str, TitlebarAction)>)|
                (s.0@, titlebar_items_view(s.1@)),
        ) == titlebar_layout(),
{
    let file = vec![
        ("Minimize", TitlebarAction::MinimizeMain),
        ("Maximize", TitlebarAction::ToggleMaximizeMain),
        ("Quit", TitlebarAction::Quit),
    ];
    let edit = vec![
        ("Undo", TitlebarAction::Nothing),
        ("Redo", TitlebarAction::Nothing),
        ("Cut", TitlebarAction::Nothing),
        ("Copy", TitlebarAction::Nothing),
        ("Paste", TitlebarAction::Nothing),
        ("Select All", TitlebarAction::Nothing),
    ];
    let view = vec![("Toggle DevTools", TitlebarAction::ToggleDevtools), ("Reload", TitlebarAction::ReloadMain)];
    let window = vec![("Toggle Fullscreen", TitlebarAction::ToggleFullscreen)];
    let help = vec![
        ("Documentation", TitlebarAction::OpenDocs),
        ("GitHub", TitlebarAction::OpenGithub),
        ("Check for Updates", TitlebarAction::CheckForUpdates),
        ("About", TitlebarAction::ShowAbout),
    ];
    let ghost layout = titlebar_layout();
    assert(titlebar_items_view(file@) =~= layout[0].1);
    assert(titlebar_items_view(edit@) =~= layout[1].1);
    assert(titlebar_items_view(view@) =~= layout[2].1);
    assert(titlebar_items_view(window@) =~= layout[3].1);
    assert(titlebar_items_view(help@) =~= layout[4].1);
    let r = vec![("File", file), ("Edit", edit), ("View", view), ("Window", window), ("Help", help)];
    assert(r@.map_values(
        |s: (&'static str, Vec<(&'static str, TitlebarAction)>)|
            (s.0@, titlebar_items_view(s.1@)),
    ) =~= layout);
    r
}

/// The items of the tray menu: id and label.
pub open spec fn tray_layout() -> Seq<(Seq<char>, Seq<char>)> {
    seq![("new_window"@, "New Window"@), ("show"@, "Show"@), ("quit"@, "Quit"@)]
}

/// The items of the tray menu.
pub fn setup_tray() -> (r: Vec<(&'static str, &'static str)>)
    ensures
        r@.map_values(|p: (&'static str, &'static str)| (p.0@, p.1@)) == tray_layout(),
{
    let r = vec![("new_window", "New Window"), ("show", "Show"), ("quit", "Quit")];
    assert(r@.map_values(|p: (&'static str, &'static str)| (p.0@, p.1@)) =~= tray_layout());
    r
}

/// What choosing a tray item does.
#[derive(Clone, Copy, PartialEq, Eq, Structural, Debug)]
pub enum TrayAction {
    OpenNewWindow,
    ShowMain,
    Quit,
    Ignore,
}

pub open spec fn tray_action_for(id: Seq<char>) -> TrayAction {
    if id == "new_window"@ {
        TrayAction::OpenNewWindow
    } else if id == "show"@ {
        TrayAction::ShowMain
    } else if id == "quit"@ {
        TrayAction::Quit
    } else {
        TrayAction::Ignore
    }
}

/// What the tray item with id `id` does.
pub fn tray_menu_event(id: &str) -> (r: TrayAction)
    ensures
        r == tray_action_for(id@),
{
    if eq_str(id, "new_window") {
        TrayAction::OpenNewWindow
    } else if eq_str(id, "show") {
        TrayAction::ShowMain
    } else if eq_str(id, "quit") {
        TrayAction::Quit
    } else {
        TrayAction::Ignore
    }
}

/// Every item of the menu bar that the app defines does something when
/// chosen.
pub proof fn lemma_menu_items_are_handled()
    ensures
        forall|i: int, j: int|
            #![trigger menu_layout()[i].2[j]]
            0 <= i < menu_layout().len() && 0 <= j < menu_layout()[i].2.len()
                ==> (menu_layout()[i].2[j] matches EntryView::Item(id, _, _) ==> menu_action_for(id)
                != MenuAction::Ignore),
{
    reveal_strlit("minimize");
    reveal_strlit("maximize");
    reveal_strlit("quit");
    reveal_strlit("toggle_devtools");
    reveal_strlit("reload");
    reveal_strlit("toggle_fullscreen");
    reveal_strlit("open_docs");
    reveal_strlit("open_github");
    reveal_strlit("about");
    assert("minimize"@.len() == 8 && "maximize"@.len() == 8 && "quit"@.len() == 4);
    assert("minimize"@[1] == 'i' && "maximize"@[1] == 'a');
    assert("toggle_devtools"@.len() == 15 && "reload"@.len() == 6 && "toggle_fullscreen"@.len()
        == 17);
    assert("open_docs"@.len() == 9 && "open_github"@.len() == 11 && "about"@.len() == 5);
    assert("reload"@[0] == 'r');
    assert(menu_action_for("minimize"@) == MenuAction::MinimizeMain);
    assert(menu_action_for("maximize"@) == MenuAction::ToggleMaximizeMain);
    assert(menu_action_for("quit"@) == MenuAction::Quit);
    assert(menu_action_for("toggle_devtools"@) == MenuAction::ToggleDevtools);
    assert(menu_action_for("reload"@) == MenuAction::ReloadMain);
    assert(menu_action_for("toggle_fullscreen"@) == MenuAction::ToggleFullscreen);
    assert(menu_action_for("open_docs"@) == MenuAction::OpenDocs);
    assert(menu_action_for("open_github"@) == MenuAction::OpenGithub);
    assert(menu_action_for("about"@) == MenuAction::ShowAbout);
}

/// Every item of the tray menu does something when chosen.
pub proof fn lemma_tray_items_are_handled()
    ensures
        forall|i: int|
            0 <= i < tray_layout().len() ==> tray_action_for(#[trigger] tray_layout()[i].0)
                != TrayAction::Ignore,
{
    reveal_strlit("new_window");
    reveal_strlit("show");
    reveal_strlit("quit");
    assert("new_window"@.len() == 10 && "show"@.len() == 4 && "quit"@.len() == 4);
    assert("show"@[0] == 's' && "quit"@[0] == 'q');
    assert(tray_action_for("new_window"@) == TrayAction::OpenNewWindow);
    assert(tray_action_for("show"@) == TrayAction::ShowMain);
    assert(tray_action_for("quit"@) == TrayAction::Quit);
}

/// The keyboard shortcut each item of the menu bar carries, by item id:
/// Minimize Ctrl+M, Maximize Ctrl+Shift+M, Quit Ctrl+Q, Toggle DevTools
/// F12, Reload Ctrl+R, Toggle Fullscreen F11, and none for the Help items.
pub proof fn lemma_menu_accelerators()
    ensures
        forall|i: int, j: int|
            #![trigger menu_layout()[i].2[j]]
            0 <= i < menu_layout().len() && 0 <= j < menu_layout()[i].2.len()
                ==> (menu_layout()[i].2[j] matches EntryView::Item(id, _, acc) ==> {
                &&& id == "minimize"@ ==> acc == Some("Ctrl+M"@)
                &&& id == "maximize"@ ==> acc == Some("Ctrl+Shift+M"@)
                &&& id == "quit"@ ==> acc == Some("Ctrl+Q"@)
                &&& id == "toggle_devtools"@ ==> acc == Some("F12"@)
                &&& id == "reload"@ ==> acc == Some("Ctrl+R"@)
                &&& id == "toggle_fullscreen"@ ==> acc == Some("F11"@)
                &&& (id == "open_docs"@ || id == "open_github"@ || id == "about"@) ==> acc is None
            }),
        exists|i: int, j: int|
            #![trigger menu_layout()[i].2[j]]
            0 <= i < menu_layout().len() && 0 <= j < menu_layout()[i].2.len() && (
            menu_layout()[i].2[j] matches EntryView::Item(id, _, _) && id == "toggle_devtools"@),
        exists|i: int, j: int|
            #![trigger menu_layout()[i].2[j]]
            0 <= i < menu_layout().len() && 0 <= j < menu_layout()[i].2.len() && (
            menu_layout()[i].2[j] matches EntryView::Item(id, _, _) && id == "toggle_fullscreen"@),
{
    reveal_strlit("minimize");
    reveal_strlit("maximize");
    reveal_strlit("quit");
    reveal_strlit("toggle_devtools");
    reveal_strlit("reload");
    reveal_strlit("toggle_fullscreen");
    reveal_strlit("open_docs");
    reveal_strlit("open_github");
    reveal_strlit("about");
    assert("minimize"@.len() == 8 && "maximize"@.len() == 8 && "quit"@.len() == 4);
    assert("minimize"@[1] == 'i' && "maximize"@[1] == 'a');
    assert("toggle_devtools"@.len() == 15 && "reload"@.len() == 6 && "toggle_fullscreen"@.len()
        == 17);
    assert("open_docs"@.len() == 9 && "open_github"@.len() == 11 && "about"@.len() == 5);
    let l = menu_layout();
    assert(l[2].2[0] matches EntryView::Item(id, _, _) && id == "toggle_devtools"@);
    assert(l[3].2[2] matches EntryView::Item(id, _, _) && id == "toggle_fullscreen"@);
}

/// Each item of the menu bar does what its label says: Minimize minimizes
/// the main window, Quit quits, Toggle DevTools toggles the DevTools, and
/// so on.
pub proof fn lemma_menu_items_do_what_they_say()
    ensures
        forall|i: int, j: int|
            #![trigger menu_layout()[i].2[j]]
            0 <= i < menu_layout().len() && 0 <= j < menu_layout()[i].2.len()
                ==> (menu_layout()[i].2[j] matches EntryView::Item(id, label, _) ==> {
                &&& label == "Minimize"@ ==> menu_action_for(id) == MenuAction::MinimizeMain
                &&& label == "Maximize"@ ==> menu_action_for(id) == MenuAction::ToggleMaximizeMain
                &&& label == "Quit"@ ==> menu_action_for(id) == MenuAction::Quit
                &&& label == "Toggle DevTools"@ ==> menu_action_for(id) == MenuAction::ToggleDevtools
                &&& label == "Reload"@ ==> menu_action_for(id) == MenuAction::ReloadMain
                &&& label == "Toggle Fullscreen"@ ==> menu_action_for(id) == MenuAction::ToggleFullscreen
                &&& label == "Documentation"@ ==> menu_action_for(id) == MenuAction::OpenDocs
                &&& label == "GitHub Repository"@ ==> menu_action_for(id) == MenuAction::OpenGithub
                &&& label == "About Qwen Studio"@ ==> menu_action_for(id) == MenuAction::ShowAbout
            }),
{
    reveal_strlit("minimize");
    reveal_strlit("Minimize");
    reveal_strlit("maximize");
    reveal_strlit("Maximize");
    reveal_strlit("quit");
    reveal_strlit("Quit");
    reveal_strlit("toggle_devtools");
    reveal_strlit("Toggle DevTools");
    reveal_strlit("reload");
    reveal_strlit("Reload");
    reveal_strlit("toggle_fullscreen");
    reveal_strlit("Toggle Fullscreen");
    reveal_strlit("open_docs");
    reveal_strlit("Documentation");
    reveal_strlit("open_github");
    reveal_strlit("GitHub Repository");
    reveal_strlit("about");
    reveal_strlit("About Qwen Studio");
    assert("minimize"@.len() == 8 && "maximize"@.len() == 8 && "quit"@.len() == 4);
    assert("minimize"@[1] == 'i' && "maximize"@[1] == 'a');
    assert("toggle_devtools"@.len() == 15 && "reload"@.len() == 6 && "toggle_fullscreen"@.len()
        == 17);
    assert("open_docs"@.len() == 9 && "open_github"@.len() == 11 && "about"@.len() == 5);
    assert("reload"@[0] == 'r');
    assert("Minimize"@.len() == 8);
    assert("Maximize"@.len() == 8);
    assert("Quit"@.len() == 4);
    assert("Toggle DevTools"@.len() == 15);
    assert("Reload"@.len() == 6);
    assert("Toggle Fullscreen"@.len() == 17);
    assert("Documentation"@.len() == 13);
    assert("GitHub Repository"@.len() == 17);
    assert("About Qwen Studio"@.len() == 17);
    assert("Minimize"@[1] == 'i' && "Maximize"@[1] == 'a');
    assert("Toggle Fullscreen"@[0] == 'T' && "GitHub Repository"@[0] == 'G' && "About Qwen Studio"@[0]
        == 'A');
    assert(menu_action_for("minimize"@) == MenuAction::MinimizeMain);
    assert(menu_action_for("maximize"@) == MenuAction::ToggleMaximizeMain);
    assert(menu_action_for("quit"@) == MenuAction::Quit);
    assert(menu_action_for("toggle_devtools"@) == MenuAction::ToggleDevtools);
    assert(menu_action_for("reload"@) == MenuAction::ReloadMain);
    assert(menu_action_for("toggle_fullscreen"@) == MenuAction::ToggleFullscreen);
    assert(menu_action_for("open_docs"@) == MenuAction::OpenDocs);
    assert(menu_action_for("open_github"@) == MenuAction::OpenGithub);
    assert(menu_action_for("about"@) == MenuAction::ShowAbout);
}

/// Each item of the title-bar menu does what its label says; the Edit items
/// do nothing.
pub proof fn lemma_titlebar_items_do_what_they_say()
    ensures
        forall|i: int, j: int|
            #![trigger titlebar_layout()[i].1[j]]
            0 <= i < titlebar_layout().len() && 0 <= j < titlebar_layout()[i].1.len() ==> {
                let e = titlebar_layout()[i].1[j];
                &&& e.0 == "Minimize"@ ==> e.1 == TitlebarAction::MinimizeMain
                &&& e.0 == "Maximize"@ ==> e.1 == TitlebarAction::ToggleMaximizeMain
                &&& e.0 == "Quit"@ ==> e.1 == TitlebarAction::Quit
                &&& e.0 == "Undo"@ ==> e.1 == TitlebarAction::Nothing
                &&& e.0 == "Redo"@ ==> e.1 == TitlebarAction::Nothing
                &&& e.0 == "Cut"@ ==> e.1 == TitlebarAction::Nothing
                &&& e.0 == "Copy"@ ==> e.1 == TitlebarAction::Nothing
                &&& e.0 == "Paste"@ ==> e.1 == TitlebarAction::Nothing
                &&& e.0 == "Select All"@ ==> e.1 == TitlebarAction::Nothing
                &&& e.0 == "Toggle DevTools"@ ==> e.1 == TitlebarAction::ToggleDevtools
                &&& e.0 == "Reload"@ ==> e.1 == TitlebarAction::ReloadMain
                &&& e.0 == "Toggle Fullscreen"@ ==> e.1 == TitlebarAction::ToggleFullscreen
                &&& e.0 == "Documentation"@ ==> e.1 == TitlebarAction::OpenDocs
                &&& e.0 == "GitHub"@ ==> e.1 == TitlebarAction::OpenGithub
                &&& e.0 == "Check for Updates"@ ==> e.1 == TitlebarAction::CheckForUpdates
                &&& e.0 == "About"@ ==> e.1 == TitlebarAction::ShowAbout
            },
{
    reveal_strlit("Minimize");
    reveal_strlit("Maximize");
    reveal_strlit("Quit");
    reveal_strlit("Undo");
    reveal_strlit("Redo");
    reveal_strlit("Cut");
    reveal_strlit("Copy");
    reveal_strlit("Paste");
    reveal_strlit("Select All");
    reveal_strlit("Toggle DevTools");
    reveal_strlit("Reload");
    reveal_strlit("Toggle Fullscreen");
    reveal_strlit("Documentation");
    reveal_strlit("GitHub");
    reveal_strlit("Check for Updates");
    reveal_strlit("About");
    assert("Minimize"@.len() == 8);
    assert("Maximize"@.len() == 8);
    assert("Quit"@.len() == 4);
    assert("Undo"@.len() == 4);
    assert("Redo"@.len() == 4);
    assert("Cut"@.len() == 3);
    assert("Copy"@.len() == 4);
    assert("Paste"@.len() == 5);
    assert("Select All"@.len() == 10);
    assert("Toggle DevTools"@.len() == 15);
    assert("Reload"@.len() == 6);
    assert("Toggle Fullscreen"@.len() == 17);
    assert("Documentation"@.len() == 13);
    assert("GitHub"@.len() == 6);
    assert("Check for Updates"@.len() == 17);
    assert("About"@.len() == 5);
    assert("Undo"@[0] == 'U' && "Redo"@[0] == 'R' && "Copy"@[0] == 'C' && "Quit"@[0] == 'Q');
    assert("Paste"@[0] == 'P' && "About"@[0] == 'A');
    assert("Minimize"@[1] == 'i' && "Maximize"@[1] == 'a');
    assert("Toggle Fullscreen"@[0] == 'T' && "Check for Updates"@[0] == 'C');
    assert("Reload"@[0] == 'R' && "GitHub"@[0] == 'G');
}

/// Each item of the tray menu does what its label says.
pub proof fn lemma_tray_items_do_what_they_say()
    ensures
        forall|i: int|
            #![trigger tray_layout()[i]]
            0 <= i < tray_layout().len() ==> {
                &&& tray_layout()[i].1 == "New Window"@ ==> tray_action_for(tray_layout()[i].0) == TrayAction::OpenNewWindow
                &&& tray_layout()[i].1 == "Show"@ ==> tray_action_for(tray_layout()[i].0) == TrayAction::ShowMain
                &&& tray_layout()[i].1 == "Quit"@ ==> tray_action_for(tray_layout()[i].0) == TrayAction::Quit
            },
{
    reveal_strlit("new_window");
    reveal_strlit("New Window");
    reveal_strlit("show");
    reveal_strlit("Show");
    reveal_strlit("quit");
    reveal_strlit("Quit");
    assert("new_window"@.len() == 10 && "show"@.len() == 4 && "quit"@.len() == 4);
    assert("New Window"@.len() == 10 && "Show"@.len() == 4 && "Quit"@.len() == 4);
    assert("show"@[0] == 's' && "quit"@[0] == 'q' && "Show"@[0] == 'S' && "Quit"@[0] == 'Q');
}

} // verus!
