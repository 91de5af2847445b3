use vstd::prelude::*;

verus! {

// ---------------------------------------------------------------------------
// Stable identifiers and titles of the tray menu entries.
// ---------------------------------------------------------------------------

/// Identifier of the entry whose title reflects whether the timer runs.
pub open spec fn toggle_timer_id() -> Seq<char> {
    "toggleTimer"@
}

/// Identifier of the launch-on-startup entry.
pub open spec fn launch_on_startup_id() -> Seq<char> {
    "launchOnStartup"@
}

/// Identifier of the notification-sound entry.
pub open spec fn play_sound_id() -> Seq<char> {
    "playSound"@
}

/// Identifier of the About entry; a click on it shows the main window.
pub open spec fn show_about_id() -> Seq<char> {
    "showAbout"@
}

/// Identifier of the Quit entry; a click on it ends the process.
pub open spec fn quit_id() -> Seq<char> {
    "quit"@
}

/// Title of the toggle-timer entry while the timer runs.
pub open spec fn stop_timer_title() -> Seq<char> {
    "Stop the timer"@
}

/// Title of the toggle-timer entry while the timer is stopped.
pub open spec fn start_timer_title() -> Seq<char> {
    "Start the timer"@
}

// ---------------------------------------------------------------------------
// The menu data model and its view.
// ---------------------------------------------------------------------------

/// One selectable tray entry: a stable identifier, the displayed title, and
/// the checked flag used by toggle-style entries.
#[derive(Clone, Debug, PartialEq, Eq)]
pub struct MenuItem {
    pub id: String,
    pub title: String,
    pub selected: bool,
}

/// Mathematical image of a `MenuItem`.
pub ghost struct MenuItemView {
    pub id: Seq<char>,
    pub title: Seq<char>,
    pub selected: bool,
}

impl View for MenuItem {
    type V = MenuItemView;

    open spec fn view(&self) -> MenuItemView {
        MenuItemView { id: self.id@, title: self.title@, selected: self.selected }
    }
}

/// One node of the tray menu: a selectable entry or a non-interactive
/// separator between entries.
#[derive(Clone, Debug, PartialEq, Eq)]
pub enum MenuNode {
    Item(MenuItem),
    Separator,
}

/// Mathematical image of a `MenuNode`.
pub ghost enum MenuNodeView {
    Item(MenuItemView),
    Separator,
}

impl View for MenuNode {
    type V = MenuNodeView;

    open spec fn view(&self) -> MenuNodeView {
        match self {
            MenuNode::Item(it) => MenuNodeView::Item(it@),
            MenuNode::Separator => MenuNodeView::Separator,
        }
    }
}

/// The ordered tray menu definition. The OS tray owns the real menu; this
/// value mirrors the attributes the shell may read or change.
#[derive(Clone, Debug, PartialEq, Eq)]
pub struct TrayMenu {
    pub nodes: Vec<MenuNode>,
}

impl View for TrayMenu {
    type V = Seq<MenuNodeView>;

    open spec fn view(&self) -> Seq<MenuNodeView> {
        self.nodes@.map_values(|n: MenuNode| n@)
    }
}

// ---------------------------------------------------------------------------
// Predicates over menus.
// ---------------------------------------------------------------------------

/// `n` is a selectable entry whose identifier is `id`.
pub open spec fn node_has_id(n: MenuNodeView, id: Seq<char>) -> bool {
    n matches MenuNodeView::Item(it) && it.id == id
}

/// Some entry of `m` has the identifier `id`.
pub open spec fn menu_has_item(m: Seq<MenuNodeView>, id: Seq<char>) -> bool {
    exists|i: int| 0 <= i < m.len() && node_has_id(m[i], id)
}

/// No two distinct entries of `m` share an identifier.
pub open spec fn distinct_item_ids(m: Seq<MenuNodeView>) -> bool {
    forall|i: int, j: int, id: Seq<char>|
        0 <= i < m.len() && 0 <= j < m.len()
            && #[trigger] node_has_id(m[i], id) && #[trigger] node_has_id(m[j], id)
            ==> i == j
}

impl TrayMenu {
    /// A menu is well formed when its entry identifiers are pairwise
    /// distinct, so that an identifier names at most one entry.
    pub open spec fn wf(self) -> bool {
        distinct_item_ids(self@)
    }
}

// ---------------------------------------------------------------------------
// The initial menu definition.
// ---------------------------------------------------------------------------

/// The menu as built at startup: five entries separated by separators, every
/// checked flag off, the toggle-timer entry titled for a running timer.
pub open spec fn initial_menu() -> Seq<MenuNodeView> {
    seq![
        MenuNodeView::Item(
            MenuItemView { id: toggle_timer_id(), title: stop_timer_title(), selected: false },
        ),
        MenuNodeView::Separator,
        MenuNodeView::Item(
            MenuItemView {
                id: launch_on_startup_id(),
                title: "Launch the application on system startup"@,
                selected: false,
            },
        ),
        MenuNodeView::Separator,
        MenuNodeView::Item(
            MenuItemView {
                id: play_sound_id(),
                title: "Play sounds with notifications"@,
                selected: false,
            },
        ),
        MenuNodeView::Separator,
        MenuNodeView::Item(
            MenuItemView { id: show_about_id(), title: "About Blinker"@, selected: false },
        ),
        MenuNodeView::Separator,
        MenuNodeView::Item(MenuItemView { id: quit_id(), title: "Quit"@, selected: false }),
    ]
}

/// The five entry identifiers are pairwise distinct.
pub proof fn lemma_menu_ids_distinct()
    ensures
        toggle_timer_id() != launch_on_startup_id(),
        toggle_timer_id() != play_sound_id(),
        toggle_timer_id() != show_about_id(),
        toggle_timer_id() != quit_id(),
        launch_on_startup_id() != play_sound_id(),
        launch_on_startup_id() != show_about_id(),
        launch_on_startup_id() != quit_id(),
        play_sound_id() != show_about_id(),
        play_sound_id() != quit_id(),
        show_about_id() != quit_id(),
{
    reveal_strlit("toggleTimer");
    reveal_strlit("launchOnStartup");
    reveal_strlit("playSound");
    reveal_strlit("showAbout");
    reveal_strlit("quit");
    assert(toggle_timer_id().len() == 11);
    assert(launch_on_startup_id().len() == 15);
    assert(play_sound_id().len() == 9);
    assert(show_about_id().len() == 9);
    assert(quit_id().len() == 4);
    assert(play_sound_id()[0] != show_about_id()[0]);
}

/// The startup menu is well formed.
pub proof fn lemma_initial_menu_wf()
    ensures
        distinct_item_ids(initial_menu()),
{
    lemma_menu_ids_distinct();
    let m = initial_menu();
    assert forall|i: int, j: int, id: Seq<char>|
        0 <= i < m.len() && 0 <= j < m.len()
            && #[trigger] node_has_id(m[i], id) && #[trigger] node_has_id(m[j], id)
            implies i == j
    by {
        assert(m.len() == 9);
    }
}

/// Build the tray menu shown at startup.
pub fn build_menu() -> (m: TrayMenu)
    ensures
        m@ == initial_menu(),
        m.wf(),
{
    let mut nodes: Vec<MenuNode> = Vec::new();
    nodes.push(
        MenuNode::Item(
            MenuItem {
                id: "toggleTimer".to_owned(),
                title: "Stop the timer".to_owned(),
                selected: false,
            },
        ),
    );
    nodes.push(MenuNode::Separator);
    nodes.push(
        MenuNode::Item(
            MenuItem {
                id: "launchOnStartup".to_owned(),
                title: "Launch the application on system startup".to_owned(),
                selected: false,
            },
        ),
    );
    nodes.push(MenuNode::Separator);
    nodes.push(
        MenuNode::Item(
            MenuItem {
                id: "playSound".to_owned(),
                title: "Play sounds with notifications".to_owned(),
                selected: false,
            },
        ),
    );
    nodes.push(MenuNode::Separator);
    nodes.push(
        MenuNode::Item(
            MenuItem { id: "showAbout".to_owned(), title: "About Blinker".to_owned(), selected: false },
        ),
    );
    nodes.push(MenuNode::Separator);
    nodes.push(
        MenuNode::Item(
            MenuItem { id: "quit".to_owned(), title: "Quit".to_owned(), selected: false },
        ),
    );
    let m = TrayMenu { nodes };
    proof {
        assert(m@ =~= initial_menu());
        lemma_initial_menu_wf();
    }
    m
}

} // verus!
