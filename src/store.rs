use vstd::prelude::*;
use crate::models::{List, ListView, Task, Tasks, TasksView, Themes};
use crate::text::{trim_ws, trimmed};

verus! {

/// Every theme, in the order in which they are offered.
pub open spec fn catalog() -> Seq<Themes> {
    seq![
        Themes::Default,
        Themes::Dark,
        Themes::Light,
        Themes::SolarizedDark,
        Themes::SolarizedLight,
        Themes::GruvboxDark,
        Themes::GruvboxLight,
        Themes::KanagawaWave,
        Themes::KanagawaDragon,
        Themes::KanagawaLotus,
        Themes::TokyoNight,
        Themes::TokyoNightLight,
        Themes::TokyoNightStorm,
        Themes::Moonfly,
        Themes::Nightfly,
        Themes::Nord,
        Themes::Ferra,
        Themes::Dracula,
        Themes::Oxocarbon,
    ]
}

/// A state with no list, no selection, no editing and no chosen theme.
pub open spec fn blank_state(themes: Seq<Themes>) -> ListView {
    ListView {
        lists: Seq::empty(),
        selected: None,
        adding_after: None,
        new_title: Seq::empty(),
        editing: None,
        themes,
        selected_theme: None,
    }
}

/// The title a migrated list gets: its own, or a placeholder when that is blank.
pub open spec fn migrated_title(title: Seq<char>) -> Seq<char> {
    if trim_ws(title).len() == 0 {
        "Unnamed"@
    } else {
        title
    }
}

impl TasksView {
    /// The part of a list of tasks that is written to disk.
    pub open spec fn saved(self) -> TasksView {
        self.without_drafts()
    }
}

impl ListView {
    /// The part of the state that is written to disk: the lists with their
    /// tasks, the theme catalog and the chosen theme.
    pub open spec fn saved(self) -> ListView {
        ListView {
            lists: self.lists.map_values(|t: TasksView| t.saved()),
            selected: None,
            adding_after: None,
            new_title: Seq::empty(),
            editing: None,
            ..self
        }
    }

    /// A state read back from disk, with the theme catalog restored and no
    /// selection or editing state.
    pub open spec fn restored(self) -> ListView {
        ListView {
            themes: catalog(),
            selected: None,
            adding_after: None,
            new_title: Seq::empty(),
            editing: None,
            ..self
        }
    }
}

/// The state that a single list of the older file format becomes.
pub open spec fn migrated(legacy: TasksView) -> ListView {
    ListView {
        lists: seq![TasksView { title: migrated_title(legacy.title), ..legacy }],
        ..blank_state(catalog())
    }
}

/// What was found where the state is kept.
pub enum Stored {
    /// The current file, read and parsed.
    Current(List),
    /// A current file that could not be read or parsed.
    Unreadable,
    /// No current file, but a file of the older single-list format, parsed.
    Legacy(Tasks),
    /// Neither file, or no place to look for them.
    Missing,
}

/// The state that loading gives for what was found, and whether that state
/// must be written out at once in the current format.
pub open spec fn load_result(found: Stored) -> (ListView, bool) {
    match found {
        Stored::Current(l) => (l@.restored(), false),
        Stored::Legacy(t) => (migrated(t@), true),
        _ => (blank_state(catalog()), false),
    }
}

/// Every theme, in the order in which they are offered.
pub fn theme_catalog() -> (r: Vec<Themes>)
    ensures
        r@ == catalog(),
{
    let r = vec![
        Themes::Default,
        Themes::Dark,
        Themes::Light,
        Themes::SolarizedDark,
        Themes::SolarizedLight,
        Themes::GruvboxDark,
        Themes::GruvboxLight,
        Themes::KanagawaWave,
        Themes::KanagawaDragon,
        Themes::KanagawaLotus,
        Themes::TokyoNight,
        Themes::TokyoNightLight,
        Themes::TokyoNightStorm,
        Themes::Moonfly,
        Themes::Nightfly,
        Themes::Nord,
        Themes::Ferra,
        Themes::Dracula,
        Themes::Oxocarbon,
    ];
    assert(r@ =~= catalog());
    r
}

impl Task {
    /// A copy of the task.
    pub fn duplicate(&self) -> (r: Task)
        ensures
            r@ == self@,
    {
        Task { title: self.title.clone(), status: self.status }
    }
}

impl Tasks {
    /// The part of the list that is written to disk: its title and a copy of
    /// its tasks, with no editing state.
    pub fn to_saved(&self) -> (r: Tasks)
        ensures
            r@ == self@.saved(),
    {
        let mut list: Vec<Task> = Vec::new();
        let mut i: usize = 0;
        while i < self.list.len()
            invariant
                i <= self.list.len(),
                list@.map_values(|t: Task| t@) == self@.list.take(i as int),
            decreases self.list.len() - i,
        {
            let ghost before = list@;
            list.push(self.list[i].duplicate());
            assert(list@.map_values(|t: Task| t@) =~= before.map_values(|t: Task| t@).push(
                self.list@[i as int]@,
            ));
            assert(self@.list.take(i + 1) =~= self@.list.take(i as int).push(self.list@[i as int]@));
            i = i + 1;
        }
        assert(self@.list.take(self.list.len() as int) =~= self@.list);
        Tasks {
            title: self.title.clone(),
            list,
            adding_after: None,
            new_title: String::new(),
            editing: None,
        }
    }
}

impl List {
    /// The part of the state that is written to disk: the lists with their
    /// tasks, the theme catalog and the chosen theme, and no selection or
    /// editing state.
    pub fn to_saved(&self) -> (r: List)
        ensures
            r@ == self@.saved(),
    {
        let mut lists: Vec<Tasks> = Vec::new();
        let mut i: usize = 0;
        while i < self.lists.len()
            invariant
                i <= self.lists.len(),
                lists@.map_values(|t: Tasks| t@) == self@.lists.take(i as int).map_values(
                    |t: TasksView| t.saved(),
                ),
            decreases self.lists.len() - i,
        {
            let ghost before = lists@;
            lists.push(self.lists[i].to_saved());
            assert(lists@.map_values(|t: Tasks| t@) =~= before.map_values(|t: Tasks| t@).push(
                self.lists@[i as int]@.saved(),
            ));
            assert(self@.lists.take(i + 1).map_values(|t: TasksView| t.saved())
                =~= self@.lists.take(i as int).map_values(|t: TasksView| t.saved()).push(
                self.lists@[i as int]@.saved(),
            ));
            i = i + 1;
        }
        assert(self@.lists.take(self.lists.len() as int) =~= self@.lists);
        let mut themes: Vec<Themes> = Vec::new();
        let mut j: usize = 0;
        while j < self.themes.len()
            invariant
                j <= self.themes.len(),
                themes@ == self.themes@.take(j as int),
            decreases self.themes.len() - j,
        {
            themes.push(self.themes[j]);
            assert(self.themes@.take(j + 1) =~= self.themes@.take(j as int).push(self.themes@[j as int]));
            j = j + 1;
        }
        assert(self.themes@.take(self.themes.len() as int) =~= self.themes@);
        List {
            lists,
            selected: None,
            adding_after: None,
            new_title: String::new(),
            editing: None,
            themes,
            selected_theme: self.selected_theme,
        }
    }

    /// A state with no list and no theme.
    pub fn new() -> (r: List)
        ensures
            r@ == blank_state(Seq::empty()),
    {
        List::new_with_themes(Vec::new())
    }

    /// A state with no list that offers `themes`.
    pub fn new_with_themes(themes: Vec<Themes>) -> (r: List)
        ensures
            r@ == blank_state(themes@),
    {
        let r = List {
            themes,
            lists: Vec::new(),
            selected: None,
            adding_after: None,
            new_title: String::new(),
            editing: None,
            selected_theme: None,
        };
        assert(r@.lists =~= Seq::<TasksView>::empty());
        r
    }

    /// Builds the state from what was found on disk. A parsed current file is
    /// kept with the catalog restored and its editing state cleared; a file of
    /// the older format becomes the only list, and must be saved at once (the
    /// second result); anything else gives an empty state.
    pub fn load_from(found: Stored) -> (r: (List, bool))
        ensures
            r.0@ == load_result(found).0,
            r.1 == load_result(found).1,
    {
        let themes = theme_catalog();
        match found {
            Stored::Current(mut app) => {
                app.themes = themes;
                app.selected = None;
                app.adding_after = None;
                app.new_title = String::new();
                app.editing = None;
                (app, false)
            },
            Stored::Legacy(mut legacy) => {
                if trimmed(legacy.title.as_str()).is_empty() {
                    legacy.title = "Unnamed".to_owned();
                }
                let mut app = List::new_with_themes(themes);
                app.lists.push(legacy);
                assert(app@.lists =~= seq![app.lists@[0]@]);
                (app, true)
            },
            _ => (List::new_with_themes(themes), false),
        }
    }
}

impl Default for List {
    /// An empty state that offers every theme.
    fn default() -> (r: List)
        ensures
            r@ == blank_state(catalog()),
    {
        List::new_with_themes(theme_catalog())
    }
}

} // verus!
