use vstd::prelude::*;

verus! {

/// Progress of a single task.
#[derive(Debug, Clone, Copy, PartialEq, Eq, Structural, PartialOrd)]
pub enum Status {
    Pending,
    InProgress,
    Complete,
}

impl Default for Status {
    fn default() -> (r: Self)
        ensures
            r == Status::Pending,
    {
        Status::Pending
    }
}

/// The status a task moves to when it is advanced: once started, a task
/// toggles between in progress and complete and never returns to pending.
pub open spec fn advanced(s: Status) -> Status {
    match s {
        Status::Pending => Status::InProgress,
        Status::InProgress => Status::Complete,
        Status::Complete => Status::InProgress,
    }
}

/// The display themes a user can pick from.
#[derive(Debug, Clone, Copy, PartialEq, Eq, Structural)]
pub enum Themes {
    Default,
    KanagawaWave,
    KanagawaDragon,
    KanagawaLotus,
    Nord,
    Ferra,
    Dracula,
    Dark,
    Light,
    SolarizedDark,
    SolarizedLight,
    GruvboxDark,
    GruvboxLight,
    Moonfly,
    Nightfly,
    Oxocarbon,
    TokyoNight,
    TokyoNightLight,
    TokyoNightStorm,
}

impl Default for Themes {
    fn default() -> (r: Self)
        ensures
            r == Themes::Default,
    {
        Themes::Default
    }
}

/// A single to-do item.
#[derive(Debug)]
pub struct Task {
    pub title: String,
    pub status: Status,
}

/// One named to-do list together with its editing state.
#[derive(Debug)]
pub struct Tasks {
    pub title: String,
    pub list: Vec<Task>,
    pub adding_after: Option<usize>,
    pub new_title: String,
    pub editing: Option<usize>,
}

/// Every list of the application, the open one, the theme choice and the
/// editing state of the overview.
#[derive(Debug)]
pub struct List {
    pub lists: Vec<Tasks>,
    pub selected: Option<usize>,
    pub adding_after: Option<usize>,
    pub new_title: String,
    pub editing: Option<usize>,
    pub themes: Vec<Themes>,
    pub selected_theme: Option<Themes>,
}

/// The actions that the user interface hands to `update`.
#[derive(Debug, Clone)]
pub enum Message {
    Forward(usize),
    AddAfter(usize),
    UpdateNewTitle(String),
    ConfirmAdd,
    CancelAdd,
    Remove(usize),
    ChangeTitle(usize),
    ConfirmEdit,
    CancelEdit,
    ThemeChanged(Themes),
    SelectList(usize),
    BackToLists,
    AddListAfter(usize),
    UpdateListTitle(String),
    ConfirmAddList,
    CancelAddList,
    RemoveList(usize),
    ChangeListTitle(usize),
    ConfirmListEdit,
    CancelListEdit,
}

/// A task as the contracts see it.
pub struct TaskView {
    pub title: Seq<char>,
    pub status: Status,
}

/// A list of tasks as the contracts see it.
pub struct TasksView {
    pub title: Seq<char>,
    pub list: Seq<TaskView>,
    pub adding_after: Option<usize>,
    pub new_title: Seq<char>,
    pub editing: Option<usize>,
}

/// The application state as the contracts see it.
pub struct ListView {
    pub lists: Seq<TasksView>,
    pub selected: Option<usize>,
    pub adding_after: Option<usize>,
    pub new_title: Seq<char>,
    pub editing: Option<usize>,
    pub themes: Seq<Themes>,
    pub selected_theme: Option<Themes>,
}

impl View for Task {
    type V = TaskView;

    open spec fn view(&self) -> TaskView {
        TaskView { title: self.title@, status: self.status }
    }
}

impl View for Tasks {
    type V = TasksView;

    open spec fn view(&self) -> TasksView {
        TasksView {
            title: self.title@,
            list: self.list@.map_values(|t: Task| t@),
            adding_after: self.adding_after,
            new_title: self.new_title@,
            editing: self.editing,
        }
    }
}

impl View for List {
    type V = ListView;

    open spec fn view(&self) -> ListView {
        ListView {
            lists: self.lists@.map_values(|t: Tasks| t@),
            selected: self.selected,
            adding_after: self.adding_after,
            new_title: self.new_title@,
            editing: self.editing,
            themes: self.themes@,
            selected_theme: self.selected_theme,
        }
    }
}

} // verus!
