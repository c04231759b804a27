use vstd::prelude::*;
use crate::models::{List, ListView, Message, Tasks, TasksView, Themes};
use crate::text::{trim_ws, trimmed};

verus! {

/// The messages that belong to the open list of tasks rather than to the
/// overview of lists.
pub open spec fn is_task_message(msg: Message) -> bool {
    match msg {
        Message::Forward(_) | Message::AddAfter(_) | Message::UpdateNewTitle(_)
        | Message::ConfirmAdd | Message::CancelAdd | Message::Remove(_)
        | Message::ChangeTitle(_) | Message::ConfirmEdit | Message::CancelEdit => true,
        _ => false,
    }
}

/// A fresh, empty list of tasks with the given title.
pub open spec fn fresh_tasks(title: Seq<char>) -> TasksView {
    TasksView {
        title,
        list: Seq::empty(),
        adding_after: None,
        new_title: Seq::empty(),
        editing: None,
    }
}

impl ListView {
    /// Where a list confirmed now is inserted: right after the position the
    /// add started from, or at the end when that position is past the last list.
    pub open spec fn insert_position(self) -> int {
        let at: int = match self.adding_after {
            Some(a) => a as int,
            None => self.lists.len() as int,
        };
        if at >= self.lists.len() {
            self.lists.len() as int
        } else {
            at + 1
        }
    }

    /// Whether the open list can take a delegated message.
    pub open spec fn has_open_list(self) -> bool {
        match self.selected {
            Some(sel) => sel < self.lists.len(),
            None => false,
        }
    }

    /// What the application state becomes when it handles `msg`.
    pub open spec fn after(self, msg: Message) -> ListView {
        match msg {
            Message::AddListAfter(i) => ListView {
                adding_after: Some(i),
                new_title: Seq::empty(),
                ..self
            },
            Message::UpdateListTitle(t) => ListView { new_title: t@, ..self },
            Message::ConfirmAddList => {
                let t = trim_ws(self.new_title);
                ListView {
                    lists: if t.len() > 0 {
                        self.lists.insert(self.insert_position(), fresh_tasks(t))
                    } else {
                        self.lists
                    },
                    new_title: Seq::empty(),
                    adding_after: None,
                    ..self
                }
            },
            Message::CancelAddList => ListView {
                new_title: Seq::empty(),
                adding_after: None,
                ..self
            },
            Message::RemoveList(i) => if i < self.lists.len() {
                ListView { lists: self.lists.remove(i as int), ..self }
            } else {
                self
            },
            Message::ChangeListTitle(i) => if i < self.lists.len() {
                ListView { editing: Some(i), ..self }
            } else {
                self
            },
            Message::ConfirmListEdit => match self.editing {
                Some(i) => ListView {
                    lists: if i < self.lists.len() {
                        self.lists.update(
                            i as int,
                            TasksView { title: self.new_title, ..self.lists[i as int] },
                        )
                    } else {
                        self.lists
                    },
                    editing: None,
                    new_title: Seq::empty(),
                    ..self
                },
                None => self,
            },
            Message::CancelListEdit => ListView {
                editing: None,
                new_title: Seq::empty(),
                ..self
            },
            Message::SelectList(i) => if i < self.lists.len() {
                ListView { selected: Some(i), ..self }
            } else {
                self
            },
            Message::BackToLists => ListView {
                lists: self.lists.map_values(|t: TasksView| t.without_drafts()),
                selected: None,
                adding_after: None,
                new_title: Seq::empty(),
                editing: None,
                ..self
            },
            Message::ThemeChanged(theme) => ListView { selected_theme: Some(theme), ..self },
            _ => if self.has_open_list() {
                let sel = self.selected.unwrap() as int;
                ListView { lists: self.lists.update(sel, self.lists[sel].after(msg)), ..self }
            } else {
                self
            },
        }
    }

    /// Whether handling `msg` changes what is kept on disk, so that the state
    /// has to be written out afterwards.
    pub open spec fn persists(self, msg: Message) -> bool {
        match msg {
            Message::ConfirmAddList => trim_ws(self.new_title).len() > 0,
            Message::RemoveList(i) => i < self.lists.len(),
            Message::ConfirmListEdit => self.editing is Some,
            Message::ThemeChanged(_) => true,
            _ => is_task_message(msg) && self.has_open_list(),
        }
    }

    /// The theme shown: the chosen one, or the default theme when none was chosen.
    pub open spec fn shown_theme(self) -> Themes {
        match self.selected_theme {
            Some(t) => t,
            None => Themes::Default,
        }
    }
}

impl List {
    /// The theme the interface is drawn with.
    pub fn app_theme(&self) -> (r: Themes)
        ensures
            r == self@.shown_theme(),
    {
        match self.selected_theme {
            Some(t) => t,
            None => Themes::Default,
        }
    }

    /// Handles one message. Messages of the task level go to the open list,
    /// and are dropped when no list is open. Indices out of range are ignored.
    /// Returns whether the state must now be saved.
    pub fn update(&mut self, msg: Message) -> (persist: bool)
        ensures
            final(self)@ == old(self)@.after(msg),
            persist == old(self)@.persists(msg),
    {
        let ghost pre = self@;
        let ghost m = msg;
        let mut persist = false;
        match msg {
            Message::AddListAfter(index) => {
                self.adding_after = Some(index);
                self.new_title = String::new();
            },
            Message::UpdateListTitle(title) => {
                self.new_title = title;
            },
            Message::ConfirmAddList => {
                let title = trimmed(self.new_title.as_str()).to_owned();
                if !title.as_str().is_empty() {
                    let ghost old_lists = self.lists@;
                    let mut new_list = Tasks::default();
                    new_list.title = title;
                    let len = self.lists.len();
                    let insert_at = match self.adding_after {
                        Some(a) => a,
                        None => len,
                    };
                    if insert_at >= len {
                        self.lists.push(new_list);
                    } else {
                        self.lists.insert(insert_at + 1, new_list);
                    }
                    assert(self.lists@.map_values(|t: Tasks| t@) =~= old_lists.map_values(
                        |t: Tasks| t@,
                    ).insert(pre.insert_position(), fresh_tasks(trim_ws(pre.new_title))));
                    persist = true;
                }
                self.new_title = String::new();
                self.adding_after = None;
            },
            Message::CancelAddList => {
                self.new_title = String::new();
                self.adding_after = None;
            },
            Message::RemoveList(index) => {
                if index < self.lists.len() {
                    let ghost old_lists = self.lists@;
                    self.lists.remove(index);
                    assert(self.lists@.map_values(|t: Tasks| t@) =~= old_lists.map_values(
                        |t: Tasks| t@,
                    ).remove(index as int));
                    persist = true;
                }
            },
            Message::ChangeListTitle(index) => {
                if index < self.lists.len() {
                    self.editing = Some(index);
                }
            },
            Message::ConfirmListEdit => {
                if let Some(index) = self.editing.take() {
                    if index < self.lists.len() {
                        let ghost old_lists = self.lists@;
                        self.lists[index].title = self.new_title.clone();
                        assert(self.lists@.map_values(|t: Tasks| t@) =~= old_lists.map_values(
                            |t: Tasks| t@,
                        ).update(index as int, self.lists@[index as int]@));
                    }
                    self.new_title = String::new();
                    persist = true;
                }
            },
            Message::CancelListEdit => {
                self.editing = None;
                self.new_title = String::new();
            },
            Message::SelectList(index) => {
                if index < self.lists.len() {
                    self.selected = Some(index);
                }
            },
            Message::BackToLists => {
                self.selected = None;
                self.adding_after = None;
                self.new_title = String::new();
                self.editing = None;
                let mut k: usize = 0;
                while k < self.lists.len()
                    invariant
                        k <= self.lists.len(),
                        self.lists.len() == pre.lists.len(),
                        self.selected is None,
                        self.adding_after is None,
                        self.new_title@ == Seq::<char>::empty(),
                        self.editing is None,
                        self.themes@ == pre.themes,
                        self.selected_theme == pre.selected_theme,
                        forall|j: int|
                            0 <= j < k ==> (#[trigger] self.lists@[j])@
                                == pre.lists[j].without_drafts(),
                        forall|j: int|
                            k <= j < self.lists.len() ==> (#[trigger] self.lists@[j])@
                                == pre.lists[j],
                    decreases self.lists.len() - k,
                {
                    self.lists[k].clear_drafts();
                    k = k + 1;
                }
                assert(self@.lists =~= pre.lists.map_values(|t: TasksView| t.without_drafts()));
            },
            Message::ThemeChanged(theme) => {
                self.selected_theme = Some(theme);
                persist = true;
            },
            _ => {
                if let Some(sel) = self.selected {
                    if sel < self.lists.len() {
                        let ghost old_lists = self.lists@;
                        self.lists[sel].update(msg);
                        assert(self.lists@.map_values(|t: Tasks| t@) =~= old_lists.map_values(
                            |t: Tasks| t@,
                        ).update(sel as int, self.lists@[sel as int]@));
                        persist = true;
                    }
                }
            },
        }
        assert(self@ =~= pre.after(m));
        persist
    }
}

} // verus!
