use vstd::prelude::*;
use crate::models::{advanced, Message, Status, Task, TaskView, Tasks, TasksView};
use crate::text::{trim_ws, trimmed};

verus! {

impl TasksView {
    /// The list with no draft, no add and no edit in progress.
    pub open spec fn without_drafts(self) -> TasksView {
        TasksView { adding_after: None, new_title: Seq::empty(), editing: None, ..self }
    }

    /// What a list of tasks becomes when it handles `msg`.
    pub open spec fn after(self, msg: Message) -> TasksView {
        match msg {
            Message::AddAfter(i) => TasksView { adding_after: Some(i), ..self },
            Message::UpdateNewTitle(t) => TasksView { new_title: t@, ..self },
            Message::ConfirmAdd => {
                let t = trim_ws(self.new_title);
                TasksView {
                    list: if t.len() > 0 {
                        self.list.push(TaskView { title: t, status: Status::Pending })
                    } else {
                        self.list
                    },
                    new_title: Seq::empty(),
                    adding_after: None,
                    ..self
                }
            },
            Message::CancelAdd => TasksView { new_title: Seq::empty(), adding_after: None, ..self },
            Message::Remove(i) => if i < self.list.len() {
                TasksView { list: self.list.remove(i as int), ..self }
            } else {
                self
            },
            Message::Forward(i) => if i < self.list.len() {
                let t = self.list[i as int];
                TasksView {
                    list: self.list.update(i as int, TaskView { status: advanced(t.status), ..t }),
                    ..self
                }
            } else {
                self
            },
            Message::ChangeTitle(i) => if i < self.list.len() {
                TasksView { editing: Some(i), ..self }
            } else {
                self
            },
            Message::ConfirmEdit => match self.editing {
                Some(i) => TasksView {
                    list: if i < self.list.len() {
                        self.list.update(
                            i as int,
                            TaskView { title: self.new_title, ..self.list[i as int] },
                        )
                    } else {
                        self.list
                    },
                    editing: None,
                    new_title: Seq::empty(),
                    ..self
                },
                None => self,
            },
            Message::CancelEdit => TasksView { editing: None, new_title: Seq::empty(), ..self },
            _ => self,
        }
    }
}

impl Task {
    /// Advances the status on `Forward`; ignores every other message.
    pub fn update(&mut self, msg: Message)
        ensures
            final(self).title == old(self).title,
            final(self).status == (if msg is Forward {
                advanced(old(self).status)
            } else {
                old(self).status
            }),
    {
        match msg {
            Message::Forward(_) => {
                self.status =
                match self.status {
                    Status::Pending => Status::InProgress,
                    Status::InProgress => Status::Complete,
                    Status::Complete => Status::InProgress,
                };
            },
            _ => {},
        }
    }
}

impl Tasks {
    /// Drops the draft title and any add or edit in progress.
    pub fn clear_drafts(&mut self)
        ensures
            final(self)@ == old(self)@.without_drafts(),
    {
        self.adding_after = None;
        self.new_title = String::new();
        self.editing = None;
    }

    /// Handles one message of the task level; indices out of range are ignored.
    pub fn update(&mut self, msg: Message)
        ensures
            final(self)@ == old(self)@.after(msg),
    {
        let ghost pre = self@;
        match msg {
            Message::AddAfter(index) => {
                self.adding_after = Some(index);
            },
            Message::UpdateNewTitle(title) => {
                self.new_title = title;
            },
            Message::ConfirmAdd => {
                let title = trimmed(self.new_title.as_str()).to_owned();
                if !title.as_str().is_empty() {
                    let ghost old_list = self.list@;
                    let task = Task { title, status: Status::Pending };
                    self.list.push(task);
                    assert(self.list@.map_values(|t: Task| t@) =~= old_list.map_values(
                        |t: Task| t@,
                    ).push(task@));
                }
                self.new_title = String::new();
                self.adding_after = None;
            },
            Message::CancelAdd => {
                self.new_title = String::new();
                self.adding_after = None;
            },
            Message::Remove(index) => {
                if index < self.list.len() {
                    let ghost old_list = self.list@;
                    self.list.remove(index);
                    assert(self.list@.map_values(|t: Task| t@) =~= old_list.map_values(
                        |t: Task| t@,
                    ).remove(index as int));
                }
            },
            Message::Forward(index) => {
                if index < self.list.len() {
                    let ghost old_list = self.list@;
                    self.list[index].update(Message::Forward(index));
                    assert(self.list@.map_values(|t: Task| t@) =~= old_list.map_values(
                        |t: Task| t@,
                    ).update(index as int, self.list@[index as int]@));
                }
            },
            Message::ChangeTitle(index) => {
                if index < self.list.len() {
                    self.editing = Some(index);
                }
            },
            Message::ConfirmEdit => {
                if let Some(index) = self.editing.take() {
                    if index < self.list.len() {
                        let ghost old_list = self.list@;
                        self.list[index].title = self.new_title.clone();
                        assert(self.list@.map_values(|t: Task| t@) =~= old_list.map_values(
                            |t: Task| t@,
                        ).update(index as int, self.list@[index as int]@));
                    }
                    self.new_title = String::new();
                }
            },
            Message::CancelEdit => {
                self.editing = None;
                self.new_title = String::new();
            },
            _ => {},
        }
        assert(self@ =~= pre.after(msg));
    }
}

impl Default for Tasks {
    fn default() -> (r: Self)
        ensures
            r@ == (TasksView {
                title: "Untitled"@,
                list: Seq::empty(),
                adding_after: None,
                new_title: Seq::empty(),
                editing: None,
            }),
    {
        let r = Tasks {
            title: "Untitled".to_owned(),
            list: Vec::new(),
            adding_after: None,
            new_title: String::new(),
            editing: None,
        };
        assert(r.list@.map_values(|t: Task| t@) =~= Seq::<TaskView>::empty());
        r
    }
}

} // verus!
