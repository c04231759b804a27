use vstd::prelude::*;
use crate::models::{List, ListView, Message, Status, Tasks, TasksView, Themes};
use crate::store::{catalog, load_result, migrated_title, Stored};
use crate::text::{is_blank, lemma_trim_empty_iff_blank};

verus! {

/// Advancing a task three times moves it through its cycle: it leaves
/// pending for good, and the third advance lands where the first did.
/// From pending that is in progress, complete, in progress.
pub proof fn lemma_advance_cycle(v: TasksView, i: usize)
    requires
        i < v.list.len(),
    ensures
        ({
            let s1 = v.after(Message::Forward(i));
            let s2 = s1.after(Message::Forward(i));
            let s3 = s2.after(Message::Forward(i));
            &&& s3.list.len() == v.list.len()
            &&& s3.list[i as int].title == v.list[i as int].title
            &&& s1.list[i as int].status != Status::Pending
            &&& s2.list[i as int].status != Status::Pending
            &&& s3.list[i as int].status == s1.list[i as int].status
            &&& s2.list[i as int].status != s1.list[i as int].status
            &&& v.list[i as int].status == Status::Pending ==> {
                &&& s1.list[i as int].status == Status::InProgress
                &&& s2.list[i as int].status == Status::Complete
                &&& s3.list[i as int].status == Status::InProgress
            }
        }),
{
}

/// Confirming an add while the draft is blank adds no task and no list, and
/// always clears the draft and the add in progress.
pub proof fn lemma_blank_add_adds_nothing(t: TasksView, l: ListView)
    ensures
        is_blank(t.new_title) ==> {
            let r = t.after(Message::ConfirmAdd);
            &&& r.list == t.list
            &&& r.new_title.len() == 0
            &&& r.adding_after is None
        },
        is_blank(l.new_title) ==> {
            let r = l.after(Message::ConfirmAddList);
            &&& r.lists == l.lists
            &&& r.new_title.len() == 0
            &&& r.adding_after is None
            &&& !l.persists(Message::ConfirmAddList)
        },
        t.after(Message::ConfirmAdd).new_title.len() == 0,
        t.after(Message::ConfirmAdd).adding_after is None,
        l.after(Message::ConfirmAddList).new_title.len() == 0,
        l.after(Message::ConfirmAddList).adding_after is None,
{
    lemma_trim_empty_iff_blank(t.new_title);
    lemma_trim_empty_iff_blank(l.new_title);
}

/// Removing at an index out of range changes nothing; removing at a valid
/// index shortens the collection by one and moves the later entries down.
pub proof fn lemma_remove_shifts(t: TasksView, l: ListView, i: usize)
    ensures
        i >= t.list.len() ==> t.after(Message::Remove(i)) == t,
        i < t.list.len() ==> {
            let r = t.after(Message::Remove(i)).list;
            &&& r.len() == t.list.len() - 1
            &&& forall|j: int| 0 <= j < i ==> r[j] == t.list[j]
            &&& forall|j: int| i <= j < r.len() ==> r[j] == t.list[j + 1]
        },
        i >= l.lists.len() ==> l.after(Message::RemoveList(i)) == l,
        i < l.lists.len() ==> {
            let r = l.after(Message::RemoveList(i)).lists;
            &&& r.len() == l.lists.len() - 1
            &&& forall|j: int| 0 <= j < i ==> r[j] == l.lists[j]
            &&& forall|j: int| i <= j < r.len() ==> r[j] == l.lists[j + 1]
        },
{
}

/// Loading back what was saved gives the same lists, tasks and chosen
/// theme, the full theme catalog (which is what a loaded state always
/// offers), and no selection or editing state, whatever was pending before.
pub proof fn lemma_save_then_load(l: ListView, stored: List)
    requires
        l.themes == catalog(),
        stored@ == l.saved(),
    ensures
        ({
            let (r, rewrite) = load_result(Stored::Current(stored));
            &&& r.lists.len() == l.lists.len()
            &&& forall|i: int| 0 <= i < r.lists.len() ==> {
                &&& (#[trigger] r.lists[i]).title == l.lists[i].title
                &&& r.lists[i].list == l.lists[i].list
                &&& r.lists[i].adding_after is None
                &&& r.lists[i].new_title.len() == 0
                &&& r.lists[i].editing is None
            }
            &&& r.themes == l.themes
            &&& r.selected_theme == l.selected_theme
            &&& r.selected is None
            &&& r.adding_after is None
            &&& r.new_title.len() == 0
            &&& r.editing is None
            &&& !rewrite
        }),
{
}

/// A file of the older format, with no current file, loads as exactly one
/// list, titled as before or with the placeholder when its title was
/// blank, and the state is written out in the current format at once.
pub proof fn lemma_legacy_migration(legacy: Tasks)
    ensures
        ({
            let (r, rewrite) = load_result(Stored::Legacy(legacy));
            &&& r.lists.len() == 1
            &&& r.lists[0].title == migrated_title(legacy@.title)
            &&& (is_blank(legacy@.title) ==> r.lists[0].title == "Unnamed"@)
            &&& (!is_blank(legacy@.title) ==> r.lists[0].title == legacy@.title)
            &&& r.lists[0].list == legacy@.list
            &&& r.themes == catalog()
            &&& rewrite
        }),
{
    lemma_trim_empty_iff_blank(legacy@.title);
}

/// A changed theme is saved, is what the interface is drawn with
/// afterwards, and is still the one shown after the state is loaded back.
pub proof fn lemma_theme_change_shown(l: ListView, theme: Themes)
    ensures
        l.after(Message::ThemeChanged(theme)).shown_theme() == theme,
        l.persists(Message::ThemeChanged(theme)),
        l.after(Message::ThemeChanged(theme)).saved().restored().shown_theme() == theme,
{
}

/// Going back to the overview closes the open list and drops every draft,
/// add and edit in progress, at the level of lists and within each list,
/// while titles, tasks and the chosen theme stay as they were.
pub proof fn lemma_back_to_lists_clears_drafts(l: ListView)
    ensures
        ({
            let r = l.after(Message::BackToLists);
            &&& r.selected is None
            &&& r.adding_after is None
            &&& r.new_title.len() == 0
            &&& r.editing is None
            &&& r.lists.len() == l.lists.len()
            &&& forall|j: int| 0 <= j < r.lists.len() ==> {
                &&& (#[trigger] r.lists[j]).adding_after is None
                &&& r.lists[j].new_title.len() == 0
                &&& r.lists[j].editing is None
                &&& r.lists[j].title == l.lists[j].title
                &&& r.lists[j].list == l.lists[j].list
            }
            &&& r.themes == l.themes
            &&& r.selected_theme == l.selected_theme
            &&& !l.persists(Message::BackToLists)
        }),
{
}

} // verus!
