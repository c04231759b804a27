use taskmaster::models::{List, Message, Status, Task, Tasks, Themes};
use taskmaster::store::{theme_catalog, Stored};

fn empty_store() -> List {
    let (state, rewrite) = List::load_from(Stored::Missing);
    assert!(!rewrite);
    state
}

fn with_lists(titles: &[&str]) -> List {
    let mut state = empty_store();
    for t in titles {
        let end = state.lists.len();
        state.update(Message::AddListAfter(end));
        state.update(Message::UpdateListTitle(t.to_string()));
        assert!(state.update(Message::ConfirmAddList));
    }
    state
}

fn titles(state: &List) -> Vec<String> {
    state.lists.iter().map(|t| t.title.clone()).collect()
}

#[test]
fn buy_milk_scenario() {
    let mut state = with_lists(&["Shopping"]);
    state.update(Message::SelectList(0));
    assert_eq!(state.selected, Some(0));
    state.update(Message::AddAfter(0));
    state.update(Message::UpdateNewTitle("Buy milk".to_string()));
    assert!(state.update(Message::ConfirmAdd));
    assert_eq!(state.lists[0].list.len(), 1);
    assert_eq!(state.lists[0].list[0].title, "Buy milk");
    assert_eq!(state.lists[0].list[0].status, Status::Pending);
    state.update(Message::Forward(0));
    state.update(Message::Forward(0));
    assert_eq!(state.lists[0].list[0].status, Status::Complete);
    assert!(state.update(Message::Remove(0)));
    assert!(state.lists[0].list.is_empty());
}

#[test]
fn theme_survives_reload() {
    let mut state = with_lists(&["Work"]);
    assert!(state.update(Message::ThemeChanged(Themes::Nord)));
    // What a reader of the saved file hands back: the kept fields only.
    let stored = List {
        lists: vec![Tasks {
            title: state.lists[0].title.clone(),
            list: Vec::new(),
            adding_after: None,
            new_title: String::new(),
            editing: None,
        }],
        selected: None,
        adding_after: None,
        new_title: String::new(),
        editing: None,
        themes: state.themes.clone(),
        selected_theme: state.selected_theme,
    };
    let (reloaded, rewrite) = List::load_from(Stored::Current(stored));
    assert!(!rewrite);
    assert_eq!(reloaded.selected_theme, Some(Themes::Nord));
    assert_eq!(reloaded.app_theme(), Themes::Nord);
    assert_eq!(titles(&reloaded), vec!["Work".to_string()]);
}

#[test]
fn default_theme_when_none_chosen() {
    let state = empty_store();
    assert_eq!(state.selected_theme, None);
    assert_eq!(state.app_theme(), Themes::Default);
}

#[test]
fn advance_three_times_cycles() {
    let mut t = Task { title: "x".to_string(), status: Status::Pending };
    t.update(Message::Forward(0));
    assert_eq!(t.status, Status::InProgress);
    t.update(Message::Forward(0));
    assert_eq!(t.status, Status::Complete);
    t.update(Message::Forward(0));
    assert_eq!(t.status, Status::InProgress);
    t.update(Message::Remove(0));
    assert_eq!(t.status, Status::InProgress);
    assert_eq!(t.title, "x");
}

#[test]
fn load_resets_transient_state() {
    let stored = List {
        lists: vec![Tasks {
            title: "Home".to_string(),
            list: vec![Task { title: "Sweep".to_string(), status: Status::Complete }],
            adding_after: None,
            new_title: String::new(),
            editing: None,
        }],
        selected: Some(0),
        adding_after: Some(3),
        new_title: "draft".to_string(),
        editing: Some(0),
        themes: vec![Themes::Nord],
        selected_theme: Some(Themes::Dracula),
    };
    let (state, rewrite) = List::load_from(Stored::Current(stored));
    assert!(!rewrite);
    assert_eq!(state.selected, None);
    assert_eq!(state.adding_after, None);
    assert_eq!(state.new_title, "");
    assert_eq!(state.editing, None);
    assert_eq!(state.themes, theme_catalog());
    assert_eq!(state.themes.len(), 19);
    assert_eq!(state.selected_theme, Some(Themes::Dracula));
    assert_eq!(state.lists[0].title, "Home");
    assert_eq!(state.lists[0].list[0].title, "Sweep");
    assert_eq!(state.lists[0].list[0].status, Status::Complete);
}

#[test]
fn unreadable_file_gives_empty_state() {
    let (state, rewrite) = List::load_from(Stored::Unreadable);
    assert!(!rewrite);
    assert!(state.lists.is_empty());
    assert_eq!(state.themes, theme_catalog());
    assert_eq!(state.selected, None);
    assert_eq!(state.selected_theme, None);
}

#[test]
fn legacy_blank_title_gets_placeholder() {
    let mut legacy = Tasks::default();
    legacy.title = "  \t ".to_string();
    legacy.list.push(Task { title: "Old task".to_string(), status: Status::InProgress });
    let (state, rewrite) = List::load_from(Stored::Legacy(legacy));
    assert!(rewrite);
    assert_eq!(state.lists.len(), 1);
    assert_eq!(state.lists[0].title, "Unnamed");
    assert_eq!(state.lists[0].list[0].title, "Old task");
    assert_eq!(state.themes, theme_catalog());
}

#[test]
fn legacy_title_is_kept() {
    let mut legacy = Tasks::default();
    legacy.title = " Chores ".to_string();
    let (state, rewrite) = List::load_from(Stored::Legacy(legacy));
    assert!(rewrite);
    assert_eq!(titles(&state), vec![" Chores ".to_string()]);
}

#[test]
fn blank_task_title_adds_nothing() {
    let mut state = with_lists(&["A"]);
    state.update(Message::SelectList(0));
    state.update(Message::AddAfter(0));
    state.update(Message::UpdateNewTitle(" \t\n ".to_string()));
    state.update(Message::ConfirmAdd);
    assert!(state.lists[0].list.is_empty());
    assert_eq!(state.lists[0].new_title, "");
    assert_eq!(state.lists[0].adding_after, None);
}

#[test]
fn blank_list_title_adds_nothing() {
    let mut state = with_lists(&["A"]);
    state.update(Message::AddListAfter(0));
    state.update(Message::UpdateListTitle("   ".to_string()));
    assert!(!state.update(Message::ConfirmAddList));
    assert_eq!(state.lists.len(), 1);
    assert_eq!(state.new_title, "");
    assert_eq!(state.adding_after, None);
}

#[test]
fn added_titles_are_trimmed() {
    let mut state = with_lists(&["A"]);
    state.update(Message::SelectList(0));
    state.update(Message::UpdateNewTitle("  Buy milk \n".to_string()));
    state.update(Message::ConfirmAdd);
    assert_eq!(state.lists[0].list[0].title, "Buy milk");
    state.update(Message::BackToLists);
    state.update(Message::UpdateListTitle("\u{3000}Errands ".to_string()));
    state.update(Message::ConfirmAddList);
    assert_eq!(state.lists[1].title, "Errands");
}

#[test]
fn tasks_are_appended_whatever_the_position() {
    let mut t = Tasks::default();
    assert_eq!(t.title, "Untitled");
    for name in ["one", "two"] {
        t.update(Message::AddAfter(0));
        t.update(Message::UpdateNewTitle(name.to_string()));
        t.update(Message::ConfirmAdd);
    }
    assert_eq!(t.list[0].title, "one");
    assert_eq!(t.list[1].title, "two");
}

#[test]
fn lists_are_inserted_after_position() {
    let mut state = with_lists(&["a", "b", "c"]);
    state.update(Message::AddListAfter(0));
    state.update(Message::UpdateListTitle("x".to_string()));
    state.update(Message::ConfirmAddList);
    assert_eq!(titles(&state), vec!["a", "x", "b", "c"]);
    state.update(Message::AddListAfter(9));
    state.update(Message::UpdateListTitle("y".to_string()));
    state.update(Message::ConfirmAddList);
    assert_eq!(titles(&state), vec!["a", "x", "b", "c", "y"]);
}

#[test]
fn remove_out_of_range_changes_nothing() {
    let mut state = with_lists(&["a", "b"]);
    assert!(!state.update(Message::RemoveList(2)));
    assert_eq!(titles(&state), vec!["a", "b"]);
    let mut t = Tasks::default();
    t.list.push(Task { title: "p".to_string(), status: Status::Pending });
    t.update(Message::Remove(5));
    assert_eq!(t.list.len(), 1);
}

#[test]
fn remove_shifts_later_entries() {
    let mut state = with_lists(&["a", "b", "c"]);
    assert!(state.update(Message::RemoveList(1)));
    assert_eq!(titles(&state), vec!["a", "c"]);
    let mut t = Tasks::default();
    for name in ["p", "q", "r"] {
        t.list.push(Task { title: name.to_string(), status: Status::Pending });
    }
    t.update(Message::Remove(0));
    let names: Vec<String> = t.list.iter().map(|x| x.title.clone()).collect();
    assert_eq!(names, vec!["q", "r"]);
}

#[test]
fn edit_may_set_empty_title() {
    let mut t = Tasks::default();
    t.list.push(Task { title: "p".to_string(), status: Status::Pending });
    t.update(Message::ChangeTitle(0));
    assert_eq!(t.editing, Some(0));
    t.update(Message::ConfirmEdit);
    assert_eq!(t.list[0].title, "");
    assert_eq!(t.editing, None);
}

#[test]
fn edit_of_list_title_and_cancel() {
    let mut state = with_lists(&["a"]);
    assert!(!state.update(Message::ChangeListTitle(4)));
    assert_eq!(state.editing, None);
    state.update(Message::ChangeListTitle(0));
    state.update(Message::UpdateListTitle("renamed".to_string()));
    assert!(state.update(Message::ConfirmListEdit));
    assert_eq!(titles(&state), vec!["renamed"]);
    state.update(Message::ChangeListTitle(0));
    state.update(Message::UpdateListTitle("other".to_string()));
    assert!(!state.update(Message::CancelListEdit));
    assert_eq!(titles(&state), vec!["renamed"]);
    assert_eq!(state.new_title, "");
}

#[test]
fn task_messages_without_open_list_are_dropped() {
    let mut state = with_lists(&["a"]);
    assert!(!state.update(Message::UpdateNewTitle("z".to_string())));
    assert!(!state.update(Message::ConfirmAdd));
    assert!(state.lists[0].list.is_empty());
    assert!(!state.update(Message::SelectList(3)));
    assert_eq!(state.selected, None);
}

#[test]
fn back_to_lists_clears_state() {
    let mut state = with_lists(&["a"]);
    state.update(Message::SelectList(0));
    state.update(Message::AddListAfter(0));
    state.update(Message::UpdateListTitle("draft".to_string()));
    assert!(!state.update(Message::BackToLists));
    assert_eq!(state.selected, None);
    assert_eq!(state.adding_after, None);
    assert_eq!(state.new_title, "");
    assert_eq!(state.editing, None);
}

#[test]
fn back_to_lists_clears_task_drafts() {
    let mut state = with_lists(&["a", "b"]);
    state.update(Message::SelectList(1));
    state.update(Message::UpdateNewTitle("kept".to_string()));
    state.update(Message::ConfirmAdd);
    state.update(Message::ChangeTitle(0));
    state.update(Message::AddAfter(1));
    state.update(Message::UpdateNewTitle("half typed".to_string()));
    assert_eq!(state.lists[1].editing, Some(0));
    assert!(!state.update(Message::BackToLists));
    assert_eq!(state.lists[1].new_title, "");
    assert_eq!(state.lists[1].adding_after, None);
    assert_eq!(state.lists[1].editing, None);
    assert_eq!(state.lists[1].list[0].title, "kept");
    assert_eq!(titles(&state), vec!["a", "b"]);
    state.update(Message::SelectList(1));
    state.update(Message::ConfirmEdit);
    assert_eq!(state.lists[1].list[0].title, "kept");
}

#[test]
fn defaults() {
    assert_eq!(Status::default(), Status::Pending);
    assert_eq!(Themes::default(), Themes::Default);
    let state = List::default();
    assert!(state.lists.is_empty());
    assert_eq!(state.themes, theme_catalog());
    let bare = List::new();
    assert!(bare.themes.is_empty());
    let some = List::new_with_themes(vec![Themes::Light]);
    assert_eq!(some.themes, vec![Themes::Light]);
    assert!(Status::Pending < Status::InProgress && Status::InProgress < Status::Complete);
}

#[test]
fn save_then_load_round_trip() {
    let mut state = with_lists(&["a", "b"]);
    state.update(Message::SelectList(1));
    state.update(Message::UpdateNewTitle("task".to_string()));
    state.update(Message::ConfirmAdd);
    state.update(Message::Forward(0));
    state.update(Message::ChangeTitle(0));
    state.update(Message::UpdateNewTitle("pending draft".to_string()));
    state.update(Message::ThemeChanged(Themes::GruvboxDark));
    let saved = state.to_saved();
    assert_eq!(saved.selected, None);
    assert_eq!(saved.lists[1].editing, None);
    assert_eq!(saved.lists[1].new_title, "");
    let (loaded, rewrite) = List::load_from(Stored::Current(saved));
    assert!(!rewrite);
    assert_eq!(titles(&loaded), vec!["a", "b"]);
    assert_eq!(loaded.lists[1].list.len(), 1);
    assert_eq!(loaded.lists[1].list[0].title, "task");
    assert_eq!(loaded.lists[1].list[0].status, Status::InProgress);
    assert_eq!(loaded.lists[1].editing, None);
    assert_eq!(loaded.themes, state.themes);
    assert_eq!(loaded.selected_theme, Some(Themes::GruvboxDark));
    assert_eq!(loaded.selected, None);
    assert_eq!(loaded.new_title, "");
    // The original state is untouched by saving.
    assert_eq!(state.lists[1].new_title, "pending draft");
    assert_eq!(state.selected, Some(1));
}
