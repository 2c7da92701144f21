use edit_history::state::EditorState;

#[test]
fn fresh_state_is_blank_and_clean() {
    let mut s = EditorState::new();
    assert_eq!(s.get_content(), String::new());
    assert!(!s.is_modified());
    assert!(s.current_file().is_none());
    assert_eq!(s.current_file_name(), None);
    assert!(!s.can_undo());
    assert!(!s.can_redo());
    assert!(!s.undo());
    assert!(!s.redo());
}

#[test]
fn editing_marks_modified_and_undo_restores() {
    let mut s = EditorState::new();
    s.content_mut().push_str("hello");
    assert!(s.is_modified());
    assert_eq!(s.get_content(), String::from("hello"));
    s.record_change();
    assert!(s.can_undo());
    assert!(s.undo());
    assert_eq!(s.get_content(), String::new());
    assert!(s.can_redo());
    assert!(s.redo());
    assert_eq!(s.get_content(), String::from("hello"));
}

#[test]
fn set_content_loads_file_and_resets_history() {
    let mut s = EditorState::new();
    s.content_mut().push_str("scratch");
    s.record_change();
    s.set_content(String::from("loaded text"), String::from("notes/todo.txt"));
    assert_eq!(s.get_content(), String::from("loaded text"));
    assert_eq!(s.current_file_name(), Some(String::from("todo.txt")));
    assert_eq!(s.current_file(), Some(&String::from("notes/todo.txt")));
    assert!(!s.is_modified());
    // The history started over: the earlier edit is unreachable.
    assert!(!s.can_undo());
    assert!(!s.can_redo());
}

#[test]
fn new_file_resets_everything() {
    let mut s = EditorState::new();
    s.set_content(String::from("text"), String::from("a/b.txt"));
    s.content_mut().push_str("!");
    s.record_change();
    s.new_file();
    assert_eq!(s.get_content(), String::new());
    assert!(s.current_file().is_none());
    assert!(!s.is_modified());
    assert!(!s.can_undo());
    assert!(!s.can_redo());
}

#[test]
fn file_name_is_the_part_after_the_last_separator() {
    let mut s = EditorState::new();
    s.set_current_file(String::from("/home/someone/docs/letter.txt"));
    assert_eq!(s.current_file_name(), Some(String::from("letter.txt")));
    s.set_current_file(String::from("plain.txt"));
    assert_eq!(s.current_file_name(), Some(String::from("plain.txt")));
    s.set_current_file(String::from("ends/with/slash/"));
    assert_eq!(s.current_file_name(), None);
    s.set_current_file(String::from(""));
    assert_eq!(s.current_file_name(), None);
}

#[test]
fn set_current_file_touches_nothing_else() {
    let mut s = EditorState::new();
    s.content_mut().push_str("body");
    s.record_change();
    s.set_current_file(String::from("out/saved.txt"));
    assert_eq!(s.get_content(), String::from("body"));
    assert!(s.is_modified());
    assert!(s.can_undo());
}

#[test]
fn undo_and_redo_walk_recorded_states() {
    let mut s = EditorState::new();
    s.content_mut().push_str("one");
    s.record_change();
    s.content_mut().push_str(" two");
    s.record_change();
    assert!(s.undo());
    assert_eq!(s.get_content(), String::from("one"));
    assert!(s.undo());
    assert_eq!(s.get_content(), String::new());
    assert!(!s.undo());
    assert!(s.redo());
    assert_eq!(s.get_content(), String::from("one"));
    assert!(s.redo());
    assert_eq!(s.get_content(), String::from("one two"));
    assert!(!s.redo());
}

#[test]
fn recording_after_undo_abandons_redo() {
    let mut s = EditorState::new();
    s.content_mut().push_str("b");
    s.record_change();
    assert!(s.undo());
    assert_eq!(s.get_content(), String::new());
    s.content_mut().push_str("d");
    s.record_change();
    assert!(!s.can_redo());
    assert!(s.undo());
    assert_eq!(s.get_content(), String::new());
    assert!(s.redo());
    assert_eq!(s.get_content(), String::from("d"));
}
