use file_tui::dispatch::{App, AppReturn};
use file_tui::entry::{sort_entries, File, NavError};
use file_tui::inputs::Key;
use file_tui::list::StatefulList;
use file_tui::path::{DirPath, History};
use file_tui::state::AppState;

fn dir(name: &str) -> File {
    File { name: name.to_string(), is_dir: true, modified: Some(0) }
}

fn plain(name: &str) -> File {
    File { name: name.to_string(), is_dir: false, modified: Some(0) }
}

fn path(parts: &[&str]) -> DirPath {
    DirPath::new(parts.iter().map(|p| p.to_string()).collect())
}

fn names(state: &AppState) -> Vec<String> {
    state.current_list().unwrap().items().iter().map(|f| f.name.clone()).collect()
}

fn index(state: &AppState) -> Option<usize> {
    state.current_list().unwrap().index()
}

fn select(state: &mut AppState, i: usize) {
    if let AppState::Initialized { current_list, .. } = state {
        current_list.select(i);
    }
}

fn path_text(state: &AppState) -> Vec<String> {
    state.cursor().unwrap().parts().clone()
}

#[test]
fn cursor_wraps_both_ways() {
    let mut l = StatefulList::new(vec![1, 2, 3]);
    assert_eq!(l.index(), Some(0));
    l.previous();
    assert_eq!(l.index(), Some(2));
    l.next();
    assert_eq!(l.index(), Some(0));
    l.next();
    l.next();
    assert_eq!(l.index(), Some(2));
    assert_eq!(l.current(), Some(&3));
}

#[test]
fn select_clamps_out_of_range() {
    let mut l = StatefulList::new(vec!['a', 'b', 'c']);
    l.select(1);
    assert_eq!(l.index(), Some(1));
    l.select(7);
    assert_eq!(l.index(), Some(0));
}

#[test]
fn empty_list_has_no_cursor() {
    let mut l: StatefulList<u8> = StatefulList::new(vec![]);
    assert_eq!(l.index(), None);
    l.next();
    l.previous();
    l.select(0);
    assert_eq!(l.index(), None);
    assert_eq!(l.current(), None);
    assert_eq!(l.len(), 0);
}

#[test]
fn long_walk_keeps_cursor_in_range() {
    let mut l = StatefulList::new(vec![0u8; 5]);
    for step in 0..100usize {
        match step % 3 {
            0 => l.next(),
            1 => l.previous(),
            _ => l.select(step % 9),
        }
        assert!(l.index().unwrap() < 5);
    }
}

#[test]
fn sort_puts_directories_first_in_listed_order() {
    let raw = vec![plain("z"), dir("b"), plain("a"), dir("a"), plain("m")];
    let sorted = sort_entries(&raw);
    let got: Vec<(String, bool)> = sorted.iter().map(|f| (f.name.clone(), f.is_dir)).collect();
    assert_eq!(
        got,
        vec![
            ("b".to_string(), true),
            ("a".to_string(), true),
            ("z".to_string(), false),
            ("a".to_string(), false),
            ("m".to_string(), false),
        ]
    );
    assert!(sort_entries(&vec![]).is_empty());
}

#[test]
fn initialized_selects_first_and_records_root() {
    let state = AppState::initialized(path(&["r"]), vec![plain("f"), dir("B"), dir("A")]);
    assert!(state.is_initialized());
    assert_eq!(names(&state), vec!["B", "A", "f"]);
    assert_eq!(index(&state), Some(0));
    assert_eq!(state.display_log(), Some(false));
    assert_eq!(state.display_help(), Some(false));
    if let AppState::Initialized { last_index, .. } = &state {
        assert_eq!(last_index.get(&path(&["r"])), Some(0));
    }
}

#[test]
fn uninitialized_answers_nothing() {
    let mut state = AppState::default();
    assert!(!state.is_initialized());
    assert!(state.cursor().is_none());
    assert!(state.current_list().is_none());
    assert_eq!(state.display_log(), None);
    state.toggle_log();
    state.toggle_help();
    assert_eq!(state.display_help(), None);
    assert_eq!(state.read_dir(Ok(vec![dir("x")])), Ok(()));
    assert_eq!(state.read_parent(Ok(vec![dir("x")])), Ok(()));
    assert_eq!(state, AppState::Init);
}

#[test]
fn initialize_failure_stays_uninitialized() {
    let mut state = AppState::default();
    assert_eq!(state.initialize(path(&["r"]), Err(NavError::ListingFailure)), Err(NavError::ListingFailure));
    assert_eq!(state, AppState::Init);
    assert_eq!(state.initialize(path(&["r"]), Ok(vec![plain("x")])), Ok(()));
    assert_eq!(names(&state), vec!["x"]);
}

#[test]
fn descend_on_file_changes_nothing() {
    let make = || {
        let mut s = AppState::initialized(path(&["r"]), vec![dir("d"), plain("f")]);
        select(&mut s, 1);
        s
    };
    let mut state = make();
    assert!(state.selected_dir().is_none());
    assert_eq!(state.read_dir(Ok(vec![plain("inner")])), Ok(()));
    assert_eq!(state, make());
}

#[test]
fn ascend_restores_by_name_not_history() {
    // B comes before A in the raw listing, so B is at index 0.
    let root = vec![dir("B"), dir("A"), plain("notes")];
    let mut state = AppState::initialized(path(&["R"]), root.clone());
    assert_eq!(names(&state)[0], "B");
    select(&mut state, 1);
    assert_eq!(state.selected_dir().unwrap(), path(&["R", "A"]));
    assert_eq!(state.read_dir(Ok(vec![plain("x"), plain("y")])), Ok(()));
    assert_eq!(path_text(&state), vec!["R", "A"]);
    select(&mut state, 1);
    assert_eq!(state.parent_dir().unwrap(), path(&["R"]));
    assert_eq!(state.read_parent(Ok(root)), Ok(()));
    assert_eq!(path_text(&state), vec!["R"]);
    let i = index(&state).unwrap();
    assert_eq!(state.current_list().unwrap().items()[i].name, "A");
}

#[test]
fn redescend_restores_history() {
    let root = vec![dir("D0"), dir("D1"), dir("C"), plain("f")];
    let child = vec![plain("a"), plain("b"), plain("c"), plain("d")];
    let mut state = AppState::initialized(path(&["R"]), root.clone());
    select(&mut state, 2);
    assert_eq!(state.read_dir(Ok(child.clone())), Ok(()));
    assert_eq!(index(&state), Some(0));
    select(&mut state, 3);
    assert_eq!(state.read_parent(Ok(root)), Ok(()));
    assert_eq!(index(&state), Some(2));
    assert_eq!(state.read_dir(Ok(child)), Ok(()));
    assert_eq!(path_text(&state), vec!["R", "C"]);
    assert_eq!(index(&state), Some(3));
}

#[test]
fn redescend_with_stale_index_selects_first() {
    let root = vec![dir("C")];
    let mut state = AppState::initialized(path(&["R"]), root.clone());
    assert_eq!(state.read_dir(Ok(vec![plain("a"), plain("b"), plain("c")])), Ok(()));
    select(&mut state, 2);
    assert_eq!(state.read_parent(Ok(root)), Ok(()));
    assert_eq!(state.read_dir(Ok(vec![plain("a")])), Ok(()));
    assert_eq!(index(&state), Some(0));
}

#[test]
fn listing_failure_leaves_state_unchanged() {
    let make = || {
        let mut s = AppState::initialized(path(&["R", "S"]), vec![plain("f"), dir("gone")]);
        s.toggle_log();
        s
    };
    let mut state = make();
    assert_eq!(state.read_dir(Err(NavError::ListingFailure)), Err(NavError::ListingFailure));
    assert_eq!(state, make());
    assert_eq!(state.read_parent(Err(NavError::PathResolutionFailure)), Err(NavError::PathResolutionFailure));
    assert_eq!(state, make());
    assert_eq!(state.read_dir(Err(NavError::MetadataFailure)), Err(NavError::MetadataFailure));
    assert_eq!(state, make());
}

#[test]
fn empty_directory_has_no_selection() {
    let root = vec![dir("empty"), plain("f")];
    let mut state = AppState::initialized(path(&["R"]), root.clone());
    assert_eq!(state.read_dir(Ok(vec![])), Ok(()));
    assert!(state.current_list().unwrap().items().is_empty());
    assert_eq!(index(&state), None);
    assert!(state.selected_dir().is_none());
    assert_eq!(state.read_dir(Ok(vec![dir("x")])), Ok(()));
    assert_eq!(path_text(&state), vec!["R", "empty"]);
    assert_eq!(state.read_parent(Ok(root)), Ok(()));
    assert_eq!(names(&state), vec!["empty", "f"]);
    assert_eq!(index(&state), Some(0));
}

#[test]
fn ascend_at_root_changes_nothing() {
    let make = || AppState::initialized(DirPath::root(), vec![dir("usr")]);
    let mut state = make();
    assert!(state.parent_dir().is_none());
    assert_eq!(state.read_parent(Ok(vec![dir("x")])), Ok(()));
    assert_eq!(state, make());
}

#[test]
fn ascend_without_matching_name_selects_first() {
    let mut state = AppState::initialized(path(&["R", "S"]), vec![plain("f")]);
    assert_eq!(state.read_parent(Ok(vec![plain("p"), dir("q")])), Ok(()));
    assert_eq!(names(&state), vec!["q", "p"]);
    assert_eq!(index(&state), Some(0));
}

#[test]
fn toggles_flip_flags() {
    let mut state = AppState::initialized(path(&["R"]), vec![]);
    state.toggle_log();
    assert_eq!(state.display_log(), Some(true));
    state.toggle_help();
    state.toggle_help();
    assert_eq!(state.display_help(), Some(false));
    state.toggle_log();
    assert_eq!(state.display_log(), Some(false));
}

#[test]
fn sort_dir_items_keeps_cursor_index() {
    let mut state = AppState::initialized(path(&["R"]), vec![plain("f"), dir("d")]);
    select(&mut state, 1);
    state.sort_dir_items();
    assert_eq!(names(&state), vec!["d", "f"]);
    assert_eq!(index(&state), Some(1));
}

#[test]
fn history_keeps_latest_record() {
    let mut h = History::new();
    assert_eq!(h.get(&path(&["a"])), None);
    h.insert(&path(&["a"]), 3);
    h.insert(&path(&["a", "b"]), 1);
    h.insert(&path(&["a"]), 5);
    assert_eq!(h.get(&path(&["a"])), Some(5));
    assert_eq!(h.get(&path(&["a", "b"])), Some(1));
    assert_eq!(h.get(&path(&["b"])), None);
}

#[test]
fn paths_split_and_extend() {
    let p = path(&["home", "me"]);
    let c = p.child(&"docs".to_string());
    assert_eq!(c.parts().clone(), vec!["home", "me", "docs"]);
    let (parent, name) = c.split_last().unwrap();
    assert!(parent.same_as(&p));
    assert_eq!(name, "docs");
    assert!(!p.same_as(&c));
    assert!(DirPath::root().split_last().is_none());
    assert!(p.duplicate().same_as(&p));
}

#[test]
fn app_dispatches_keys() {
    let mut app = App::new(path(&["R"]), Ok(vec![plain("f"), dir("d")])).unwrap();
    assert_eq!(app.do_action(Key::Down), AppReturn::Continue);
    assert_eq!(app.state().current_list().unwrap().index(), Some(1));
    assert_eq!(app.do_action(Key::Up), AppReturn::Continue);
    assert_eq!(app.state().current_list().unwrap().index(), Some(0));
    assert_eq!(app.do_action(Key::Right), AppReturn::Descend(path(&["R", "d"])));
    assert_eq!(app.descend(Ok(vec![plain("inner")])), Ok(()));
    assert_eq!(app.do_action(Key::Left), AppReturn::Ascend(path(&["R"])));
    assert_eq!(app.ascend(Ok(vec![plain("f"), dir("d")])), Ok(()));
    assert_eq!(app.state().current_list().unwrap().index(), Some(0));
    assert_eq!(app.do_action(Key::Char('D')), AppReturn::Continue);
    assert_eq!(app.state().display_log(), Some(true));
    assert_eq!(app.do_action(Key::Char('?')), AppReturn::Continue);
    assert_eq!(app.state().display_help(), Some(true));
    assert_eq!(app.do_action(Key::Enter), AppReturn::Continue);
    assert_eq!(app.do_action(Key::Char('x')), AppReturn::Continue);
    assert_eq!(app.update_on_tick(), AppReturn::Continue);
    assert_eq!(app.do_action(Key::Char('q')), AppReturn::Exit);
    assert_eq!(app.do_action(Key::Ctrl('c')), AppReturn::Exit);
}

#[test]
fn app_right_on_file_and_left_at_root_continue() {
    let mut app = App::new(DirPath::root(), Ok(vec![plain("f")])).unwrap();
    assert_eq!(app.do_action(Key::Right), AppReturn::Continue);
    assert_eq!(app.do_action(Key::Left), AppReturn::Continue);
}

#[test]
fn app_new_reports_listing_failure() {
    assert!(matches!(App::new(path(&["R"]), Err(NavError::ListingFailure)), Err(NavError::ListingFailure)));
}
