use dial::app::{copy_snippets, Action, App, AppMode, AppState, Snippet};
use dial::filter::positions_containing;
use dial::event::{Event, KeyCode, KeyEvent, KeyEventKind, Rect};
use dial::view::SnippetListComponent;

fn snippet(title: &str, language: &str, code: &str) -> Snippet {
    Snippet {
        language: String::from(language),
        code: String::from(code),
        title: String::from(title),
    }
}

fn state_with(titles: &[&str], query: &str) -> AppState {
    AppState {
        snippet_list: titles.iter().map(|t| snippet(t, "rs", t)).collect(),
        selected_index: 0,
        mode: AppMode::Command,
        should_exit: false,
        current_area: Rect { x: 0, y: 0, width: 0, height: 0 },
        focused_editor: false,
        focused_search: false,
        search_query: String::from(query),
    }
}

fn press(code: KeyCode) -> Event {
    Event::Key(KeyEvent { code, kind: KeyEventKind::Press })
}

fn release(code: KeyCode) -> Event {
    Event::Key(KeyEvent { code, kind: KeyEventKind::Release })
}

fn indices(state: &AppState) -> Vec<usize> {
    state.filtered_snippets().iter().map(|(i, _)| *i).collect()
}

const TITLES: [&str; 3] = ["Print function", "Loop macro", "Print macro"];

#[test]
fn empty_query_keeps_every_snippet_in_order() {
    let state = state_with(&TITLES, "");
    let view = state.filtered_snippets();
    assert_eq!(view.len(), 3);
    for (k, (index, snippet)) in view.iter().enumerate() {
        assert_eq!(*index, k);
        assert_eq!(snippet.title, TITLES[k]);
        assert_eq!(**snippet, state.snippet_list[k]);
    }
}

#[test]
fn empty_query_on_empty_list_gives_empty_view() {
    let state = state_with(&[], "");
    assert_eq!(state.filtered_snippets().len(), 0);
    assert_eq!(state.get_selected_snippet_index(), None);
    assert_eq!(state.get_content(), None);
    assert!(state.get_current_snippet().is_none());
}

#[test]
fn query_print_keeps_two_of_three() {
    let state = state_with(&TITLES, "print");
    let view = state.filtered_snippets();
    assert_eq!(view.len(), 2);
    assert_eq!(view[0].0, 0);
    assert_eq!(view[0].1.title, "Print function");
    assert_eq!(view[1].0, 2);
    assert_eq!(view[1].1.title, "Print macro");
}

#[test]
fn selection_steps_and_wraps_in_filtered_view() {
    let mut state = state_with(&TITLES, "print");
    let list = SnippetListComponent::new();
    assert_eq!(state.selected_index, 0);
    list.select_next(&mut state);
    assert_eq!(state.selected_index, 1);
    assert_eq!(state.get_selected_snippet_index(), Some(2));
    list.select_next(&mut state);
    assert_eq!(state.selected_index, 0);
    assert_eq!(state.get_selected_snippet_index(), Some(0));
}

#[test]
fn query_case_is_folded_on_both_sides() {
    assert_eq!(indices(&state_with(&TITLES, "PRINT")), vec![0, 2]);
    assert_eq!(indices(&state_with(&TITLES, "MaCrO")), vec![1, 2]);
    assert_eq!(indices(&state_with(&["LOUD TITLE", "quiet"], "loud")), vec![0]);
    assert_eq!(indices(&state_with(&["LOUD TITLE", "quiet"], "QUIET")), vec![1]);
}

#[test]
fn query_must_occur_contiguously() {
    assert_eq!(indices(&state_with(&TITLES, "prnt")), Vec::<usize>::new());
    assert_eq!(indices(&state_with(&TITLES, "t m")), vec![2]);
    assert_eq!(indices(&state_with(&TITLES, "print macro")), vec![2]);
    assert_eq!(indices(&state_with(&TITLES, "print macros")), Vec::<usize>::new());
    assert_eq!(indices(&state_with(&TITLES, "o")), vec![0, 1, 2]);
}

#[test]
fn selected_index_maps_through_the_filter() {
    let mut state = state_with(&TITLES, "macro");
    assert_eq!(state.get_selected_snippet_index(), Some(1));
    assert_eq!(state.get_content(), Some(String::from("Loop macro")));
    state.selected_index = 1;
    assert_eq!(state.get_selected_snippet_index(), Some(2));
    assert_eq!(state.get_current_snippet().map(|s| s.title.clone()), Some(String::from("Print macro")));
    state.selected_index = 2;
    assert_eq!(state.get_selected_snippet_index(), None);
    assert_eq!(state.get_content(), None);
    assert!(state.get_current_snippet().is_none());
}

#[test]
fn navigation_in_empty_view_changes_nothing() {
    let mut state = state_with(&TITLES, "zzz");
    state.selected_index = 4;
    let list = SnippetListComponent::new();
    list.select_next(&mut state);
    assert_eq!(state.selected_index, 4);
    list.select_previous(&mut state);
    assert_eq!(state.selected_index, 4);
    assert_eq!(state.get_selected_snippet_index(), None);
}

#[test]
fn next_taken_length_times_comes_back() {
    let list = SnippetListComponent::new();
    for start in 0..3 {
        let mut state = state_with(&TITLES, "");
        state.selected_index = start;
        for _ in 0..3 {
            list.select_next(&mut state);
        }
        assert_eq!(state.selected_index, start);
    }
}

#[test]
fn previous_wraps_from_first_to_last() {
    let list = SnippetListComponent::new();
    let mut state = state_with(&TITLES, "");
    list.select_previous(&mut state);
    assert_eq!(state.selected_index, 2);
    list.select_previous(&mut state);
    assert_eq!(state.selected_index, 1);
    list.select_next(&mut state);
    list.select_next(&mut state);
    assert_eq!(state.selected_index, 0);
}

#[test]
fn next_from_a_stale_index_lands_in_range() {
    let list = SnippetListComponent::new();
    let mut state = state_with(&TITLES, "print");
    state.selected_index = 7;
    list.select_next(&mut state);
    assert_eq!(state.selected_index, 0);
    state.selected_index = usize::MAX;
    list.select_next(&mut state);
    assert_eq!(state.selected_index, 0);
    state.selected_index = 7;
    list.select_previous(&mut state);
    assert_eq!(state.selected_index, 6);
}

#[test]
fn focus_flags_are_set_and_cleared() {
    let mut state = state_with(&TITLES, "");
    state.focus_editor();
    assert!(state.focused_editor && !state.focused_search);
    state.focus_search();
    assert!(state.focused_editor && state.focused_search);
    state.blur_editor();
    assert!(!state.focused_editor && state.focused_search);
    state.focus_editor();
    state.blur_search();
    assert!(state.focused_editor && !state.focused_search);
    state.focus_search();
    state.blur();
    assert!(!state.focused_editor && !state.focused_search);
}

fn ready_app(titles: &[&str]) -> App {
    let mut app = App::new(titles.iter().map(|t| snippet(t, "rs", t)).collect());
    assert!(app.view_manager.editor_component.try_prepare(&app.app_state));
    app
}

#[test]
fn app_starts_in_command_mode() {
    let app = App::new(vec![snippet("a", "txt", "b")]);
    assert_eq!(app.app_state.mode, AppMode::Command);
    assert_eq!(app.app_state.selected_index, 0);
    assert_eq!(app.app_state.search_query, "");
    assert!(!app.app_state.should_exit);
    assert!(!app.app_state.focused_editor);
    assert!(!app.app_state.focused_search);
    assert_eq!(app.app_state.current_area, Rect { x: 0, y: 0, width: 0, height: 0 });
    assert_eq!(app.app_state.snippet_list, vec![snippet("a", "txt", "b")]);
    assert!(app.view_manager.editor_component.gap_buffer.is_none());
}

#[test]
fn edit_then_escape_syncs_and_saves_once() {
    let mut app = ready_app(&TITLES);
    assert_eq!(app.app_state.mode, AppMode::Command);
    assert_eq!(app.handle_event(&press(KeyCode::Char('e'))), Action::Continue);
    assert_eq!(app.app_state.mode, AppMode::Edit);
    assert_eq!(app.handle_event(&press(KeyCode::Char('!'))), Action::Continue);
    assert!(app.app_state.focused_editor);
    assert_eq!(app.app_state.snippet_list[0].code, "Print function");
    assert_eq!(app.handle_event(&press(KeyCode::Esc)), Action::Save);
    assert_eq!(app.app_state.mode, AppMode::Command);
    assert!(!app.app_state.focused_editor);
    assert!(!app.app_state.focused_search);
    assert_eq!(app.app_state.snippet_list[0].code, "Print function!");
    assert_eq!(app.app_state.snippet_list[0].title, "Print function");
    assert_eq!(app.app_state.snippet_list[0].language, "rs");
    assert_eq!(app.app_state.snippet_list[1], snippet("Loop macro", "rs", "Loop macro"));
    assert_eq!(app.app_state.snippet_list[2], snippet("Print macro", "rs", "Print macro"));
    assert_eq!(app.app_state.snippet_list.len(), 3);
}

#[test]
fn command_keys_switch_modes() {
    let mut app = ready_app(&TITLES);
    app.handle_event(&press(KeyCode::Char('s')));
    assert_eq!(app.app_state.mode, AppMode::Select);
    app.handle_event(&press(KeyCode::Esc));
    app.handle_event(&press(KeyCode::Char('/')));
    assert_eq!(app.app_state.mode, AppMode::Search);
    app.handle_event(&press(KeyCode::Esc));
    assert_eq!(app.app_state.mode, AppMode::Command);
    app.handle_event(&press(KeyCode::Char('x')));
    app.handle_event(&press(KeyCode::Enter));
    app.handle_event(&Event::Other);
    assert_eq!(app.app_state.mode, AppMode::Command);
    assert!(!app.app_state.should_exit);
    assert_eq!(app.handle_event(&press(KeyCode::Char('q'))), Action::Continue);
    assert!(app.app_state.should_exit);
    assert_eq!(app.app_state.mode, AppMode::Command);
}

#[test]
fn command_keys_ignore_releases() {
    let mut app = ready_app(&TITLES);
    app.handle_event(&release(KeyCode::Char('e')));
    assert_eq!(app.app_state.mode, AppMode::Command);
    app.handle_event(&release(KeyCode::Char('q')));
    assert!(!app.app_state.should_exit);
    app.switch_mode(&release(KeyCode::Char('s')));
    assert_eq!(app.app_state.mode, AppMode::Command);
    app.switch_mode(&Event::Other);
    assert_eq!(app.app_state.mode, AppMode::Command);
    app.switch_mode(&press(KeyCode::Char('s')));
    assert_eq!(app.app_state.mode, AppMode::Select);
}

#[test]
fn escape_counts_whether_pressed_or_released() {
    let mut app = ready_app(&TITLES);
    app.handle_event(&press(KeyCode::Char('s')));
    assert_eq!(app.handle_event(&release(KeyCode::Esc)), Action::Save);
    assert_eq!(app.app_state.mode, AppMode::Command);
}

#[test]
fn command_keys_are_inert_in_other_modes() {
    let mut app = ready_app(&TITLES);
    app.handle_event(&press(KeyCode::Char('e')));
    app.handle_event(&press(KeyCode::Char('q')));
    app.handle_event(&press(KeyCode::Char('s')));
    app.handle_event(&press(KeyCode::Char('/')));
    assert_eq!(app.app_state.mode, AppMode::Edit);
    assert!(!app.app_state.should_exit);
    let buffer = app.view_manager.editor_component.gap_buffer.as_ref().unwrap();
    assert_eq!(buffer.to_string(), "Print functionqs/");
    app.handle_event(&press(KeyCode::Esc));
    app.handle_event(&press(KeyCode::Char('s')));
    app.handle_event(&press(KeyCode::Char('q')));
    app.handle_event(&press(KeyCode::Char('e')));
    assert_eq!(app.app_state.mode, AppMode::Select);
    assert!(!app.app_state.should_exit);
}

#[test]
fn select_mode_keys_move_the_selection_and_open_the_form() {
    let mut app = ready_app(&TITLES);
    app.handle_event(&press(KeyCode::Char('s')));
    app.handle_event(&press(KeyCode::Char('j')));
    assert_eq!(app.app_state.selected_index, 1);
    app.handle_event(&release(KeyCode::Char('j')));
    assert_eq!(app.app_state.selected_index, 1);
    app.handle_event(&press(KeyCode::Char('k')));
    app.handle_event(&press(KeyCode::Char('k')));
    assert_eq!(app.app_state.selected_index, 2);
    app.handle_event(&press(KeyCode::Char('a')));
    assert_eq!(app.app_state.mode, AppMode::Popup);
    assert_eq!(app.app_state.selected_index, 2);
}

#[test]
fn escape_with_empty_view_skips_the_sync() {
    let mut app = ready_app(&TITLES);
    app.handle_event(&press(KeyCode::Char('e')));
    app.handle_event(&press(KeyCode::Char('!')));
    app.app_state.search_query = String::from("zzz");
    assert_eq!(app.handle_event(&press(KeyCode::Esc)), Action::Save);
    assert_eq!(app.app_state.snippet_list[0].code, "Print function");
    assert_eq!(app.app_state.snippet_list[1].code, "Loop macro");
    assert_eq!(app.app_state.snippet_list[2].code, "Print macro");
}

#[test]
fn escape_syncs_into_the_snippet_behind_the_filter() {
    let mut app = App::new(TITLES.iter().map(|t| snippet(t, "rs", t)).collect());
    app.app_state.search_query = String::from("macro");
    app.app_state.selected_index = 1;
    assert!(app.view_manager.editor_component.try_prepare(&app.app_state));
    app.handle_event(&press(KeyCode::Char('e')));
    app.handle_event(&press(KeyCode::Backspace));
    app.handle_event(&press(KeyCode::Esc));
    assert_eq!(app.app_state.snippet_list[2].code, "Print macr");
    assert_eq!(app.app_state.snippet_list[0].code, "Print function");
    assert_eq!(app.app_state.snippet_list[1].code, "Loop macro");
}

#[test]
fn layout_sets_the_area_of_the_active_widget() {
    let left = Rect { x: 1, y: 1, width: 30, height: 40 };
    let right = Rect { x: 31, y: 1, width: 70, height: 40 };
    let top = Rect { x: 1, y: 1, width: 30, height: 4 };
    let mut app = ready_app(&TITLES);
    app.update_current_area(left, right, top);
    assert_eq!(app.app_state.current_area, Rect { x: 0, y: 0, width: 0, height: 0 });
    app.app_state.mode = AppMode::Select;
    app.update_current_area(left, right, top);
    assert_eq!(app.app_state.current_area, left);
    app.app_state.mode = AppMode::Edit;
    app.update_current_area(left, right, top);
    assert_eq!(app.app_state.current_area, right);
    app.app_state.mode = AppMode::Search;
    app.update_current_area(left, right, top);
    assert_eq!(app.app_state.current_area, top);
    app.app_state.mode = AppMode::Popup;
    app.update_current_area(left, right, left);
    assert_eq!(app.app_state.current_area, top);
}

#[test]
fn focus_stays_with_the_input_of_the_mode() {
    let mut app = ready_app(&TITLES);
    let script = [
        KeyCode::Char('e'),
        KeyCode::Char('x'),
        KeyCode::Esc,
        KeyCode::Char('/'),
        KeyCode::Char('p'),
        KeyCode::Enter,
        KeyCode::Esc,
        KeyCode::Char('s'),
        KeyCode::Char('j'),
        KeyCode::Char('a'),
        KeyCode::Char('r'),
        KeyCode::Enter,
        KeyCode::Char('T'),
        KeyCode::Char('A'),
        KeyCode::Char('e'),
        KeyCode::Tab,
        KeyCode::Esc,
    ];
    for code in script {
        app.handle_event(&press(code));
        let state = &app.app_state;
        assert!(!state.focused_editor || state.mode == AppMode::Edit);
        assert!(!state.focused_search || state.mode == AppMode::Search);
        assert!(!(state.focused_editor && state.focused_search));
    }
    assert_eq!(app.app_state.mode, AppMode::Command);
    assert_eq!(app.app_state.snippet_list.len(), 4);
    assert_eq!(app.app_state.snippet_list[3].title, "T");
    assert_eq!(app.app_state.snippet_list[3].language, "r");
    assert_eq!(app.app_state.snippet_list[3].code, "");
}

#[test]
fn positions_of_texts_that_hold_the_needle() {
    let texts: Vec<String> =
        ["print function", "loop macro", "print macro"].iter().map(|t| t.to_string()).collect();
    assert_eq!(positions_containing(&texts, "print"), vec![0, 2]);
    assert_eq!(positions_containing(&texts, "macro"), vec![1, 2]);
    assert_eq!(positions_containing(&texts, ""), vec![0, 1, 2]);
    assert_eq!(positions_containing(&texts, "Print"), Vec::<usize>::new());
    assert_eq!(positions_containing(&texts, "print macro"), vec![2]);
    assert_eq!(positions_containing(&Vec::new(), "print"), Vec::<usize>::new());
    assert_eq!(positions_containing(&Vec::new(), ""), Vec::<usize>::new());
}

#[test]
fn copy_of_a_snippet_list_is_equal_to_it() {
    let list = vec![snippet("a", "rs", "1"), snippet("b", "py", "2")];
    assert_eq!(copy_snippets(&list), list);
    assert_eq!(copy_snippets(&Vec::new()), Vec::<Snippet>::new());
}

#[test]
fn run_owes_one_save_for_each_escape() {
    let mut app = ready_app(&TITLES);
    let saved = app.run(&vec![
        press(KeyCode::Char('e')),
        press(KeyCode::Char('!')),
        press(KeyCode::Char('?')),
        press(KeyCode::Esc),
    ]);
    assert_eq!(app.app_state.mode, AppMode::Command);
    assert!(!app.app_state.focused_editor && !app.app_state.focused_search);
    assert_eq!(saved.len(), 1);
    assert_eq!(saved[0], app.app_state.snippet_list);
    assert_eq!(saved[0][0].code, "Print function!?");
    assert_eq!(saved[0].len(), 3);
}

#[test]
fn run_saves_the_list_as_it_was_at_each_escape() {
    let mut app = ready_app(&TITLES);
    let saved = app.run(&vec![
        press(KeyCode::Char('e')),
        press(KeyCode::Char('1')),
        press(KeyCode::Esc),
        press(KeyCode::Char('e')),
        press(KeyCode::Char('2')),
        press(KeyCode::Esc),
        press(KeyCode::Char('s')),
        Event::Other,
    ]);
    assert_eq!(saved.len(), 2);
    assert_eq!(saved[0][0].code, "Print function1");
    assert_eq!(saved[1][0].code, "Print function12");
    assert_eq!(saved[1], app.app_state.snippet_list);
    assert_eq!(app.app_state.mode, AppMode::Select);
}

#[test]
fn run_stops_taking_events_once_leaving_is_asked_for() {
    let mut app = ready_app(&TITLES);
    let saved = app.run(&vec![
        press(KeyCode::Char('q')),
        press(KeyCode::Char('e')),
        press(KeyCode::Esc),
    ]);
    assert!(app.app_state.should_exit);
    assert_eq!(app.app_state.mode, AppMode::Command);
    assert_eq!(saved.len(), 0);
    let nothing = app.run(&Vec::new());
    assert_eq!(nothing.len(), 0);
}

#[test]
fn run_without_events_changes_nothing() {
    let mut app = ready_app(&TITLES);
    app.handle_event(&press(KeyCode::Char('s')));
    let saved = app.run(&Vec::new());
    assert_eq!(saved.len(), 0);
    assert_eq!(app.app_state.mode, AppMode::Select);
    assert_eq!(app.app_state.selected_index, 0);
}
