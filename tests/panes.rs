use openapi_panes::action::Action;
use openapi_panes::profiles::ProfilesPane;
use openapi_panes::state::{Specification, State, Tag};
use openapi_panes::tags::{list_lines, TagsPane};
use ratatui::layout::Constraint;
use ratatui::style::{Color, Style};
use ratatui::widgets::BorderType;

fn state_with(names: &[&str]) -> State {
    let tags = names.iter().map(|n| Tag { name: n.to_string() }).collect();
    State::new(Specification { tags })
}

fn pet_state() -> State {
    state_with(&["pets", "store", "users"])
}

fn active(state: &State) -> Option<&str> {
    state.active_tag_name.as_deref()
}

#[test]
fn down_cycles_through_tags_and_back_to_all() {
    let mut state = pet_state();
    let mut pane = TagsPane::new(false, Style::default());
    assert_eq!(pane.current_tag_index(), 0);

    assert_eq!(pane.update(Action::Down, &mut state), Some(Action::Update));
    assert_eq!(pane.current_tag_index(), 1);
    assert_eq!(active(&state), Some("pets"));

    pane.update(Action::Down, &mut state);
    assert_eq!(pane.current_tag_index(), 2);
    assert_eq!(active(&state), Some("store"));

    pane.update(Action::Down, &mut state);
    assert_eq!(pane.current_tag_index(), 3);
    assert_eq!(active(&state), Some("users"));

    pane.update(Action::Down, &mut state);
    assert_eq!(pane.current_tag_index(), 0);
    assert_eq!(active(&state), None);
}

#[test]
fn up_from_all_selects_last_tag() {
    let mut state = pet_state();
    let mut pane = TagsPane::new(false, Style::default());
    assert_eq!(pane.update(Action::Up, &mut state), Some(Action::Update));
    assert_eq!(pane.current_tag_index(), 3);
    assert_eq!(active(&state), Some("users"));
}

#[test]
fn down_then_up_returns_to_start() {
    for n in 0..5usize {
        let names: Vec<String> = (0..n).map(|i| format!("t{}", i)).collect();
        let refs: Vec<&str> = names.iter().map(|s| s.as_str()).collect();
        for c in 0..=n {
            let mut state = state_with(&refs);
            let mut pane = TagsPane::new(false, Style::default());
            for _ in 0..c {
                pane.update(Action::Down, &mut state);
            }
            assert_eq!(pane.current_tag_index(), c);
            pane.update(Action::Down, &mut state);
            pane.update(Action::Up, &mut state);
            assert_eq!(pane.current_tag_index(), c);
            pane.update(Action::Up, &mut state);
            pane.update(Action::Down, &mut state);
            assert_eq!(pane.current_tag_index(), c);
        }
    }
}

#[test]
fn down_once_per_row_returns_to_start() {
    for n in 0..5usize {
        let names: Vec<String> = (0..n).map(|i| format!("t{}", i)).collect();
        let refs: Vec<&str> = names.iter().map(|s| s.as_str()).collect();
        let mut state = state_with(&refs);
        let mut pane = TagsPane::new(false, Style::default());
        pane.update(Action::Up, &mut state);
        let start = pane.current_tag_index();
        assert_eq!(start, n);
        for _ in 0..(n + 1) {
            pane.update(Action::Down, &mut state);
        }
        assert_eq!(pane.current_tag_index(), start);
    }
}

#[test]
fn moves_reset_operation_index_and_match_selection() {
    let mut state = pet_state();
    let mut pane = TagsPane::new(true, Style::default());
    let names = ["pets", "store", "users"];
    for action in [Action::Down, Action::Down, Action::Up, Action::Up, Action::Up, Action::Down] {
        state.active_operation_index = 7;
        assert_eq!(pane.update(action, &mut state), Some(Action::Update));
        assert_eq!(state.active_operation_index, 0);
        let c = pane.current_tag_index();
        if c == 0 {
            assert_eq!(active(&state), None);
        } else {
            assert_eq!(active(&state), Some(names[c - 1]));
        }
    }
}

#[test]
fn no_tags_keeps_cursor_on_all_but_still_resets_and_redraws() {
    let mut state = state_with(&[]);
    let mut pane = TagsPane::new(false, Style::default());
    for action in [Action::Down, Action::Up] {
        state.active_operation_index = 4;
        assert_eq!(pane.update(action, &mut state), Some(Action::Update));
        assert_eq!(pane.current_tag_index(), 0);
        assert_eq!(state.active_operation_index, 0);
        assert_eq!(active(&state), None);
    }
}

#[test]
fn submit_and_update_change_nothing() {
    let mut state = pet_state();
    let mut pane = TagsPane::new(false, Style::default());
    pane.update(Action::Down, &mut state);
    state.active_operation_index = 2;
    assert_eq!(pane.update(Action::Submit, &mut state), None);
    assert_eq!(pane.update(Action::Update, &mut state), None);
    assert_eq!(pane.current_tag_index(), 1);
    assert_eq!(active(&state), Some("pets"));
    assert_eq!(state.active_operation_index, 2);
}

#[test]
fn focus_then_unfocus_keeps_domain_state() {
    let style = Style::default().fg(Color::Yellow);
    let mut state = pet_state();
    let mut pane = TagsPane::new(false, style);
    pane.update(Action::Down, &mut state);
    pane.update(Action::Down, &mut state);
    pane.focus();
    assert!(pane.focused());
    assert_eq!(pane.border_style(), style);
    assert_eq!(pane.border_type(), BorderType::Thick);
    pane.unfocus();
    assert!(!pane.focused());
    assert_eq!(pane.border_style(), Style::default());
    assert_eq!(pane.border_type(), BorderType::Plain);
    assert_eq!(pane.current_tag_index(), 2);
    assert_eq!(active(&state), Some("store"));
    let names: Vec<&str> = state.openapi_spec.tags.iter().map(|t| t.name.as_str()).collect();
    assert_eq!(names, vec!["pets", "store", "users"]);

    let mut profiles = ProfilesPane::new(false, style);
    profiles.focus();
    assert!(profiles.focused());
    assert_eq!(profiles.border_style(), style);
    assert_eq!(profiles.border_type(), BorderType::Thick);
    profiles.unfocus();
    assert!(!profiles.focused());
    assert_eq!(profiles.border_style(), Style::default());
    assert_eq!(profiles.border_type(), BorderType::Plain);
}

#[test]
fn profiles_pane_ignores_actions() {
    let mut profiles = ProfilesPane::new(true, Style::default());
    profiles.init();
    assert_eq!(profiles.update(Action::Down), None);
    assert_eq!(profiles.update(Action::Update), None);
    assert!(profiles.focused());
}

#[test]
fn height_grows_with_focus() {
    let mut pane = TagsPane::new(false, Style::default());
    pane.init();
    assert_eq!(pane.height_constraint(), Constraint::Fill(1));
    pane.focus();
    assert_eq!(pane.height_constraint(), Constraint::Fill(3));
}

#[test]
fn list_has_all_row_then_tags_in_order() {
    let state = pet_state();
    assert_eq!(list_lines(&state.openapi_spec), vec![" [ALL]", " pets", " store", " users"]);
    let empty = state_with(&[]);
    assert_eq!(list_lines(&empty.openapi_spec), vec![" [ALL]"]);
}

#[test]
fn position_title_counts_rows_from_one() {
    let mut state = pet_state();
    let mut pane = TagsPane::new(false, Style::default());
    assert_eq!(pane.position_title(&state.openapi_spec), "1 of 4");
    pane.update(Action::Up, &mut state);
    assert_eq!(pane.position_title(&state.openapi_spec), "4 of 4");

    let names: Vec<String> = (0..11).map(|i| format!("t{}", i)).collect();
    let refs: Vec<&str> = names.iter().map(|s| s.as_str()).collect();
    let mut big = state_with(&refs);
    let mut pane = TagsPane::new(false, Style::default());
    pane.update(Action::Up, &mut big);
    assert_eq!(pane.position_title(&big.openapi_spec), "12 of 12");
}

#[test]
fn new_state_selects_all() {
    let state = pet_state();
    assert_eq!(active(&state), None);
    assert_eq!(state.active_operation_index, 0);
}
