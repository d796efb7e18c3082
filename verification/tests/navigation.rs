use path_browser::{Mode, NavState, NavigationController};

#[test]
fn initial_nonempty_is_browsing_first_with_heatmap() {
    let nav = NavigationController::new(3);
    assert_eq!(nav.state(), NavState::Browsing { cursor: 0, mode: Mode::Heatmap });
    assert_eq!(nav.total(), 3);
}

#[test]
fn initial_empty_is_empty() {
    let nav = NavigationController::new(0);
    assert_eq!(nav.state(), NavState::Empty);
}

#[test]
fn next_then_prev_restores_cursor() {
    let mut nav = NavigationController::new(3);
    assert!(nav.next());
    assert_eq!(nav.state(), NavState::Browsing { cursor: 1, mode: Mode::SinglePath });
    assert!(nav.prev());
    assert_eq!(nav.state(), NavState::Browsing { cursor: 0, mode: Mode::SinglePath });
}

#[test]
fn cursor_stays_in_bounds() {
    let mut nav = NavigationController::new(2);
    assert!(!nav.prev());
    assert_eq!(nav.state(), NavState::Browsing { cursor: 0, mode: Mode::Heatmap });
    assert!(nav.next());
    assert!(!nav.next());
    assert_eq!(nav.state(), NavState::Browsing { cursor: 1, mode: Mode::SinglePath });
}

#[test]
fn cursor_change_forces_single_path() {
    let mut nav = NavigationController::new(3);
    assert_eq!(nav.state(), NavState::Browsing { cursor: 0, mode: Mode::Heatmap });
    nav.next();
    assert_eq!(nav.state(), NavState::Browsing { cursor: 1, mode: Mode::SinglePath });
    nav.toggle_heatmap();
    assert_eq!(nav.state(), NavState::Browsing { cursor: 1, mode: Mode::Heatmap });
    nav.prev();
    assert_eq!(nav.state(), NavState::Browsing { cursor: 0, mode: Mode::SinglePath });
}

#[test]
fn toggle_flips_mode_and_keeps_cursor() {
    let mut nav = NavigationController::new(3);
    nav.next();
    assert_eq!(nav.state(), NavState::Browsing { cursor: 1, mode: Mode::SinglePath });
    assert!(nav.toggle_heatmap());
    assert_eq!(nav.state(), NavState::Browsing { cursor: 1, mode: Mode::Heatmap });
    assert!(nav.toggle_heatmap());
    assert_eq!(nav.state(), NavState::Browsing { cursor: 1, mode: Mode::SinglePath });
}

#[test]
fn empty_state_ignores_every_transition() {
    let mut nav = NavigationController::new(0);
    assert!(!nav.next());
    assert!(!nav.prev());
    assert!(!nav.toggle_heatmap());
    assert_eq!(nav.state(), NavState::Empty);
}

#[test]
fn affordances_reflect_the_guards() {
    let mut nav = NavigationController::new(3);
    assert!(!nav.can_prev());
    assert!(nav.can_next());
    assert_eq!(nav.position(), (1, 3));
    nav.next();
    nav.next();
    assert!(nav.can_prev());
    assert!(!nav.can_next());
    assert_eq!(nav.position(), (3, 3));
}
