use webviewjs::events::{AppState, ExitFlags};

#[test]
fn exit_flag_starts_lowered_and_stays_raised() {
    let mut flags = ExitFlags::new();
    let state = AppState::new(&mut flags);
    assert!(!state.should_exit(&flags));
    assert!(!state.should_exit(&flags));
    state.request_exit(&mut flags);
    assert!(state.should_exit(&flags));
    state.request_exit(&mut flags);
    assert!(state.should_exit(&flags));
    assert!(state.should_exit(&flags));
}

#[test]
fn a_clone_shares_the_flag() {
    let mut flags = ExitFlags::new();
    let a = AppState::new(&mut flags);
    let b = a.clone_state();
    assert!(!a.should_exit(&flags));
    assert!(!b.should_exit(&flags));
    b.request_exit(&mut flags);
    assert!(a.should_exit(&flags));
    assert!(b.should_exit(&flags));
}

#[test]
fn a_request_is_seen_by_every_state_of_the_family() {
    let mut flags = ExitFlags::new();
    let first = AppState::new(&mut flags);
    let second = first.clone_state();
    let third = second.clone_state();
    let copied = first.clone();
    first.request_exit(&mut flags);
    let late = third.clone_state();
    for state in [first, second, third, copied, late] {
        assert!(state.should_exit(&flags));
    }
}

#[test]
fn families_do_not_share() {
    let mut flags = ExitFlags::new();
    let a = AppState::new(&mut flags);
    let b = AppState::new(&mut flags);
    assert_eq!(flags.len(), 2);
    assert_ne!(a, b);
    b.request_exit(&mut flags);
    assert!(!a.should_exit(&flags));
    assert!(b.should_exit(&flags));
    let c = AppState::new(&mut flags);
    assert!(!c.should_exit(&flags));
    assert!(b.clone_state().should_exit(&flags));
    assert!(!a.clone_state().should_exit(&flags));
    assert_eq!(flags.len(), 3);
}

#[test]
fn a_state_of_another_store_has_no_flag_here() {
    let mut home = ExitFlags::new();
    let mut other = ExitFlags::new();
    let _first = AppState::new(&mut home);
    let second = AppState::new(&mut home);
    assert_eq!(other.len(), 0);
    second.request_exit(&mut other);
    assert_eq!(other.len(), 0);
    assert!(!second.should_exit(&other));
    assert!(!second.should_exit(&home));
}
