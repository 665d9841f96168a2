use reverie::session::{acquire_run_slot, release_run_slot, SessionState};
use std::sync::Arc;

fn fresh_state() -> SessionState<Arc<String>, Vec<String>> {
    SessionState {
        run: Arc::new("session-test".to_string()),
        todos: Vec::new(),
        in_progress: false,
    }
}

#[test]
fn rejects_when_in_progress() {
    let mut state = fresh_state();
    state.in_progress = true;
    let result = acquire_run_slot(&mut state);
    assert!(result.is_err(), "should reject when in_progress");
    let msg = result.err().unwrap().message();
    assert!(msg.contains("already in progress"), "unexpected error message: {msg}");
}

#[test]
fn returns_current_todos_snapshot() {
    let mut state = fresh_state();
    state.todos.push("alpha".to_string());

    let (_run, initial) = acquire_run_slot(&mut state).unwrap();
    assert_eq!(initial.len(), 1);
    assert_eq!(initial[0], "alpha");

    // Releasing the slot, then mutating state.todos — the snapshot we
    // captured must not reflect the later mutation (it's a clone).
    release_run_slot(&mut state);
    state.todos.push("beta".to_string());
    assert_eq!(initial.len(), 1, "snapshot should be a clone");
}

#[test]
fn guard_clears_in_progress_on_drop() {
    let mut state = fresh_state();
    let (_run, _todos) = acquire_run_slot(&mut state).unwrap();
    assert!(state.in_progress, "acquire sets in_progress");
    release_run_slot(&mut state);
    assert!(!state.in_progress, "dropping the guard must clear in_progress");
}

#[test]
fn one_run_at_a_time() {
    let mut state = fresh_state();
    let (run, _) = acquire_run_slot(&mut state).unwrap();
    assert!(Arc::ptr_eq(&run, &state.run));
    assert!(acquire_run_slot(&mut state).is_err());
    assert!(state.in_progress);
    release_run_slot(&mut state);
    assert!(acquire_run_slot(&mut state).is_ok());
}
