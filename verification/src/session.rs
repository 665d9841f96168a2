//! The per-session "run in progress" slot: one planner run at a time per
//! session.

use vstd::prelude::*;

verus! {

/// The state of one agent session: the run it plans in, its todo list, and
/// whether a run is going on.
#[derive(Debug)]
pub struct SessionState<R, T> {
    pub run: R,
    pub todos: T,
    pub in_progress: bool,
}

/// Why the slot could not be taken.
#[derive(Debug, Copy, Clone, PartialEq, Eq, Structural)]
pub enum RunSlotError {
    /// Another run holds the slot.
    InProgress,
}

impl<R, T> SessionState<R, T> {
    /// A session with no run in progress.
    pub fn new(run: R, todos: T) -> (r: Self)
        ensures
            r.run == run,
            r.todos == todos,
            !r.in_progress,
    {
        SessionState { run, todos, in_progress: false }
    }
}

impl RunSlotError {
    pub open spec fn message_spec(&self) -> Seq<char> {
        "a run is already in progress for this session; cancel it first"@
    }

    /// The message shown to the user.
    pub fn message(&self) -> (r: String)
        ensures
            r@ == self.message_spec(),
    {
        "a run is already in progress for this session; cancel it first".to_owned()
    }
}

/// Whether the slot can be taken: no run is in progress.
pub open spec fn slot_free<R, T>(s: SessionState<R, T>) -> bool {
    !s.in_progress
}

/// The session once its slot is taken: same run and todos, busy.
pub open spec fn taken<R, T>(s: SessionState<R, T>) -> SessionState<R, T> {
    SessionState { run: s.run, todos: s.todos, in_progress: true }
}

/// The session once its slot is given back: same run and todos, idle.
pub open spec fn released<R, T>(s: SessionState<R, T>) -> SessionState<R, T> {
    SessionState { run: s.run, todos: s.todos, in_progress: false }
}

/// Takes the run slot: fails when a run is already in progress; otherwise
/// marks the session busy and hands out a copy of the run handle and a
/// snapshot of the todo list.
pub fn acquire_run_slot<R: Clone, T: Clone>(state: &mut SessionState<R, T>) -> (r: Result<
    (R, T),
    RunSlotError,
>)
    ensures
        (r is Ok) == slot_free(*old(state)),
        !slot_free(*old(state)) ==> r == Err::<(R, T), RunSlotError>(RunSlotError::InProgress)
            && *final(state) == *old(state),
        slot_free(*old(state)) ==> {
            &&& r matches Ok((run, todos))
            &&& cloned(old(state).run, run)
            &&& cloned(old(state).todos, todos)
            &&& *final(state) == taken(*old(state))
        },
{
    if state.in_progress {
        return Err(RunSlotError::InProgress);
    }
    state.in_progress = true;
    let run = state.run.clone();
    let todos = state.todos.clone();
    Ok((run, todos))
}

/// Gives the run slot back.
pub fn release_run_slot<R, T>(state: &mut SessionState<R, T>)
    ensures
        *final(state) == released(*old(state)),
{
    state.in_progress = false;
}

/// One run at a time per session: once the slot is taken it cannot be
/// taken again, and once it is given back it can, with the session's run
/// and todos as they were.
pub proof fn lemma_one_run_at_a_time<R, T>(s: SessionState<R, T>)
    requires
        slot_free(s),
    ensures
        !slot_free(taken(s)),
        slot_free(released(taken(s))),
        released(taken(s)) == s,
{
}

} // verus!
