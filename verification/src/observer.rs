//! The text the agent shows for each planner step and each finished
//! sub-agent.

use vstd::prelude::*;

use crate::text::push_str;
use crate::url::{decimal, push_decimal};

verus! {

/// How many characters of written file contents are shown.
pub const DISPLAY_CONTENT_LIMIT: usize = 200;

/// A sub-agent to start: who, and with what task.
#[derive(Debug)]
pub struct SpawnTask {
    pub persona: String,
    pub task: String,
}

/// One step the planner decided on.
#[derive(Debug)]
pub enum PlannerAction {
    AddTodo(String),
    /// Set a todo's status; `status` is the status as the planner names it.
    SetStatus { id: u64, status: String },
    VfsWrite { path: String, contents: String },
    Spawn(SpawnTask),
    ParallelSpawn(Vec<SpawnTask>),
    Note(String),
    GiveUp,
    NoOp,
}

/// `s` cut to its first `max` characters, marked as truncated when it was
/// longer.
pub open spec fn truncated(s: Seq<char>, max: nat) -> Seq<char> {
    if s.len() <= max {
        s
    } else {
        s.take(max as int) + "… [truncated]"@
    }
}

pub fn truncate_for_display(s: &str, max_chars: usize) -> (r: String)
    ensures
        r@ == truncated(s@, max_chars as nat),
{
    if s.unicode_len() <= max_chars {
        return s.to_owned();
    }
    let mut out = s.substring_char(0, max_chars).to_owned();
    push_str(&mut out, "… [truncated]");
    out
}

/// `persona :: task`.
pub open spec fn spawn_line(t: SpawnTask) -> Seq<char> {
    t.persona@ + " :: "@ + t.task@
}

/// The spawn lines of `ts`, one per line.
pub open spec fn spawn_lines(ts: Seq<SpawnTask>) -> Seq<char>
    decreases ts.len(),
{
    if ts.len() == 0 {
        Seq::empty()
    } else if ts.len() == 1 {
        spawn_line(ts[0])
    } else {
        spawn_lines(ts.drop_last()) + "\n"@ + spawn_line(ts.last())
    }
}

/// The title and body of the message for `action`.
pub open spec fn action_parts(action: PlannerAction) -> (Seq<char>, Seq<char>) {
    match action {
        PlannerAction::AddTodo(s) => ("add_todo"@, s@),
        PlannerAction::SetStatus { id, status } => (
            "set_status"@,
            "todo #"@ + decimal(id as nat) + " → "@ + status@,
        ),
        PlannerAction::VfsWrite { path, contents } => (
            "vfs_write"@,
            path@ + "\n---\n"@ + truncated(contents@, DISPLAY_CONTENT_LIMIT as nat),
        ),
        PlannerAction::Spawn(t) => ("spawn"@, spawn_line(t)),
        PlannerAction::ParallelSpawn(ts) => ("parallel_spawn"@, spawn_lines(ts@)),
        PlannerAction::Note(s) => ("note"@, s@),
        PlannerAction::GiveUp => ("give_up"@, Seq::empty()),
        PlannerAction::NoOp => ("noop"@, Seq::empty()),
    }
}

/// `[title] body`.
pub open spec fn action_message(action: PlannerAction) -> Seq<char> {
    "["@ + action_parts(action).0 + "] "@ + action_parts(action).1
}

fn push_spawn_line(out: &mut String, t: &SpawnTask)
    ensures
        final(out)@ == old(out)@ + spawn_line(*t),
{
    push_str(out, t.persona.as_str());
    push_str(out, " :: ");
    push_str(out, t.task.as_str());
}

/// The message shown for a planner step.
pub fn action_text(action: &PlannerAction) -> (r: String)
    ensures
        r@ == action_message(*action),
{
    let mut out = "[".to_owned();
    match action {
        PlannerAction::AddTodo(s) => {
            push_str(&mut out, "add_todo");
            push_str(&mut out, "] ");
            push_str(&mut out, s.as_str());
        },
        PlannerAction::SetStatus { id, status } => {
            push_str(&mut out, "set_status");
            push_str(&mut out, "] ");
            push_str(&mut out, "todo #");
            push_decimal(&mut out, *id);
            push_str(&mut out, " → ");
            push_str(&mut out, status.as_str());
        },
        PlannerAction::VfsWrite { path, contents } => {
            push_str(&mut out, "vfs_write");
            push_str(&mut out, "] ");
            push_str(&mut out, path.as_str());
            push_str(&mut out, "\n---\n");
            let shown = truncate_for_display(contents.as_str(), DISPLAY_CONTENT_LIMIT);
            push_str(&mut out, shown.as_str());
        },
        PlannerAction::Spawn(t) => {
            push_str(&mut out, "spawn");
            push_str(&mut out, "] ");
            push_spawn_line(&mut out, t);
        },
        PlannerAction::ParallelSpawn(ts) => {
            push_str(&mut out, "parallel_spawn");
            push_str(&mut out, "] ");
            let ghost head = out@;
            let mut i: usize = 0;
            while i < ts.len()
                invariant
                    i <= ts@.len(),
                    out@ == head + spawn_lines(ts@.take(i as int)),
                decreases ts@.len() - i,
            {
                assert(ts@.take(i as int + 1).drop_last() =~= ts@.take(i as int));
                if i > 0 {
                    push_str(&mut out, "\n");
                }
                push_spawn_line(&mut out, &ts[i]);
                i = i + 1;
            }
            assert(ts@.take(ts@.len() as int) =~= ts@);
        },
        PlannerAction::Note(s) => {
            push_str(&mut out, "note");
            push_str(&mut out, "] ");
            push_str(&mut out, s.as_str());
        },
        PlannerAction::GiveUp => {
            push_str(&mut out, "give_up");
            push_str(&mut out, "] ");
        },
        PlannerAction::NoOp => {
            push_str(&mut out, "noop");
            push_str(&mut out, "] ");
        },
    }
    out
}

/// `[subagent persona] status: summary`, for a finished sub-agent; `status`
/// is the outcome as the planner names it.
pub fn spawn_observation_text(persona: &str, status: &str, summary: &str) -> (r: String)
    ensures
        r@ == "[subagent "@ + persona@ + "] "@ + status@ + ": "@ + summary@,
{
    let mut out = "[subagent ".to_owned();
    push_str(&mut out, persona);
    push_str(&mut out, "] ");
    push_str(&mut out, status);
    push_str(&mut out, ": ");
    push_str(&mut out, summary);
    out
}

} // verus!
