//! The decisions of a Reverie agent prompt: what the planner is told, what
//! the user sees about memory and about the finished run, and what is
//! captured afterwards.

use vstd::prelude::*;

use crate::reverie_http::SmartContext;
use crate::text::push_str;
use crate::url::{decimal, push_decimal};

verus! {

/// The most planner iterations per prompt.
pub const DEFAULT_MAX_ITERATIONS: u32 = 32;

/// Capture source for the user's request after a completed run.
pub const USER_INTENT_SOURCE: &'static str = "zed-agent-user-intent";

/// Capture source for the run summary after a completed run.
pub const RUN_SUMMARY_SOURCE: &'static str = "zed-agent-run-summary";

/// Capture source for requests sent to memory-augmented agents.
pub const AUGMENTED_INTENT_SOURCE: &'static str = "zed-augment-user-intent";

/// Title of the observation that records a user's request.
pub const USER_PROMPT_TITLE: &'static str = "user prompt";

/// An observation to file with the daemon: a titled note.
#[derive(Debug)]
pub struct IntentObservation {
    pub title: &'static str,
    pub content: String,
    pub source: &'static str,
}

/// Something to file with the daemon after a run.
#[derive(Debug)]
pub struct PassiveCapture {
    pub content: String,
    pub source: &'static str,
}

/// The line shown to the user about memory: there is one only when memory
/// came back for the prompt, and it names the project.
pub fn memory_breadcrumb(project: &str, memory: Option<&SmartContext>) -> (r: Option<String>)
    ensures
        match memory {
            Some(_) => {
                &&& r matches Some(t)
                &&& t@ == "[memory] consulted reverie (project="@ + project@ + ")"@
            },
            None => r is None,
        },
{
    match memory {
        Some(_) => {
            let mut out = "[memory] consulted reverie (project=".to_owned();
            push_str(&mut out, project);
            push_str(&mut out, ")");
            Some(out)
        },
        None => None,
    }
}

/// What the planner is asked: the user's text, with the memory in front of
/// it when there is some.
pub fn planner_prompt(user_text: &str, memory: Option<&SmartContext>) -> (r: String)
    ensures
        r@ == (match memory {
            Some(m) => "Relevant memory:\n"@ + m.content@ + "\n\n"@ + user_text@,
            None => user_text@,
        }),
{
    match memory {
        Some(m) => {
            let mut out = "Relevant memory:\n".to_owned();
            push_str(&mut out, m.content.as_str());
            push_str(&mut out, "\n\n");
            push_str(&mut out, user_text);
            out
        },
        None => user_text.to_owned(),
    }
}

/// The summary shown when the planner stops; `termination` is the reason
/// as the planner names it.
pub open spec fn run_summary_spec(
    termination: Seq<char>,
    iterations: nat,
    todos_pending: nat,
    spawns: nat,
) -> Seq<char> {
    "planner terminated: "@ + termination + " (iterations="@ + decimal(iterations)
        + ", todos_pending="@ + decimal(todos_pending) + ", spawns="@ + decimal(spawns) + ")"@
}

pub fn run_summary(termination: &str, iterations: u64, todos_pending: u64, spawns: u64) -> (r:
    String)
    ensures
        r@ == run_summary_spec(termination@, iterations as nat, todos_pending as nat, spawns as nat),
{
    let mut out = "planner terminated: ".to_owned();
    push_str(&mut out, termination);
    push_str(&mut out, " (iterations=");
    push_decimal(&mut out, iterations);
    push_str(&mut out, ", todos_pending=");
    push_decimal(&mut out, todos_pending);
    push_str(&mut out, ", spawns=");
    push_decimal(&mut out, spawns);
    push_str(&mut out, ")");
    out
}

/// What is filed after a run: the user's request and the summary, but only
/// when the run completed.
pub fn run_captures(completed: bool, original_prompt: String, summary: String) -> (r: Vec<
    PassiveCapture,
>)
    ensures
        completed ==> {
            &&& r@.len() == 2
            &&& r@[0].content@ == original_prompt@
            &&& r@[0].source@ == USER_INTENT_SOURCE@
            &&& r@[1].content@ == summary@
            &&& r@[1].source@ == RUN_SUMMARY_SOURCE@
        },
        !completed ==> r@.len() == 0,
{
    let mut r: Vec<PassiveCapture> = Vec::new();
    if completed {
        r.push(PassiveCapture { content: original_prompt, source: USER_INTENT_SOURCE });
        r.push(PassiveCapture { content: summary, source: RUN_SUMMARY_SOURCE });
    }
    r
}

/// What is filed after a prompt to a memory-augmented agent: the user's
/// text as a "user prompt" observation, but only when the agent ended its
/// turn normally.
pub fn augmented_intent_capture(ended_turn: bool, user_text: String) -> (r: Option<
    IntentObservation,
>)
    ensures
        ended_turn ==> {
            &&& r matches Some(o)
            &&& o.title@ == USER_PROMPT_TITLE@
            &&& o.content@ == user_text@
            &&& o.source@ == AUGMENTED_INTENT_SOURCE@
        },
        !ended_turn ==> r is None,
{
    if ended_turn {
        Some(
            IntentObservation {
                title: USER_PROMPT_TITLE,
                content: user_text,
                source: AUGMENTED_INTENT_SOURCE,
            },
        )
    } else {
        None
    }
}

} // verus!
