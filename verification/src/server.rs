//! The Reverie agent server: its name and which project its memory is
//! filed under.

use vstd::prelude::*;

verus! {

/// The id under which the Reverie agent is registered.
pub const REVERIE_AGENT_NAME: &'static str = "reverie";

/// The project name used when neither the environment nor a worktree
/// names one.
pub const UNKNOWN_PROJECT: &'static str = "unknown-project";

/// The agent server that runs the Reverie planner.
#[derive(Debug, Copy, Clone, PartialEq, Eq, Structural)]
pub struct ReverieAgentServer;

impl ReverieAgentServer {
    pub fn new() -> (r: Self)
        ensures
            r == ReverieAgentServer,
    {
        ReverieAgentServer
    }

    /// The agent's id.
    pub fn agent_id(&self) -> (r: &'static str)
        ensures
            r@ == REVERIE_AGENT_NAME@,
    {
        REVERIE_AGENT_NAME
    }

    /// The project memory is filed under: the configured name when there is
    /// one, else the name of the first visible worktree, else
    /// [`UNKNOWN_PROJECT`].
    pub fn resolve_project(configured: Option<String>, first_worktree: Option<String>) -> (r:
        String)
        ensures
            r@ == (match configured {
                Some(p) => p@,
                None => match first_worktree {
                    Some(w) => w@,
                    None => UNKNOWN_PROJECT@,
                },
            }),
    {
        match configured {
            Some(p) => p,
            None => match first_worktree {
                Some(w) => w,
                None => UNKNOWN_PROJECT.to_owned(),
            },
        }
    }
}

impl Default for ReverieAgentServer {
    fn default() -> (r: Self)
        ensures
            r == ReverieAgentServer,
    {
        ReverieAgentServer::new()
    }
}

} // verus!
