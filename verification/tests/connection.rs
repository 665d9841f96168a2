use reverie::connection::{
    augmented_intent_capture, memory_breadcrumb, planner_prompt, run_captures, run_summary,
    AUGMENTED_INTENT_SOURCE, RUN_SUMMARY_SOURCE, USER_INTENT_SOURCE, USER_PROMPT_TITLE,
};
use reverie::reverie_http::SmartContext;
use reverie::server::ReverieAgentServer;

#[test]
fn breadcrumb_names_the_project() {
    let ctx = SmartContext { content: "- item".into() };
    assert_eq!(
        memory_breadcrumb("myproj", Some(&ctx)).as_deref(),
        Some("[memory] consulted reverie (project=myproj)")
    );
}

#[test]
fn no_breadcrumb_without_memory() {
    assert_eq!(memory_breadcrumb("myproj", None), None);
}

#[test]
fn augmented_capture_only_on_end_turn() {
    let obs = augmented_intent_capture(true, "fix the bug".into()).expect("captured");
    assert_eq!(obs.title, USER_PROMPT_TITLE);
    assert_eq!(obs.title, "user prompt");
    assert_eq!(obs.content, "fix the bug");
    assert_eq!(obs.source, AUGMENTED_INTENT_SOURCE);
    assert_eq!(obs.source, "zed-augment-user-intent");
    assert!(augmented_intent_capture(false, "fix the bug".into()).is_none());
}

#[test]
fn planner_prompt_prepends_memory() {
    let ctx = SmartContext { content: "- item".into() };
    assert_eq!(planner_prompt("do X", Some(&ctx)), "Relevant memory:\n- item\n\ndo X");
    assert_eq!(planner_prompt("do X", None), "do X");
}

#[test]
fn summary_reports_counts() {
    assert_eq!(
        run_summary("Completed", 3, 0, 12),
        "planner terminated: Completed (iterations=3, todos_pending=0, spawns=12)"
    );
}

#[test]
fn captures_only_after_completed_runs() {
    let caps = run_captures(true, "ask".into(), "sum".into());
    assert_eq!(caps.len(), 2);
    assert_eq!(caps[0].content, "ask");
    assert_eq!(caps[0].source, USER_INTENT_SOURCE);
    assert_eq!(caps[1].content, "sum");
    assert_eq!(caps[1].source, RUN_SUMMARY_SOURCE);
    assert!(run_captures(false, "ask".into(), "sum".into()).is_empty());
}

#[test]
fn project_resolution_order() {
    assert_eq!(
        ReverieAgentServer::resolve_project(Some("env".into()), Some("wt".into())),
        "env"
    );
    assert_eq!(ReverieAgentServer::resolve_project(None, Some("wt".into())), "wt");
    assert_eq!(ReverieAgentServer::resolve_project(None, None), "unknown-project");
    assert_eq!(ReverieAgentServer::new().agent_id(), "reverie");
    assert_eq!(ReverieAgentServer::default(), ReverieAgentServer::new());
}
