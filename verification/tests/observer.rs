use reverie::observer::{
    action_text, spawn_observation_text, truncate_for_display, PlannerAction, SpawnTask,
};

#[test]
fn truncate_keeps_short_text() {
    assert_eq!(truncate_for_display("hello", 5), "hello");
    assert_eq!(truncate_for_display("", 0), "");
}

#[test]
fn truncate_cuts_by_characters() {
    assert_eq!(truncate_for_display("hello!", 5), "hello… [truncated]");
    assert_eq!(truncate_for_display("ééé", 2), "éé… [truncated]");
}

#[test]
fn action_texts() {
    assert_eq!(action_text(&PlannerAction::AddTodo("fix it".into())), "[add_todo] fix it");
    assert_eq!(
        action_text(&PlannerAction::SetStatus { id: 12, status: "Done".into() }),
        "[set_status] todo #12 → Done"
    );
    assert_eq!(
        action_text(&PlannerAction::VfsWrite { path: "a.md".into(), contents: "x".repeat(201) }),
        format!("[vfs_write] a.md\n---\n{}… [truncated]", "x".repeat(200))
    );
    assert_eq!(
        action_text(&PlannerAction::Spawn(SpawnTask { persona: "critic".into(), task: "review".into() })),
        "[spawn] critic :: review"
    );
    assert_eq!(
        action_text(&PlannerAction::ParallelSpawn(vec![
            SpawnTask { persona: "a".into(), task: "1".into() },
            SpawnTask { persona: "b".into(), task: "2".into() },
        ])),
        "[parallel_spawn] a :: 1\nb :: 2"
    );
    assert_eq!(action_text(&PlannerAction::ParallelSpawn(vec![])), "[parallel_spawn] ");
    assert_eq!(action_text(&PlannerAction::Note("n".into())), "[note] n");
    assert_eq!(action_text(&PlannerAction::GiveUp), "[give_up] ");
    assert_eq!(action_text(&PlannerAction::NoOp), "[noop] ");
}

#[test]
fn spawn_observation_text_layout() {
    assert_eq!(
        spawn_observation_text("critic", "Completed", "all good"),
        "[subagent critic] Completed: all good"
    );
}
