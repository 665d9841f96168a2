use reverie::backend::{LlmCallRequest, Role, ZedLlmBackend};

fn roles(b: &ZedLlmBackend) -> Vec<Role> {
    b.transcript().iter().map(|(r, _)| *r).collect()
}

#[test]
fn backend_parses_add_todo_action() {
    let (req_tx, req_rx) = smol::channel::unbounded::<LlmCallRequest>();
    let driver = smol::unblock(move || {
        let request = req_rx.recv_blocking().unwrap();
        assert!(matches!(request.messages.first(), Some((Role::System, _))));
        assert!(matches!(request.messages.last(), Some((Role::User, _))));
        request
            .reply
            .send(Ok(r#"{"action":"add_todo","description":"investigate the bug"}"#.to_string()))
            .unwrap();
    });

    let mut backend = ZedLlmBackend::new("base", "suffix", req_tx);
    let reply = backend.exchange("state".to_string()).expect("ok");
    smol::block_on(driver);

    assert_eq!(reply, r#"{"action":"add_todo","description":"investigate the bug"}"#);
    let transcript = backend.transcript();
    assert_eq!(transcript.len(), 3);
    assert_eq!(transcript[0].0, Role::System);
    assert_eq!(transcript[1].0, Role::User);
    assert_eq!(transcript[2].0, Role::Assistant);
    assert_eq!(transcript[0].1, "basesuffix");
    assert_eq!(transcript[1].1, "state");
}

#[test]
fn child_has_fresh_transcript() {
    let (req_tx, req_rx) = smol::channel::unbounded::<LlmCallRequest>();
    let driver = smol::unblock(move || {
        let parent_request = req_rx.recv_blocking().unwrap();
        assert_eq!(parent_request.messages.len(), 2, "parent: [System, User]");
        parent_request.reply.send(Ok(r#"{"action":"noop"}"#.to_string())).unwrap();

        let child_request = req_rx.recv_blocking().unwrap();
        assert_eq!(
            child_request.messages.len(),
            2,
            "child should start fresh with [System, User], no parent history"
        );
        child_request.reply.send(Ok(r#"{"action":"noop"}"#.to_string())).unwrap();
    });

    let mut parent = ZedLlmBackend::new("base", "", req_tx);
    parent.exchange("s1".to_string()).unwrap();

    let mut child = parent.child();
    assert_eq!(roles(&child), vec![Role::System]);
    child.exchange("s2".to_string()).unwrap();

    smol::block_on(driver);
    assert_eq!(roles(&parent), vec![Role::System, Role::User, Role::Assistant]);
}

#[test]
fn inject_nudge_appends_user_turn_before_next_state() {
    let (req_tx, req_rx) = smol::channel::unbounded::<LlmCallRequest>();
    let driver = smol::unblock(move || {
        let request = req_rx.recv_blocking().unwrap();
        assert_eq!(request.messages.len(), 3);
        assert_eq!(request.messages[1].0, Role::User);
        assert!(request.messages[1].1.contains("NUDGE: wake up"));
        request.reply.send(Ok(r#"{"action":"noop"}"#.to_string())).unwrap();
    });

    let mut backend = ZedLlmBackend::new("base", "", req_tx);
    backend.inject_nudge("wake up");
    backend.exchange("state".to_string()).unwrap();
    smol::block_on(driver);
}

#[test]
fn transport_error_propagates_on_dropped_driver() {
    let (req_tx, req_rx) = smol::channel::unbounded::<LlmCallRequest>();
    drop(req_rx);

    let mut backend = ZedLlmBackend::new("base", "", req_tx);
    let result = backend.exchange("state".to_string());
    assert_eq!(
        result,
        Err("sending into a closed channel".to_string()),
        "expected Transport error when driver is gone"
    );
    assert_eq!(roles(&backend), vec![Role::System, Role::User]);
}

#[test]
fn driver_error_is_returned_without_assistant_turn() {
    let (req_tx, req_rx) = smol::channel::unbounded::<LlmCallRequest>();
    let driver = smol::unblock(move || {
        let request = req_rx.recv_blocking().unwrap();
        request.reply.send(Err("model unavailable".to_string())).unwrap();
    });
    let mut backend = ZedLlmBackend::new("base", "", req_tx);
    let result = backend.exchange("state".to_string());
    smol::block_on(driver);
    assert_eq!(result, Err("model unavailable".to_string()));
    assert_eq!(roles(&backend), vec![Role::System, Role::User]);
}

#[test]
fn seed_user_message_skips_empty_text() {
    let (req_tx, _req_rx) = smol::channel::unbounded::<LlmCallRequest>();
    let mut backend = ZedLlmBackend::new("base", "", req_tx);
    backend.seed_user_message("");
    assert_eq!(roles(&backend), vec![Role::System]);
    backend.seed_user_message("do the thing");
    assert_eq!(roles(&backend), vec![Role::System, Role::User]);
    assert_eq!(backend.transcript()[1].1, "do the thing");
}

#[test]
fn request_holds_whole_transcript_with_state_last() {
    let (req_tx, _req_rx) = smol::channel::unbounded::<LlmCallRequest>();
    let mut backend = ZedLlmBackend::new("base", "", req_tx);
    backend.inject_nudge("wake up");
    let messages = backend.request("state".to_string());
    assert_eq!(
        messages,
        vec![
            (Role::System, "base".to_string()),
            (Role::User, "NUDGE: wake up".to_string()),
            (Role::User, "state".to_string()),
        ]
    );
    assert_eq!(backend.transcript(), messages.as_slice());
}

#[test]
fn settle_reply_records_only_model_text() {
    let (req_tx, _req_rx) = smol::channel::unbounded::<LlmCallRequest>();
    let mut backend = ZedLlmBackend::new("base", "", req_tx);
    backend.request("state".to_string());

    assert_eq!(backend.settle_reply(Err("receiving on a closed channel".into())),
        Err("receiving on a closed channel".to_string()));
    assert_eq!(backend.settle_reply(Ok(Err("model unavailable".into()))),
        Err("model unavailable".to_string()));
    assert_eq!(roles(&backend), vec![Role::System, Role::User]);

    assert_eq!(backend.settle_reply(Ok(Ok("{\"action\":\"noop\"}".into()))),
        Ok("{\"action\":\"noop\"}".to_string()));
    assert_eq!(roles(&backend), vec![Role::System, Role::User, Role::Assistant]);
    assert_eq!(backend.transcript()[2].1, "{\"action\":\"noop\"}");
}

#[test]
fn child_sends_on_the_parent_channel() {
    let (req_tx, req_rx) = smol::channel::unbounded::<LlmCallRequest>();
    let parent = ZedLlmBackend::new("base", "", req_tx);
    let mut child = parent.child();
    let driver = smol::unblock(move || {
        let request = req_rx.recv_blocking().unwrap();
        assert_eq!(
            request.messages,
            vec![(Role::System, "base".to_string()), (Role::User, "s".to_string())]
        );
        request.reply.send(Ok("ok".to_string())).unwrap();
    });
    assert_eq!(child.exchange("s".to_string()), Ok("ok".to_string()));
    smol::block_on(driver);
}

#[test]
fn await_reply_returns_failed_hand_off_as_error() {
    let (req_tx, _req_rx) = smol::channel::unbounded::<LlmCallRequest>();
    let mut backend = ZedLlmBackend::new("base", "", req_tx);
    backend.request("state".to_string());
    let (_reply_tx, reply_rx) = std::sync::mpsc::channel::<Result<String, String>>();
    assert_eq!(
        backend.await_reply(Err("sending into a closed channel".to_string()), &reply_rx),
        Err("sending into a closed channel".to_string())
    );
    assert_eq!(roles(&backend), vec![Role::System, Role::User]);
}

#[test]
fn await_reply_settles_what_the_driver_sent() {
    let (req_tx, _req_rx) = smol::channel::unbounded::<LlmCallRequest>();
    let mut backend = ZedLlmBackend::new("base", "", req_tx);
    backend.request("state".to_string());
    let (reply_tx, reply_rx) = std::sync::mpsc::channel::<Result<String, String>>();
    reply_tx.send(Ok("{\"action\":\"noop\"}".to_string())).unwrap();
    assert_eq!(backend.await_reply(Ok(()), &reply_rx), Ok("{\"action\":\"noop\"}".to_string()));
    assert_eq!(roles(&backend), vec![Role::System, Role::User, Role::Assistant]);

    drop(reply_tx);
    let (gone_tx, gone_rx) = std::sync::mpsc::channel::<Result<String, String>>();
    drop(gone_tx);
    assert!(backend.await_reply(Ok(()), &gone_rx).is_err());
    assert_eq!(roles(&backend), vec![Role::System, Role::User, Role::Assistant]);
}
