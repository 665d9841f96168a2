//! The planner's side of the language-model conversation: the transcript it
//! keeps, and the hand-off of each turn to the driver that talks to the
//! model.

use vstd::prelude::*;

use crate::text::push_str;

verus! {

/// The sending half of an async channel.
#[verifier::external_type_specification]
#[verifier::external_body]
#[verifier::reject_recursive_types(T)]
pub struct ExAsyncSender<T>(smol::channel::Sender<T>);

/// The sending half of a std channel.
#[verifier::external_type_specification]
#[verifier::external_body]
#[verifier::reject_recursive_types(T)]
pub struct ExStdSender<T>(std::sync::mpsc::Sender<T>);

/// The receiving half of a std channel.
#[verifier::external_type_specification]
#[verifier::external_body]
#[verifier::reject_recursive_types(T)]
pub struct ExStdReceiver<T>(std::sync::mpsc::Receiver<T>);

/// Who said a transcript line.
#[derive(Debug, Copy, Clone, PartialEq, Eq, Structural)]
pub enum Role {
    System,
    User,
    Assistant,
}

/// One model call: the conversation so far and where the reply (the
/// model's text, or the driver's error) goes.
pub struct LlmCallRequest {
    pub messages: Vec<(Role, String)>,
    pub reply: std::sync::mpsc::Sender<Result<String, String>>,
}

/// A fresh one-shot reply channel.
///
/// Trusted: calls `std::sync::mpsc::channel`; nothing is stated about the
/// two halves beyond their types.
#[verifier::external_body]
fn reply_channel() -> (r: (
    std::sync::mpsc::Sender<Result<String, String>>,
    std::sync::mpsc::Receiver<Result<String, String>>,
)) {
    std::sync::mpsc::channel()
}

/// Waits for the driver's reply.
///
/// Trusted: calls `std::sync::mpsc::Receiver::recv`, which fails when the
/// sending half is gone; the error is rendered with `to_string`. The reply
/// comes from another thread, so nothing about it is stated.
#[verifier::external_body]
fn receive_reply(rx: &std::sync::mpsc::Receiver<Result<String, String>>) -> (r: Result<
    Result<String, String>,
    String,
>) {
    match rx.recv() {
        Ok(reply) => Ok(reply),
        Err(e) => Err(e.to_string()),
    }
}

/// Another handle on the same request channel.
///
/// Trusted: calls `async_channel::Sender::clone`, which makes a handle on
/// the same shared channel (it copies the `Arc` to the channel and counts
/// one more sender); the handle is taken to be the same value.
#[verifier::external_body]
fn clone_sender(tx: &smol::channel::Sender<LlmCallRequest>) -> (r: smol::channel::Sender<
    LlmCallRequest,
>)
    ensures
        r == *tx,
{
    tx.clone()
}

/// The transcript as roles and texts.
pub open spec fn lines_view(t: Seq<(Role, String)>) -> Seq<(Role, Seq<char>)> {
    t.map_values(|l: (Role, String)| (l.0, l.1@))
}

/// A language-model backend for the planner that forwards every turn, with
/// the whole transcript, to a driver over a channel.
pub struct ZedLlmBackend {
    transcript: Vec<(Role, String)>,
    system_prompt: String,
    request_tx: smol::channel::Sender<LlmCallRequest>,
}

impl ZedLlmBackend {
    /// The transcript: the system prompt first, then the turns.
    pub closed spec fn transcript_view(&self) -> Seq<(Role, Seq<char>)> {
        lines_view(self.transcript@)
    }

    pub closed spec fn system_view(&self) -> Seq<char> {
        self.system_prompt@
    }

    /// The channel on which turns go to the driver.
    pub closed spec fn channel(&self) -> smol::channel::Sender<LlmCallRequest> {
        self.request_tx
    }

    /// The transcript starts with the system prompt.
    #[verifier::type_invariant]
    spec fn starts_with_system_prompt(&self) -> bool {
        &&& lines_view(self.transcript@).len() >= 1
        &&& lines_view(self.transcript@)[0] == (Role::System, self.system_prompt@)
    }

    /// A backend whose system prompt is the planner's base prompt followed
    /// by the reply-format instructions; the transcript holds just that.
    pub fn new(
        base_prompt: &str,
        protocol_suffix: &str,
        request_tx: smol::channel::Sender<LlmCallRequest>,
    ) -> (r: Self)
        ensures
            r.system_view() == base_prompt@ + protocol_suffix@,
            r.transcript_view() == seq![(Role::System, base_prompt@ + protocol_suffix@)],
            r.channel() == request_tx,
    {
        let mut system_prompt = base_prompt.to_owned();
        push_str(&mut system_prompt, protocol_suffix);
        let mut transcript: Vec<(Role, String)> = Vec::new();
        transcript.push((Role::System, system_prompt.clone()));
        let r = ZedLlmBackend { transcript, system_prompt, request_tx };
        assert(r.transcript_view() =~= seq![(Role::System, base_prompt@ + protocol_suffix@)]);
        r
    }

    /// The transcript, oldest line first.
    pub fn transcript(&self) -> (r: &[(Role, String)])
        ensures
            lines_view(r@) == self.transcript_view(),
            self.transcript_view().len() >= 1,
            self.transcript_view()[0] == (Role::System, self.system_view()),
    {
        proof {
            use_type_invariant(self);
        }
        self.transcript.as_slice()
    }

    fn push_line(&mut self, role: Role, text: String)
        ensures
            final(self).transcript_view() == old(self).transcript_view().push((role, text@)),
            final(self).system_view() == old(self).system_view(),
            final(self).channel() == old(self).channel(),
    {
        proof {
            use_type_invariant(&*self);
        }
        // The transcript is swapped out while it grows; what stands in for
        // it meanwhile is the system prompt alone, which keeps the invariant.
        let mut lines: Vec<(Role, String)> = Vec::new();
        lines.push((Role::System, self.system_prompt.clone()));
        std::mem::swap(&mut lines, &mut self.transcript);
        lines.push((role, text));
        std::mem::swap(&mut lines, &mut self.transcript);
        assert(self.transcript_view() =~= old(self).transcript_view().push((role, text@)));
    }

    /// Adds the user's original request as a turn before the first step;
    /// an empty request adds nothing.
    pub fn seed_user_message(&mut self, text: &str)
        ensures
            final(self).system_view() == old(self).system_view(),
            final(self).channel() == old(self).channel(),
            final(self).transcript_view() == (if text@.len() == 0 {
                old(self).transcript_view()
            } else {
                old(self).transcript_view().push((Role::User, text@))
            }),
    {
        if text.unicode_len() == 0 {
            return;
        }
        self.push_line(Role::User, text.to_owned());
    }

    /// Adds a user turn `NUDGE: msg`.
    pub fn inject_nudge(&mut self, msg: &str)
        ensures
            final(self).system_view() == old(self).system_view(),
            final(self).channel() == old(self).channel(),
            final(self).transcript_view() == old(self).transcript_view().push(
                (Role::User, "NUDGE: "@ + msg@),
            ),
    {
        let mut line = "NUDGE: ".to_owned();
        push_str(&mut line, msg);
        self.push_line(Role::User, line);
    }

    /// A backend for a sub-agent: same system prompt and driver, but a
    /// transcript that holds only the system prompt.
    pub fn child(&self) -> (r: Self)
        ensures
            r.system_view() == self.system_view(),
            r.transcript_view() == seq![(Role::System, self.system_view())],
            r.channel() == self.channel(),
    {
        let mut transcript: Vec<(Role, String)> = Vec::new();
        transcript.push((Role::System, self.system_prompt.clone()));
        let r = ZedLlmBackend {
            transcript,
            system_prompt: self.system_prompt.clone(),
            request_tx: clone_sender(&self.request_tx),
        };
        assert(r.transcript_view() =~= seq![(Role::System, self.system_view())]);
        r
    }

    /// Starts a planner turn: records `state_message` as a user turn and
    /// returns the messages to send to the driver, which are the whole
    /// transcript with that turn last.
    pub fn request(&mut self, state_message: String) -> (m: Vec<(Role, String)>)
        ensures
            final(self).system_view() == old(self).system_view(),
            final(self).channel() == old(self).channel(),
            final(self).transcript_view() == old(self).transcript_view().push(
                (Role::User, state_message@),
            ),
            lines_view(m@) == final(self).transcript_view(),
    {
        self.push_line(Role::User, state_message);
        self.copy_transcript()
    }

    /// Finishes a planner turn with what came back: `Err` when the reply
    /// could not be received, else the driver's answer. The model's text is
    /// recorded as the assistant's turn and returned; an error records
    /// nothing and is returned as it is.
    pub fn settle_reply(&mut self, reply: Result<Result<String, String>, String>) -> (r: Result<
        String,
        String,
    >)
        ensures
            final(self).system_view() == old(self).system_view(),
            final(self).channel() == old(self).channel(),
            r == (match reply {
                Ok(Ok(t)) => Ok::<String, String>(t),
                Ok(Err(e)) => Err::<String, String>(e),
                Err(e) => Err::<String, String>(e),
            }),
            match reply {
                Ok(Ok(t)) => final(self).transcript_view() == old(self).transcript_view().push(
                    (Role::Assistant, t@),
                ),
                _ => final(self).transcript_view() == old(self).transcript_view(),
            },
    {
        match reply {
            Ok(Ok(text)) => {
                self.push_line(Role::Assistant, text.clone());
                Ok(text)
            },
            Ok(Err(e)) => Err(e),
            Err(e) => Err(e),
        }
    }

    /// Hands a request to the driver on this backend's channel, blocking
    /// while the channel is full. What is handed over is the whole
    /// transcript.
    ///
    /// Trusted: calls `async_channel::Sender::send_blocking`. It fails only
    /// when the channel is closed, and the error then displays as "sending
    /// into a closed channel" (its `Display` impl writes that text). Whether
    /// it fails depends on the other side, so success is not stated.
    #[verifier::external_body]
    fn send_request(&self, req: LlmCallRequest) -> (r: Result<(), String>)
        requires
            lines_view(req.messages@) == self.transcript_view(),
        ensures
            r matches Err(m) ==> m@ == "sending into a closed channel"@,
    {
        match self.request_tx.send_blocking(req) {
            Ok(()) => Ok(()),
            Err(e) => Err(e.to_string()),
        }
    }

    /// Finishes a planner turn once its request was handed to the driver
    /// (`sent`): a failed hand-off is returned as the error and records
    /// nothing; otherwise the reply is awaited on `reply_rx` and settled by
    /// [`ZedLlmBackend::settle_reply`].
    pub fn await_reply(
        &mut self,
        sent: Result<(), String>,
        reply_rx: &std::sync::mpsc::Receiver<Result<String, String>>,
    ) -> (r: Result<String, String>)
        ensures
            final(self).system_view() == old(self).system_view(),
            final(self).channel() == old(self).channel(),
            sent matches Err(e) ==> r == Err::<String, String>(e),
            match r {
                Ok(text) => {
                    &&& sent is Ok
                    &&& final(self).transcript_view() == old(self).transcript_view().push(
                        (Role::Assistant, text@),
                    )
                },
                Err(_) => final(self).transcript_view() == old(self).transcript_view(),
            },
    {
        match sent {
            Err(e) => Err(e),
            Ok(()) => {
                let reply = receive_reply(reply_rx);
                self.settle_reply(reply)
            },
        }
    }

    /// One planner turn: [`ZedLlmBackend::request`], then the messages go
    /// to the driver on [`ZedLlmBackend::channel`] with a fresh reply
    /// channel, then [`ZedLlmBackend::await_reply`] with the outcome of that
    /// hand-off. When the driver is gone the send fails with "sending into a
    /// closed channel" and no assistant turn is recorded.
    pub fn exchange(&mut self, state_message: String) -> (r: Result<String, String>)
        ensures
            final(self).system_view() == old(self).system_view(),
            final(self).channel() == old(self).channel(),
            match r {
                Ok(text) => final(self).transcript_view() == old(
                    self,
                ).transcript_view().push((Role::User, state_message@)).push(
                    (Role::Assistant, text@),
                ),
                Err(_) => final(self).transcript_view() == old(self).transcript_view().push(
                    (Role::User, state_message@),
                ),
            },
    {
        let messages = self.request(state_message);
        let (reply_tx, reply_rx) = reply_channel();
        let sent = self.send_request(LlmCallRequest { messages, reply: reply_tx });
        self.await_reply(sent, &reply_rx)
    }

    /// A copy of the transcript.
    fn copy_transcript(&self) -> (r: Vec<(Role, String)>)
        ensures
            lines_view(r@) == self.transcript_view(),
    {
        let mut out: Vec<(Role, String)> = Vec::new();
        let mut i: usize = 0;
        while i < self.transcript.len()
            invariant
                i <= self.transcript@.len(),
                lines_view(out@) == lines_view(self.transcript@.take(i as int)),
            decreases self.transcript@.len() - i,
        {
            let line = &self.transcript[i];
            let ghost before = out@;
            out.push((line.0, line.1.clone()));
            assert(lines_view(out@) =~= lines_view(before).push((line.0, line.1@)));
            assert(self.transcript@.take(i as int + 1) =~= self.transcript@.take(i as int).push(
                *line,
            ));
            assert(lines_view(self.transcript@.take(i as int + 1)) =~= lines_view(
                self.transcript@.take(i as int),
            ).push((line.0, line.1@)));
            i = i + 1;
        }
        assert(self.transcript@.take(self.transcript@.len() as int) =~= self.transcript@);
        out
    }
}

} // verus!
