use vstd::prelude::*;
use crate::text::prefixed;
use crate::notify::{ChatReply, Notification};

verus! {

/// One earlier turn of a conversation.
#[derive(Debug, Clone)]
pub struct ChatMessage {
    pub role: String,
    pub content: String,
}

/// The mode a prompt is asked in, with the flags that belong to it.
#[derive(Debug, Clone, Copy, PartialEq, Eq, Structural)]
pub enum PromptType {
    GenericPrompt,
    ScoreResumesPrompt { is_scoring_criteria: bool },
    ScoreDocumentsPrompt { is_scoring_criteria: bool, include_reasoning: bool },
    SummarizePrompt,
    QueryTablesPrompt,
    QueryImagesPrompt,
    SuperAgentPrompt,
}

/// The options a prompt may carry.
#[derive(Debug, Clone, Copy, PartialEq, Eq, Structural)]
pub struct PromptOptions {
    pub prompt_type: PromptType,
}

/// The mode a prompt is sent in: the one chosen, else the generic one.
pub open spec fn mode_of(options: Option<PromptOptions>) -> PromptType {
    match options {
        Some(o) => o.prompt_type,
        None => PromptType::GenericPrompt,
    }
}

/// Everything the remote service is sent to start a chat answer.
#[derive(Debug, Clone)]
pub struct ChatRequest {
    pub name: String,
    pub prompt: String,
    pub history: Vec<ChatMessage>,
    pub attached_files: Option<String>,
    pub session_id: Option<i32>,
    pub prompt_type: PromptType,
}

impl ChatRequest {
    /// Gathers a chat request; without options the prompt is generic.
    pub fn new(
        name: String,
        prompt: String,
        history: Vec<ChatMessage>,
        session_id: Option<i32>,
        attached_files: Option<String>,
        options: Option<PromptOptions>,
    ) -> (r: ChatRequest)
        ensures
            r.name == name,
            r.prompt == prompt,
            r.history == history,
            r.session_id == session_id,
            r.attached_files == attached_files,
            r.prompt_type == mode_of(options),
    {
        let prompt_type = match options {
            Some(o) => o.prompt_type,
            None => PromptType::GenericPrompt,
        };
        ChatRequest { name, prompt, history, attached_files, session_id, prompt_type }
    }
}

/// What a chat session asks its driver to do, in order.
#[derive(Debug, Clone)]
pub enum ChatAction {
    /// Deliver a notification to the user interface.
    Notify(Notification),
    /// Ask the remote service to stop generating; its failure is ignored.
    StopGeneration,
}

/// The actions for one message of an answer: the first message is preceded
/// by the first-token notification.
pub open spec fn message_actions(started: bool, reply: ChatReply) -> Seq<ChatAction> {
    if started {
        seq![ChatAction::Notify(Notification::NewMessage(reply))]
    } else {
        seq![
            ChatAction::Notify(Notification::FirstToken),
            ChatAction::Notify(Notification::NewMessage(reply)),
        ]
    }
}

/// The actions when the stream ends normally.
pub open spec fn end_actions() -> Seq<ChatAction> {
    seq![ChatAction::Notify(Notification::StreamCompleted)]
}

/// The actions when the stream fails: generation is stopped, then the
/// answer is closed. The first-token signal belongs to the first message
/// alone, so a failure never gives one.
pub open spec fn error_actions() -> Seq<ChatAction> {
    seq![ChatAction::StopGeneration, ChatAction::Notify(Notification::StreamCompleted)]
}

/// The actions for a run of messages, `started` telling whether one came before.
pub open spec fn chat_run(started: bool, events: Seq<ChatReply>) -> Seq<ChatAction>
    decreases events.len(),
{
    if events.len() == 0 {
        Seq::empty()
    } else {
        message_actions(started, events[0]) + chat_run(true, events.drop_first())
    }
}

/// Drives one chat answer: it turns what the stream delivers into actions.
pub struct ChatSession {
    started: bool,
    finished: bool,
    received: Ghost<Seq<ChatReply>>,
    emitted: Ghost<Seq<ChatAction>>,
}

impl ChatSession {
    /// Whether a message of the stream has been received.
    pub closed spec fn is_started(&self) -> bool {
        self.started
    }

    /// Whether the answer is over.
    pub closed spec fn is_finished(&self) -> bool {
        self.finished
    }

    /// The messages received so far, in order.
    pub closed spec fn received(&self) -> Seq<ChatReply> {
        self.received@
    }

    /// The actions handed out so far, in order.
    pub closed spec fn emitted(&self) -> Seq<ChatAction> {
        self.emitted@
    }

    /// While the answer runs, a message has been received exactly when the
    /// session has started, and the actions so far are those of the messages.
    pub closed spec fn wf(&self) -> bool {
        !self.finished ==> (self.started <==> self.received@.len() > 0) && self.emitted@
            == chat_run(false, self.received@)
    }

    /// A session before the stream has delivered anything.
    pub fn new() -> (r: Self)
        ensures
            r.wf(),
            !r.is_started(),
            !r.is_finished(),
            r.received() == Seq::<ChatReply>::empty(),
            r.emitted() == Seq::<ChatAction>::empty(),
    {
        ChatSession {
            started: false,
            finished: false,
            received: Ghost(Seq::empty()),
            emitted: Ghost(Seq::empty()),
        }
    }

    /// Whether the answer is over.
    pub fn finished(&self) -> (r: bool)
        ensures
            r == self.is_finished(),
    {
        self.finished
    }

    /// A message has arrived.
    pub fn on_message(&mut self, reply: ChatReply) -> (r: Vec<ChatAction>)
        requires
            old(self).wf(),
            !old(self).is_finished(),
        ensures
            final(self).wf(),
            r@ == message_actions(old(self).is_started(), reply),
            final(self).is_started(),
            !final(self).is_finished(),
            final(self).received() == old(self).received().push(reply),
            final(self).emitted() == old(self).emitted() + r@,
            final(self).emitted() == chat_run(false, final(self).received()),
    {
        let mut r: Vec<ChatAction> = Vec::new();
        if !self.started {
            r.push(ChatAction::Notify(Notification::FirstToken));
        }
        self.started = true;
        r.push(ChatAction::Notify(Notification::NewMessage(reply)));
        proof {
            assert(r@ =~= message_actions(old(self).is_started(), reply));
            lemma_run_push(false, self.received@, reply);
            self.received@ = self.received@.push(reply);
            self.emitted@ = self.emitted@ + r@;
        }
        r
    }

    /// The stream has ended normally.
    pub fn on_stream_end(&mut self) -> (r: Vec<ChatAction>)
        requires
            old(self).wf(),
            !old(self).is_finished(),
        ensures
            final(self).wf(),
            r@ == end_actions(),
            final(self).is_finished(),
            final(self).is_started() == old(self).is_started(),
            final(self).received() == old(self).received(),
            final(self).emitted() == old(self).emitted() + r@,
            final(self).emitted() == chat_run(false, old(self).received()) + end_actions(),
    {
        self.finished = true;
        let r = vec![ChatAction::Notify(Notification::StreamCompleted)];
        proof {
            assert(r@ =~= end_actions());
            self.emitted@ = self.emitted@ + r@;
        }
        r
    }

    /// The stream has failed with `reason`: the actions to take, and the
    /// error that the whole exchange returns.
    pub fn on_stream_error(&mut self, reason: &str) -> (r: (Vec<ChatAction>, String))
        requires
            old(self).wf(),
            !old(self).is_finished(),
        ensures
            final(self).wf(),
            r.0@ == error_actions(),
            r.1@ == "Stream error: "@ + reason@,
            final(self).is_finished(),
            final(self).is_started() == old(self).is_started(),
            final(self).received() == old(self).received(),
            final(self).emitted() == old(self).emitted() + r.0@,
    {
        self.finished = true;
        let acts = vec![
            ChatAction::StopGeneration,
            ChatAction::Notify(Notification::StreamCompleted),
        ];
        proof {
            assert(acts@ =~= error_actions());
            self.emitted@ = self.emitted@ + acts@;
        }
        (acts, prefixed("Stream error: ", reason))
    }

    /// The request could not be sent, so no stream was opened: the answer is
    /// closed at once, and the error that the exchange returns.
    pub fn on_open_failure(&mut self, detail: &str) -> (r: (Vec<ChatAction>, String))
        requires
            old(self).wf(),
            !old(self).is_started(),
            !old(self).is_finished(),
        ensures
            final(self).wf(),
            r.0@ == end_actions(),
            r.1@ == "Failed to send chat: "@ + detail@,
            final(self).is_finished(),
            !final(self).is_started(),
            final(self).received() == old(self).received(),
            final(self).emitted() == old(self).emitted() + r.0@,
    {
        self.finished = true;
        let acts = vec![ChatAction::Notify(Notification::StreamCompleted)];
        proof {
            assert(acts@ =~= end_actions());
            self.emitted@ = self.emitted@ + acts@;
        }
        (acts, prefixed("Failed to send chat: ", detail))
    }
}

/// A running chat session's actions are fixed by the messages it has
/// received: nothing outside it, such as a stop request issued while no
/// answer was running, changes what a later session does.
pub proof fn chat_actions_follow_messages(a: ChatSession, b: ChatSession)
    requires
        a.wf(),
        b.wf(),
        !a.is_finished(),
        !b.is_finished(),
        a.received() == b.received(),
    ensures
        a.emitted() == b.emitted(),
        a.is_started() == b.is_started(),
{
}

/// One more message extends a run by that message's actions.
pub proof fn lemma_run_push(started: bool, events: Seq<ChatReply>, e: ChatReply)
    ensures
        chat_run(started, events.push(e)) == chat_run(started, events) + message_actions(
            started || events.len() > 0,
            e,
        ),
    decreases events.len(),
{
    if events.len() == 0 {
        let one = events.push(e);
        assert(one.drop_first() =~= Seq::<ChatReply>::empty());
        assert(one[0] == e);
        assert(chat_run(true, one.drop_first()) == Seq::<ChatAction>::empty());
        assert(chat_run(started, events) == Seq::<ChatAction>::empty());
        assert(chat_run(started, one) =~= message_actions(started, e));
    } else {
        let rest = events.drop_first();
        assert(events.push(e).drop_first() =~= rest.push(e));
        assert(events.push(e)[0] == events[0]);
        lemma_run_push(true, rest, e);
        assert(chat_run(started, events.push(e)) =~= chat_run(started, events) + message_actions(
            started || events.len() > 0,
            e,
        ));
    }
}

/// Once a message has been received, each further one gives its content
/// notification alone.
pub proof fn lemma_run_after_start(events: Seq<ChatReply>)
    ensures
        chat_run(true, events).len() == events.len(),
        forall|i: int|
            0 <= i < events.len() ==> #[trigger] chat_run(true, events)[i]
                == ChatAction::Notify(Notification::NewMessage(events[i])),
    decreases events.len(),
{
    if events.len() > 0 {
        lemma_run_after_start(events.drop_first());
        let rest = chat_run(true, events.drop_first());
        assert forall|i: int| 0 <= i < events.len() implies #[trigger] chat_run(true, events)[i]
            == ChatAction::Notify(Notification::NewMessage(events[i])) by {
            if i > 0 {
                assert(chat_run(true, events)[i] == rest[i - 1]);
                assert(events.drop_first()[i - 1] == events[i]);
            }
        }
    }
}

/// For a chat answer of one or more messages that ends normally: the
/// first-token notification comes first and only once, then one content
/// notification per message in arrival order, then exactly one completion.
pub proof fn chat_exchange_order(events: Seq<ChatReply>)
    requires
        events.len() >= 1,
    ensures
        ({
            let t = chat_run(false, events) + end_actions();
            let n = events.len() as int;
            &&& t.len() == n + 2
            &&& t[0] == ChatAction::Notify(Notification::FirstToken)
            &&& forall|i: int|
                0 <= i < n ==> #[trigger] t[i + 1] == ChatAction::Notify(
                    Notification::NewMessage(events[i]),
                )
            &&& t[n + 1] == ChatAction::Notify(Notification::StreamCompleted)
            &&& forall|j: int|
                0 < j < t.len() ==> #[trigger] t[j] != ChatAction::Notify(Notification::FirstToken)
            &&& forall|j: int|
                0 <= j < n + 1 ==> #[trigger] t[j] != ChatAction::Notify(
                    Notification::StreamCompleted,
                )
        }),
{
    let t = chat_run(false, events) + end_actions();
    let n = events.len() as int;
    let rest = events.drop_first();
    lemma_run_after_start(rest);
    assert(chat_run(false, events) == message_actions(false, events[0]) + chat_run(true, rest));
    assert forall|i: int| 0 <= i < n implies #[trigger] t[i + 1] == ChatAction::Notify(
        Notification::NewMessage(events[i]),
    ) by {
        if i > 0 {
            assert(t[i + 1] == chat_run(true, rest)[i - 1]);
            assert(rest[i - 1] == events[i]);
        }
    }
    assert forall|j: int| 0 < j < t.len() implies #[trigger] t[j] != ChatAction::Notify(
        Notification::FirstToken,
    ) by {
        if 1 < j < n + 1 {
            assert(t[j] == ChatAction::Notify(Notification::NewMessage(events[j - 1])));
        }
    }
    assert forall|j: int| 0 <= j < n + 1 implies #[trigger] t[j] != ChatAction::Notify(
        Notification::StreamCompleted,
    ) by {
        if 1 < j < n + 1 {
            assert(t[j] == ChatAction::Notify(Notification::NewMessage(events[j - 1])));
        }
    }
}

} // verus!
