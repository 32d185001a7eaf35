//! How a session replies to a message: which requests are taken on, and how
//! the reply of the agent becomes events.

use crate::json::{JsonValue, JsonView};
use crate::text::with_cause;
use vstd::prelude::*;

verus! {

/// How many bytes a request for a reply may have.
pub const REPLY_BODY_LIMIT: usize = 50 * 1024 * 1024;

// ---------------------------------------------------------------------------
// Requests
// ---------------------------------------------------------------------------

/// A message of a conversation, as it stands in JSON.
#[derive(Debug, PartialEq)]
pub struct Message {
    pub body: JsonValue,
}

impl View for Message {
    type V = JsonView;

    open spec fn view(&self) -> JsonView {
        self.body@
    }
}

/// What each message is.
pub open spec fn message_views(messages: Seq<Message>) -> Seq<JsonView> {
    messages.map_values(|m: Message| m@)
}

impl Message {
    /// The same message once more.
    pub fn copy(&self) -> (r: Message)
        ensures
            r@ == self@,
    {
        Message { body: self.body.copy() }
    }
}

/// The same messages once more.
pub fn copy_messages(messages: &Vec<Message>) -> (r: Vec<Message>)
    ensures
        message_views(r@) == message_views(messages@),
{
    let mut copied: Vec<Message> = Vec::new();
    for i in 0..messages.len()
        invariant
            copied@.len() == i,
            forall|j: int| 0 <= j < i ==> (#[trigger] copied@[j])@ == messages@[j]@,
    {
        copied.push(messages[i].copy());
    }
    assert(message_views(copied@) == message_views(messages@));
    copied
}

/// A message for a session.
#[derive(Debug, PartialEq)]
pub struct SessionReplyRequest {
    /// Client-generated UUIDv7 identifying this request.
    pub request_id: String,
    pub user_message: Message,
    pub override_conversation: Option<Vec<Message>>,
    pub recipe_name: Option<String>,
    pub recipe_version: Option<String>,
}

/// A message is replied to.
#[derive(Debug, PartialEq)]
pub struct SessionReplyResponse {
    pub request_id: String,
}

/// A reply is to be called off.
#[derive(Debug, PartialEq)]
pub struct CancelRequest {
    pub request_id: String,
}

/// A request was not taken on.
#[derive(Debug, PartialEq)]
pub struct ErrorResponse {
    pub status: u16,
    pub message: String,
}

/// A recipe that a request runs.
#[derive(Debug, PartialEq)]
pub struct RecipeRun {
    pub name: String,
    pub version: String,
}

pub open spec fn is_hex(c: char) -> bool {
    '0' <= c <= '9' || 'a' <= c <= 'f' || 'A' <= c <= 'F'
}

/// Thirty-two hexadecimal digits.
pub open spec fn simple_uuid(s: Seq<char>) -> bool {
    s.len() == 32 && forall|i: int| 0 <= i < 32 ==> is_hex(#[trigger] s[i])
}

/// Groups of 8, 4, 4, 4 and 12 hexadecimal digits, with hyphens between them.
pub open spec fn hyphenated_uuid(s: Seq<char>) -> bool {
    &&& s.len() == 36
    &&& forall|i: int|
        0 <= i < 36 ==> if i == 8 || i == 13 || i == 18 || i == 23 {
            #[trigger] s[i] == '-'
        } else {
            is_hex(s[i])
        }
}

/// The letter in lower case, where it is an ASCII letter.
pub open spec fn ascii_lower(c: char) -> char {
    if 'A' <= c <= 'Z' {
        (c as u32 + 32) as char
    } else {
        c
    }
}

/// The start of a UUID as a name of its own, in whatever case.
pub open spec fn urn_prefix(s: Seq<char>) -> bool {
    s.map_values(|c: char| ascii_lower(c)) == "urn:uuid:"@
}

/// The texts that are UUIDs: the digits alone, the hyphenated form, that in
/// braces, and that as a URN.
pub open spec fn uuid_text(s: Seq<char>) -> bool {
    ||| simple_uuid(s)
    ||| hyphenated_uuid(s)
    ||| s.len() == 38 && s[0] == '{' && s[37] == '}' && hyphenated_uuid(s.subrange(1, 37))
    ||| s.len() == 45 && urn_prefix(s.take(9)) && hyphenated_uuid(s.skip(9))
}

/// `uuid::Uuid::parse_str` accepts the texts that are UUIDs: the simple, the
/// hyphenated, the braced and the URN form, in either case, and nothing else.
#[verifier::external_body]
fn is_uuid(text: &str) -> (r: bool)
    ensures
        r == uuid_text(text@),
{
    uuid::Uuid::parse_str(text).is_ok()
}

/// The name and the version of the recipe that a request runs.
pub open spec fn recipe_of(request: SessionReplyRequest) -> Option<(Seq<char>, Seq<char>)> {
    match request.recipe_name {
        Some(name) => Some(
            (
                name@,
                match request.recipe_version {
                    Some(version) => version@,
                    None => "unknown"@,
                },
            ),
        ),
        None => None,
    }
}

/// The recipe that a request runs, if it names one.
pub fn recipe_run(request: &SessionReplyRequest) -> (r: Option<RecipeRun>)
    ensures
        recipe_of(*request) == (match r {
            Some(run) => Some((run.name@, run.version@)),
            None => None,
        }),
        match request.recipe_name {
            Some(name) => r matches Some(run) && run.name == name && run.version@ == (
            match request.recipe_version {
                Some(version) => version@,
                None => "unknown"@,
            }),
            None => r is None,
        },
{
    match &request.recipe_name {
        Some(name) => {
            let version = match &request.recipe_version {
                Some(version) => version.clone(),
                None => "unknown".to_owned(),
            };
            Some(RecipeRun { name: name.clone(), version })
        },
        None => None,
    }
}

// ---------------------------------------------------------------------------
// Replies
// ---------------------------------------------------------------------------

/// How many tokens a session has used, as it stands in JSON.
#[derive(Debug, PartialEq)]
pub struct TokenState {
    pub body: JsonValue,
}

/// What the subscribers of a session are told.
#[derive(Debug, PartialEq)]
pub enum MessageEvent {
    Message { message: Message, token_state: TokenState },
    Error { error: String },
    Finish { reason: String, token_state: TokenState },
    ModelChange { model: String, mode: String },
    Notification { request_id: String, message: JsonValue },
    UpdateConversation { conversation: Vec<Message> },
    Ping,
}

/// What an agent is told of the session that it replies in.
#[derive(Debug, PartialEq)]
pub struct SessionConfig {
    pub id: String,
    pub schedule_id: Option<String>,
    pub max_turns: Option<u32>,
    pub retry_config: Option<JsonValue>,
}

/// How far a reply has come.
#[derive(Debug, PartialEq)]
pub enum ReplyPhase {
    /// The request is being made known to the bus of the session.
    Registering { user_message: Message, override_conversation: Option<Vec<Message>> },
    GettingAgent { user_message: Message, override_conversation: Option<Vec<Message>> },
    ReadingSession { user_message: Message, override_conversation: Option<Vec<Message>> },
    /// The conversation of the session is being replaced by the one given.
    ReplacingConversation {
        user_message: Message,
        schedule_id: Option<String>,
        messages: Vec<Message>,
    },
    StartingReply { messages: Vec<Message> },
    Streaming { messages: Vec<Message> },
    /// The tokens are being counted for a message of the agent.
    CountingTokens { messages: Vec<Message>, message: Message },
    /// The session is being read for the summary.
    Summarizing { message_count: usize },
    CountingFinalTokens,
    Done,
}

/// A reply to a message.
#[derive(Debug, PartialEq)]
pub struct Reply {
    pub session_id: String,
    pub request_id: String,
    pub phase: ReplyPhase,
}

/// What of a session goes into the summary of a reply.
#[derive(Debug, PartialEq)]
pub struct SessionSummary {
    pub total_tokens: Option<i32>,
    pub message_count: usize,
}

/// The summary of a reply.
#[derive(Debug, PartialEq)]
pub struct CompletionReport {
    pub total_tokens: i32,
    pub message_count: usize,
    /// Whether the tokens are counted towards the metrics.
    pub count_tokens: bool,
}

/// What happened to a reply.
#[derive(Debug, PartialEq)]
pub enum ReplyEvent {
    Registered,
    AgentReady,
    AgentFailed(String),
    SessionRead { schedule_id: Option<String>, conversation: Option<Vec<Message>> },
    SessionFailed(String),
    /// The conversation was replaced, or could not be, which is only logged.
    ConversationReplaced,
    ReplyStarted,
    ReplyFailed(String),
    Cancelled,
    Heartbeat,
    /// Nothing came from the agent for a while.
    TimedOut,
    /// The agent is done.
    Ended,
    StreamFailed(String),
    Message(Message),
    HistoryReplaced(Vec<Message>),
    ModelChanged { model: String, mode: String },
    Notified { request_id: String, message: JsonValue },
    TokensCounted(TokenState),
    /// The session as it is after the reply, where it could be read.
    Summarized(Option<SessionSummary>),
}

/// What is to be done next for a reply.
#[derive(Debug, PartialEq)]
pub enum ReplyAction {
    /// Make the request known to the bus of the session.
    Register,
    GetAgent,
    ReadSession,
    ReplaceConversation { conversation: Vec<Message> },
    StartReply { user_message: Message, config: SessionConfig },
    /// Wait for the agent, the heartbeat or the cancellation.
    Poll,
    CountTokens,
    ReadSummary,
    /// Log the summary and count the tokens once more.
    LogAndCountTokens(CompletionReport),
    /// The request is over: forget it.
    CleanUp,
}

/// A step of a reply: what the request is answered, if it is answered now, what
/// is published under the request's id, if anything, and what is to be done
/// then.
#[derive(Debug, PartialEq)]
pub struct ReplyStep {
    pub reply: Reply,
    pub answer: Option<Result<SessionReplyResponse, ErrorResponse>>,
    pub publish: Option<MessageEvent>,
    pub action: ReplyAction,
}

/// Whether an event can happen in a phase.
pub open spec fn expects(phase: ReplyPhase, event: ReplyEvent) -> bool {
    match phase {
        ReplyPhase::Registering { .. } => event is Registered,
        ReplyPhase::GettingAgent { .. } => event is AgentReady || event is AgentFailed,
        ReplyPhase::ReadingSession { .. } => event is SessionRead || event is SessionFailed,
        ReplyPhase::ReplacingConversation { .. } => event is ConversationReplaced,
        ReplyPhase::StartingReply { .. } => event is ReplyStarted || event is ReplyFailed,
        ReplyPhase::Streaming { .. } => event is Cancelled || event is Heartbeat || event is TimedOut
            || event is Ended || event is StreamFailed || event is Message
            || event is HistoryReplaced || event is ModelChanged || event is Notified,
        ReplyPhase::CountingTokens { .. } => event is TokensCounted,
        ReplyPhase::Summarizing { .. } => event is Summarized,
        ReplyPhase::CountingFinalTokens => event is TokensCounted,
        ReplyPhase::Done => false,
    }
}

/// Whether a step publishes the given error.
pub open spec fn publishes_error(publish: Option<MessageEvent>, message: Seq<char>) -> bool {
    publish matches Some(MessageEvent::Error { error }) && error@ == message
}

/// Whether a step gives a reply up, with the given error.
pub open spec fn gives_up(step: ReplyStep, message: Seq<char>) -> bool {
    &&& publishes_error(step.publish, message)
    &&& step.reply.phase == ReplyPhase::Done
    &&& step.action == ReplyAction::CleanUp
}

/// Whether a step starts the agent on a message, at the end of the given
/// conversation, without a limit on turns and without retries.
pub open spec fn starts_reply(
    step: ReplyStep,
    conversation: Seq<JsonView>,
    message: JsonView,
    schedule: Option<String>,
) -> bool {
    &&& step.publish is None
    &&& step.reply.phase matches ReplyPhase::StartingReply { messages } && message_views(messages@)
        == conversation.push(message)
    &&& step.action matches ReplyAction::StartReply { user_message, config } && user_message@
        == message && config.id == step.reply.session_id && config.schedule_id == schedule
        && config.max_turns is None && config.retry_config is None
}

/// Whether a step goes on streaming with the given conversation, publishing
/// nothing.
pub open spec fn keeps_streaming(step: ReplyStep, messages: Vec<Message>) -> bool {
    &&& step.publish is None
    &&& step.reply.phase == (ReplyPhase::Streaming { messages })
    &&& step.action == ReplyAction::Poll
}

/// Whether a step ends the streaming of a conversation.
pub open spec fn ends_streaming(step: ReplyStep, messages: Seq<Message>) -> bool {
    &&& step.reply.phase matches ReplyPhase::Summarizing { message_count } && message_count
        == messages.len()
    &&& step.action == ReplyAction::ReadSummary
}

/// The summary of a reply: what the session tells, or else what the reply
/// itself knows.
pub open spec fn completion(summary: Option<SessionSummary>, message_count: usize) -> CompletionReport {
    match summary {
        Some(session) => {
            let total_tokens = match session.total_tokens {
                Some(total) => total,
                None => 0,
            };
            CompletionReport {
                total_tokens,
                message_count: session.message_count,
                count_tokens: total_tokens > 0,
            }
        },
        None => CompletionReport { total_tokens: 0, message_count, count_tokens: false },
    }
}

/// What a request is answered in a step: it is accepted once its session has an
/// agent, refused where none can be had, and not answered in any other step.
pub open spec fn answers_request(phase: ReplyPhase, event: ReplyEvent, step: ReplyStep) -> bool {
    match (phase, event) {
        (ReplyPhase::GettingAgent { .. }, ReplyEvent::AgentReady) => {
            step.answer matches Some(Ok(response)) && response.request_id == step.reply.request_id
        },
        (ReplyPhase::GettingAgent { .. }, ReplyEvent::AgentFailed(error)) => {
            step.answer matches Some(Err(response)) && response.status == 424
                && response.message@ == "Failed to get session agent: "@ + error@
        },
        _ => step.answer is None,
    }
}

/// Whether an event takes a reply one step on, to the given answer, phase,
/// publication and action.
pub open spec fn reply_step(phase: ReplyPhase, event: ReplyEvent, step: ReplyStep) -> bool {
    answers_request(phase, event, step) && phase_step(phase, event, step)
}

/// Whether an event takes a reply one step on, to the given phase, publication
/// and action.
pub open spec fn phase_step(phase: ReplyPhase, event: ReplyEvent, step: ReplyStep) -> bool {
    match (phase, event) {
        (
            ReplyPhase::Registering { user_message, override_conversation },
            ReplyEvent::Registered,
        ) => {
            &&& step.publish is None
            &&& step.reply.phase == (ReplyPhase::GettingAgent {
                user_message,
                override_conversation,
            })
            &&& step.action == ReplyAction::GetAgent
        },
        (
            ReplyPhase::GettingAgent { user_message, override_conversation },
            ReplyEvent::AgentReady,
        ) => {
            &&& step.publish is None
            &&& step.reply.phase == (ReplyPhase::ReadingSession {
                user_message,
                override_conversation,
            })
            &&& step.action == ReplyAction::ReadSession
        },
        (ReplyPhase::GettingAgent { .. }, ReplyEvent::AgentFailed(error)) => gives_up(
            step,
            "Failed to get session agent: "@ + error@,
        ),
        (
            ReplyPhase::ReadingSession { user_message, override_conversation },
            ReplyEvent::SessionRead { schedule_id: schedule, conversation: stored },
        ) => match override_conversation {
            Some(history) => {
                &&& step.publish is None
                &&& step.reply.phase == (ReplyPhase::ReplacingConversation {
                    user_message,
                    schedule_id: schedule,
                    messages: history,
                })
                &&& step.action matches ReplyAction::ReplaceConversation { conversation }
                    && message_views(conversation@) == message_views(history@)
            },
            None => starts_reply(
                step,
                match stored {
                    Some(messages) => message_views(messages@),
                    None => Seq::empty(),
                },
                user_message@,
                schedule,
            ),
        },
        (ReplyPhase::ReadingSession { .. }, ReplyEvent::SessionFailed(error)) => gives_up(
            step,
            "Failed to read session: "@ + error@,
        ),
        (
            ReplyPhase::ReplacingConversation { user_message, schedule_id, messages },
            ReplyEvent::ConversationReplaced,
        ) => starts_reply(step, message_views(messages@), user_message@, schedule_id),
        (ReplyPhase::StartingReply { messages }, ReplyEvent::ReplyStarted) => keeps_streaming(
            step,
            messages,
        ),
        (ReplyPhase::StartingReply { .. }, ReplyEvent::ReplyFailed(error)) => gives_up(
            step,
            error@,
        ),
        (ReplyPhase::Streaming { messages }, ReplyEvent::Cancelled) => step.publish is None
            && ends_streaming(step, messages@),
        (ReplyPhase::Streaming { messages }, ReplyEvent::Ended) => step.publish is None
            && ends_streaming(step, messages@),
        (ReplyPhase::Streaming { messages }, ReplyEvent::StreamFailed(error)) => publishes_error(
            step.publish,
            error@,
        ) && ends_streaming(step, messages@),
        (ReplyPhase::Streaming { messages }, ReplyEvent::Heartbeat) => keeps_streaming(
            step,
            messages,
        ),
        (ReplyPhase::Streaming { messages }, ReplyEvent::TimedOut) => keeps_streaming(
            step,
            messages,
        ),
        (ReplyPhase::Streaming { messages: before }, ReplyEvent::Message(new)) => {
            &&& step.publish is None
            &&& step.reply.phase matches ReplyPhase::CountingTokens { messages, message }
                && message_views(messages@) == message_views(before@).push(new@) && message == new
            &&& step.action == ReplyAction::CountTokens
        },
        (ReplyPhase::Streaming { .. }, ReplyEvent::HistoryReplaced(new)) => {
            &&& step.publish matches Some(MessageEvent::UpdateConversation { conversation })
                && message_views(conversation@) == message_views(new@)
            &&& step.reply.phase == (ReplyPhase::Streaming { messages: new })
            &&& step.action == ReplyAction::Poll
        },
        (ReplyPhase::Streaming { messages }, ReplyEvent::ModelChanged { model, mode }) => {
            &&& step.publish == Some(MessageEvent::ModelChange { model, mode })
            &&& step.reply.phase == (ReplyPhase::Streaming { messages })
            &&& step.action == ReplyAction::Poll
        },
        (ReplyPhase::Streaming { messages }, ReplyEvent::Notified { request_id, message }) => {
            &&& step.publish == Some(MessageEvent::Notification { request_id, message })
            &&& step.reply.phase == (ReplyPhase::Streaming { messages })
            &&& step.action == ReplyAction::Poll
        },
        (
            ReplyPhase::CountingTokens { messages, message },
            ReplyEvent::TokensCounted(token_state),
        ) => {
            &&& step.publish == Some(MessageEvent::Message { message, token_state })
            &&& step.reply.phase == (ReplyPhase::Streaming { messages })
            &&& step.action == ReplyAction::Poll
        },
        (ReplyPhase::Summarizing { message_count }, ReplyEvent::Summarized(summary)) => {
            &&& step.publish is None
            &&& step.reply.phase == ReplyPhase::CountingFinalTokens
            &&& step.action == ReplyAction::LogAndCountTokens(completion(summary, message_count))
        },
        (ReplyPhase::CountingFinalTokens, ReplyEvent::TokensCounted(tokens)) => {
            &&& step.publish matches Some(MessageEvent::Finish { reason, token_state }) && reason@
                == "stop"@ && token_state == tokens
            &&& step.reply.phase == ReplyPhase::Done
            &&& step.action == ReplyAction::CleanUp
        },
        _ => false,
    }
}

/// Whether the agent has been started in a phase.
pub open spec fn started(phase: ReplyPhase) -> bool {
    phase is Streaming || phase is CountingTokens || phase is Summarizing
        || phase is CountingFinalTokens
}

/// Every reply ends with exactly one of two events: where the agent was
/// started, with the one that says that it finished, and else with the error
/// that kept it from starting. The request is forgotten then and only then.
pub proof fn reply_ends_once(phase: ReplyPhase, event: ReplyEvent, step: ReplyStep)
    requires
        reply_step(phase, event, step),
    ensures
        step.action == ReplyAction::CleanUp <==> step.reply.phase == ReplyPhase::Done,
        step.publish matches Some(MessageEvent::Finish { .. }) ==> step.reply.phase
            == ReplyPhase::Done,
        step.reply.phase == ReplyPhase::Done ==> (if started(phase) {
            step.publish matches Some(MessageEvent::Finish { .. })
        } else {
            step.publish matches Some(MessageEvent::Error { .. })
        }),
        started(phase) && step.reply.phase != ReplyPhase::Done ==> started(step.reply.phase),
{
}

/// The conversation of a reply, in the phases that have one.
pub open spec fn conversation_of(phase: ReplyPhase) -> Option<Seq<JsonView>> {
    match phase {
        ReplyPhase::StartingReply { messages } => Some(message_views(messages@)),
        ReplyPhase::Streaming { messages } => Some(message_views(messages@)),
        ReplyPhase::CountingTokens { messages, .. } => Some(message_views(messages@)),
        _ => None,
    }
}

/// The conversation of a reply that was started only changes where the agent
/// says a message or replaces the history: it grows by the message, or is what
/// replaces it.
pub proof fn conversation_follows_agent(phase: ReplyPhase, event: ReplyEvent, step: ReplyStep)
    requires
        reply_step(phase, event, step),
        conversation_of(phase) is Some,
        conversation_of(step.reply.phase) is Some,
    ensures
        conversation_of(step.reply.phase) == Some(
            match event {
                ReplyEvent::Message(new) => conversation_of(phase)->0.push(new@),
                ReplyEvent::HistoryReplaced(new) => message_views(new@),
                _ => conversation_of(phase)->0,
            },
        ),
{
}

/// A message of the agent is published as soon as its tokens are counted.
pub proof fn agent_messages_are_published(
    phase: ReplyPhase,
    message: Message,
    first: ReplyStep,
    token_state: TokenState,
    second: ReplyStep,
)
    requires
        reply_step(phase, ReplyEvent::Message(message), first),
        reply_step(first.reply.phase, ReplyEvent::TokensCounted(token_state), second),
    ensures
        first.action == ReplyAction::CountTokens,
        second.publish == Some(MessageEvent::Message { message, token_state }),
{
}

// ---------------------------------------------------------------------------
// Whole replies
// ---------------------------------------------------------------------------

/// Whether a step is the first of a reply: the request is made known to the bus
/// before anything is answered or published.
pub open spec fn reply_begins(step: ReplyStep) -> bool {
    &&& step.reply.phase is Registering
    &&& step.answer is None
    &&& step.publish is None
    &&& step.action == ReplyAction::Register
}

/// Whether an event takes a reply of a request one step on.
pub open spec fn reply_advances(reply: Reply, event: ReplyEvent, step: ReplyStep) -> bool {
    &&& step.reply.session_id == reply.session_id
    &&& step.reply.request_id == reply.request_id
    &&& reply_step(reply.phase, event, step)
}

/// Whether the steps are those of a reply to which the events happen one after
/// the other.
pub open spec fn reply_run(steps: Seq<ReplyStep>, events: Seq<ReplyEvent>) -> bool {
    &&& steps.len() == events.len() + 1
    &&& reply_begins(steps[0])
    &&& forall|i: int|
        0 <= i < events.len() ==> reply_advances(
            (#[trigger] steps[i]).reply,
            events[i],
            steps[i + 1],
        )
}

/// Whether the request has still to be answered in a phase.
pub open spec fn awaits_answer(phase: ReplyPhase) -> bool {
    phase is Registering || phase is GettingAgent
}

/// What the steps of a reply have in common: the ids, and what can be done and
/// answered in which of them.
proof fn run_keeps(steps: Seq<ReplyStep>, events: Seq<ReplyEvent>, i: int)
    requires
        reply_run(steps, events),
        0 <= i < steps.len(),
    ensures
        steps[i].reply.session_id == steps[0].reply.session_id,
        steps[i].reply.request_id == steps[0].reply.request_id,
        steps[i].action == ReplyAction::Register <==> i == 0,
        steps[i].action == ReplyAction::CleanUp <==> steps[i].reply.phase == ReplyPhase::Done,
        i < steps.len() - 1 ==> steps[i].reply.phase != ReplyPhase::Done,
        steps[i].reply.phase is Registering <==> i == 0,
        steps[i].reply.phase is GettingAgent <==> i == 1,
        i > 1 ==> !awaits_answer(steps[i].reply.phase),
        steps[i].answer is Some <==> i == 2,
    decreases i,
{
    if i > 0 {
        run_keeps(steps, events, i - 1);
        assert(reply_advances(steps[i - 1].reply, events[i - 1], steps[i]));
    }
    if i < steps.len() - 1 {
        assert(reply_advances(steps[i].reply, events[i], steps[i + 1]));
    }
}

/// A reply that came to its end was made known to the bus once, before anything
/// was published; it was answered once; it was forgotten once, after the last
/// publication, which says that the agent finished or why there is no reply;
/// and the request was the same from beginning to end. It was accepted where
/// the session had an agent, and else refused.
pub proof fn reply_runs_to_its_end(steps: Seq<ReplyStep>, events: Seq<ReplyEvent>)
    requires
        reply_run(steps, events),
        steps.last().reply.phase == ReplyPhase::Done,
    ensures
        steps.len() > 2,
        forall|i: int|
            0 <= i < steps.len() ==> {
                &&& (#[trigger] steps[i]).reply.request_id == steps[0].reply.request_id
                &&& steps[i].reply.session_id == steps[0].reply.session_id
                &&& steps[i].action == ReplyAction::Register <==> i == 0
                &&& steps[i].action == ReplyAction::CleanUp <==> i == steps.len() - 1
                &&& steps[i].answer is Some <==> i == 2
            },
        steps[0].publish is None,
        steps.last().publish matches Some(event) && (event is Error || event is Finish),
        match events[1] {
            ReplyEvent::AgentReady => steps[2].answer matches Some(Ok(response))
                && response.request_id == steps[0].reply.request_id,
            ReplyEvent::AgentFailed(_) => steps.len() == 3 && (steps[2].answer matches Some(
                Err(response),
            ) && response.status == 424),
            _ => false,
        },
{
    assert forall|i: int| 0 <= i < steps.len() implies {
        &&& (#[trigger] steps[i]).reply.request_id == steps[0].reply.request_id
        &&& steps[i].reply.session_id == steps[0].reply.session_id
        &&& steps[i].action == ReplyAction::Register <==> i == 0
        &&& steps[i].action == ReplyAction::CleanUp <==> i == steps.len() - 1
        &&& steps[i].answer is Some <==> i == 2
    } by {
        run_keeps(steps, events, i);
    }
    let last = steps.len() - 1;
    run_keeps(steps, events, last);
    assert(last > 1);
    assert(reply_advances(steps[last - 1].reply, events[last - 1], steps[last]));
    run_keeps(steps, events, 1);
    run_keeps(steps, events, 2);
    assert(reply_advances(steps[1].reply, events[1], steps[2]));
}

/// Where a request brings a conversation of its own, that replaces the one of
/// the session, and does so before the agent is started on it.
pub proof fn conversation_replaced_before_reply(steps: Seq<ReplyStep>, events: Seq<ReplyEvent>)
    requires
        reply_run(steps, events),
        steps.len() > 4,
        steps[0].reply.phase matches ReplyPhase::Registering { override_conversation, .. }
            && override_conversation is Some,
        events[2] is SessionRead,
    ensures
        ({
            let history = steps[0].reply.phase->Registering_override_conversation->0;
            &&& steps[3].action matches ReplyAction::ReplaceConversation { conversation }
                && message_views(conversation@) == message_views(history@)
            &&& steps[4].action is StartReply
            &&& conversation_of(steps[4].reply.phase) == Some(
                message_views(history@).push(steps[0].reply.phase->Registering_user_message@),
            )
        }),
{
    assert(reply_advances(steps[0].reply, events[0], steps[1]));
    assert(reply_advances(steps[1].reply, events[1], steps[2]));
    assert(reply_advances(steps[2].reply, events[2], steps[3]));
    assert(reply_advances(steps[3].reply, events[3], steps[4]));
}

// ---------------------------------------------------------------------------
// Taking steps
// ---------------------------------------------------------------------------

/// Whether a request is dealt with by the given step, or by the given refusal.
pub open spec fn request_taken(
    session_id: String,
    request: SessionReplyRequest,
    taken: Result<ReplyStep, ErrorResponse>,
) -> bool {
    match taken {
        Ok(step) => {
            &&& uuid_text(request.request_id@)
            &&& reply_begins(step)
            &&& step.reply.session_id == session_id
            &&& step.reply.request_id == request.request_id
            &&& step.reply.phase == (ReplyPhase::Registering {
                user_message: request.user_message,
                override_conversation: request.override_conversation,
            })
        },
        Err(error) => {
            &&& !uuid_text(request.request_id@)
            &&& error.status == 400
            &&& error.message@ == "request_id must be a valid UUID"@
        },
    }
}

/// Begins the reply to a request, or refuses the request: its id must be a
/// UUID. A request that is not refused is answered later, once it is known
/// whether its session has an agent.
pub fn session_reply(session_id: String, request: SessionReplyRequest) -> (r: Result<
    ReplyStep,
    ErrorResponse,
>)
    ensures
        request_taken(session_id, request, r),
        r is Err <==> !uuid_text(request.request_id@),
        match r {
            Err(error) => error.status == 400 && error.message@
                == "request_id must be a valid UUID"@,
            Ok(step) => {
                &&& reply_begins(step)
                &&& step.reply.session_id == session_id
                &&& step.reply.request_id == request.request_id
                &&& step.reply.phase == (ReplyPhase::Registering {
                    user_message: request.user_message,
                    override_conversation: request.override_conversation,
                })
            },
        },
{
    if !is_uuid(request.request_id.as_str()) {
        return Err(
            ErrorResponse { status: 400, message: "request_id must be a valid UUID".to_owned() },
        );
    }
    let SessionReplyRequest {
        request_id,
        user_message,
        override_conversation,
        recipe_name: _,
        recipe_version: _,
    } = request;
    let phase = ReplyPhase::Registering { user_message, override_conversation };
    let reply = Reply { session_id, request_id, phase };
    Ok(ReplyStep { reply, answer: None, publish: None, action: ReplyAction::Register })
}

/// A reply is given up with an error.
fn give_up(message: String) -> (r: (ReplyPhase, Option<MessageEvent>, ReplyAction))
    ensures
        r.0 == ReplyPhase::Done,
        publishes_error(r.1, message@),
        r.2 == ReplyAction::CleanUp,
{
    (ReplyPhase::Done, Some(MessageEvent::Error { error: message }), ReplyAction::CleanUp)
}

/// The agent is started on a message, at the end of a conversation.
fn start_reply(
    session_id: &String,
    conversation: Vec<Message>,
    user_message: Message,
    schedule_id: Option<String>,
) -> (r: (ReplyPhase, Option<MessageEvent>, ReplyAction))
    ensures
        r.1 is None,
        r.0 matches ReplyPhase::StartingReply { messages } && message_views(messages@)
            == message_views(conversation@).push(user_message@),
        r.2 matches ReplyAction::StartReply { user_message: sent, config } && sent@
            == user_message@ && config.id == *session_id && config.schedule_id == schedule_id
            && config.max_turns is None && config.retry_config is None,
{
    let ghost before = conversation@;
    let mut messages = conversation;
    let last = user_message.copy();
    messages.push(last);
    assert(message_views(messages@) == message_views(before).push(last@));
    let config = SessionConfig {
        id: session_id.clone(),
        schedule_id,
        max_turns: None,
        retry_config: None,
    };
    (
        ReplyPhase::StartingReply { messages },
        None,
        ReplyAction::StartReply { user_message, config },
    )
}

/// The summary of a reply.
fn complete(summary: Option<SessionSummary>, message_count: usize) -> (r: CompletionReport)
    ensures
        r == completion(summary, message_count),
{
    match summary {
        Some(session) => {
            let total_tokens: i32 = match session.total_tokens {
                Some(total) => total,
                None => 0,
            };
            CompletionReport {
                total_tokens,
                message_count: session.message_count,
                count_tokens: total_tokens > 0,
            }
        },
        None => CompletionReport { total_tokens: 0, message_count, count_tokens: false },
    }
}

/// What an event of the agent, the clock or the caller does to a conversation
/// that is being streamed.
fn stream_step(messages: Vec<Message>, event: ReplyEvent) -> (r: (
    ReplyPhase,
    Option<MessageEvent>,
    ReplyAction,
))
    requires
        expects(ReplyPhase::Streaming { messages }, event),
    ensures
        forall|reply: Reply|
            #![trigger reply.phase]
            reply.phase == r.0 ==> reply_step(
                ReplyPhase::Streaming { messages },
                event,
                (ReplyStep { reply, answer: None, publish: r.1, action: r.2 }),
            ),
{
    match event {
        ReplyEvent::Cancelled | ReplyEvent::Ended => (
            ReplyPhase::Summarizing { message_count: messages.len() },
            None,
            ReplyAction::ReadSummary,
        ),
        ReplyEvent::StreamFailed(error) => (
            ReplyPhase::Summarizing { message_count: messages.len() },
            Some(MessageEvent::Error { error }),
            ReplyAction::ReadSummary,
        ),
        ReplyEvent::Heartbeat | ReplyEvent::TimedOut => (
            ReplyPhase::Streaming { messages },
            None,
            ReplyAction::Poll,
        ),
        ReplyEvent::Message(message) => {
            let ghost before = messages@;
            let mut grown = messages;
            let kept = message.copy();
            grown.push(kept);
            assert(message_views(grown@) == message_views(before).push(kept@));
            (
                ReplyPhase::CountingTokens { messages: grown, message },
                None,
                ReplyAction::CountTokens,
            )
        },
        ReplyEvent::HistoryReplaced(new_messages) => {
            let conversation = copy_messages(&new_messages);
            (
                ReplyPhase::Streaming { messages: new_messages },
                Some(MessageEvent::UpdateConversation { conversation }),
                ReplyAction::Poll,
            )
        },
        ReplyEvent::ModelChanged { model, mode } => (
            ReplyPhase::Streaming { messages },
            Some(MessageEvent::ModelChange { model, mode }),
            ReplyAction::Poll,
        ),
        ReplyEvent::Notified { request_id, message } => (
            ReplyPhase::Streaming { messages },
            Some(MessageEvent::Notification { request_id, message }),
            ReplyAction::Poll,
        ),
        _ => vstd::pervasive::unreached(),
    }
}

/// What a request is answered when something happens to its reply, if it is
/// answered then.
fn answer_to(request_id: &String, phase: &ReplyPhase, event: &ReplyEvent) -> (r: Option<
    Result<SessionReplyResponse, ErrorResponse>,
>)
    ensures
        forall|step: ReplyStep|
            #![trigger step.answer]
            step.answer == r && step.reply.request_id == *request_id ==> answers_request(
                *phase,
                *event,
                step,
            ),
{
    match phase {
        ReplyPhase::GettingAgent { .. } => match event {
            ReplyEvent::AgentReady => Some(
                Ok(SessionReplyResponse { request_id: request_id.clone() }),
            ),
            ReplyEvent::AgentFailed(error) => {
                let message = with_cause("Failed to get session agent: ", error.as_str());
                Some(Err(ErrorResponse { status: 424, message }))
            },
            _ => None,
        },
        _ => None,
    }
}

/// Takes a reply one step on.
pub fn advance_reply(reply: Reply, event: ReplyEvent) -> (r: ReplyStep)
    requires
        expects(reply.phase, event),
    ensures
        reply_advances(reply, event, r),
{
    let Reply { session_id, request_id, phase } = reply;
    let answer = answer_to(&request_id, &phase, &event);
    let (next, publish, action) = match phase {
        ReplyPhase::Registering { user_message, override_conversation } => (
            ReplyPhase::GettingAgent { user_message, override_conversation },
            None,
            ReplyAction::GetAgent,
        ),
        ReplyPhase::GettingAgent { user_message, override_conversation } => match event {
            ReplyEvent::AgentReady => (
                ReplyPhase::ReadingSession { user_message, override_conversation },
                None,
                ReplyAction::ReadSession,
            ),
            ReplyEvent::AgentFailed(error) => give_up(
                with_cause("Failed to get session agent: ", error.as_str()),
            ),
            _ => vstd::pervasive::unreached(),
        },
        ReplyPhase::ReadingSession { user_message, override_conversation } => match event {
            ReplyEvent::SessionRead { schedule_id, conversation } => match override_conversation {
                Some(history) => {
                    let conversation = copy_messages(&history);
                    (
                        ReplyPhase::ReplacingConversation {
                            user_message,
                            schedule_id,
                            messages: history,
                        },
                        None,
                        ReplyAction::ReplaceConversation { conversation },
                    )
                },
                None => {
                    let messages = match conversation {
                        Some(messages) => messages,
                        None => Vec::new(),
                    };
                    assert(conversation is None ==> message_views(messages@) == Seq::<
                        JsonView,
                    >::empty());
                    start_reply(&session_id, messages, user_message, schedule_id)
                },
            },
            ReplyEvent::SessionFailed(error) => give_up(
                with_cause("Failed to read session: ", error.as_str()),
            ),
            _ => vstd::pervasive::unreached(),
        },
        ReplyPhase::ReplacingConversation { user_message, schedule_id, messages } => start_reply(
            &session_id,
            messages,
            user_message,
            schedule_id,
        ),
        ReplyPhase::StartingReply { messages } => match event {
            ReplyEvent::ReplyStarted => (
                ReplyPhase::Streaming { messages },
                None,
                ReplyAction::Poll,
            ),
            ReplyEvent::ReplyFailed(error) => give_up(error),
            _ => vstd::pervasive::unreached(),
        },
        ReplyPhase::Streaming { messages } => stream_step(messages, event),
        ReplyPhase::CountingTokens { messages, message } => match event {
            ReplyEvent::TokensCounted(token_state) => (
                ReplyPhase::Streaming { messages },
                Some(MessageEvent::Message { message, token_state }),
                ReplyAction::Poll,
            ),
            _ => vstd::pervasive::unreached(),
        },
        ReplyPhase::Summarizing { message_count } => match event {
            ReplyEvent::Summarized(summary) => (
                ReplyPhase::CountingFinalTokens,
                None,
                ReplyAction::LogAndCountTokens(complete(summary, message_count)),
            ),
            _ => vstd::pervasive::unreached(),
        },
        ReplyPhase::CountingFinalTokens => match event {
            ReplyEvent::TokensCounted(token_state) => (
                ReplyPhase::Done,
                Some(MessageEvent::Finish { reason: "stop".to_owned(), token_state }),
                ReplyAction::CleanUp,
            ),
            _ => vstd::pervasive::unreached(),
        },
        ReplyPhase::Done => vstd::pervasive::unreached(),
    };
    let reply = Reply { session_id, request_id, phase: next };
    ReplyStep { reply, answer, publish, action }
}

} // verus!
