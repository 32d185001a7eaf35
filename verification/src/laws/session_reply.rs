//! Laws of replies.

use crate::session_reply::{
    completion, conversation_of, expects, is_hex, message_views, recipe_of, reply_step,
    request_taken, uuid_text, ErrorResponse, Message, MessageEvent, ReplyAction, ReplyEvent,
    ReplyPhase, ReplyStep, SessionReplyRequest, SessionSummary,
};
use vstd::prelude::*;

verus! {

/// The views of messages are those of each message, all of them and in order.
pub proof fn messages_one_by_one(messages: Seq<Message>)
    ensures
        message_views(messages).len() == messages.len(),
        forall|i: int|
            0 <= i < messages.len() ==> #[trigger] message_views(messages)[i] == messages[i].body@,
{
}

/// What subscribers are told of a new history is the whole conversation that
/// the reply goes on with, and that is what the agent replaced it by.
pub proof fn subscribers_are_told_the_whole_history(
    phase: ReplyPhase,
    event: ReplyEvent,
    step: ReplyStep,
)
    requires
        reply_step(phase, event, step),
    ensures
        step.publish matches Some(MessageEvent::UpdateConversation { conversation }) ==> {
            &&& conversation_of(step.reply.phase) == Some(message_views(conversation@))
            &&& event matches ReplyEvent::HistoryReplaced(new) && new@.len() == conversation@.len()
                && forall|i: int|
                0 <= i < new@.len() ==> (#[trigger] conversation@[i]).body@ == new@[i].body@
        },
        event is HistoryReplaced <==> (step.publish matches Some(
            MessageEvent::UpdateConversation { .. },
        )),
{
    if let ReplyEvent::HistoryReplaced(new) = event {
        if let Some(MessageEvent::UpdateConversation { conversation }) = step.publish {
            messages_one_by_one(new@);
            messages_one_by_one(conversation@);
            assert forall|i: int| 0 <= i < new@.len() implies (#[trigger] conversation@[i]).body@
                == new@[i].body@ by {
                assert(message_views(conversation@)[i] == message_views(new@)[i]);
            }
        }
    }
}

/// What subscribers are told is what the agent said and what went wrong: a
/// message with its tokens, which is the last of the conversation; a change of
/// the model; a notification; an error; the end, once the tokens are counted.
/// Nothing else is told.
pub proof fn subscribers_are_told_what_happened(
    phase: ReplyPhase,
    event: ReplyEvent,
    step: ReplyStep,
)
    requires
        reply_step(phase, event, step),
    ensures
        match event {
            ReplyEvent::ModelChanged { model, mode } => step.publish == Some(
                MessageEvent::ModelChange { model, mode },
            ),
            ReplyEvent::Notified { request_id, message } => step.publish == Some(
                MessageEvent::Notification { request_id, message },
            ),
            ReplyEvent::StreamFailed(error) => step.publish matches Some(
                MessageEvent::Error { error: told },
            ) && told@ == error@,
            ReplyEvent::ReplyFailed(error) => step.publish matches Some(
                MessageEvent::Error { error: told },
            ) && told@ == error@,
            ReplyEvent::AgentFailed(error) => step.publish matches Some(
                MessageEvent::Error { error: told },
            ) && told@ == "Failed to get session agent: "@ + error@,
            ReplyEvent::SessionFailed(error) => step.publish matches Some(
                MessageEvent::Error { error: told },
            ) && told@ == "Failed to read session: "@ + error@,
            ReplyEvent::TokensCounted(tokens) => match phase {
                ReplyPhase::CountingTokens { messages, message } => step.publish == Some(
                    MessageEvent::Message { message, token_state: tokens },
                ),
                _ => step.publish matches Some(MessageEvent::Finish { reason, token_state })
                    && reason@ == "stop"@ && token_state == tokens,
            },
            ReplyEvent::HistoryReplaced(_) => step.publish is Some,
            _ => step.publish is None,
        },
{
}

/// A message of the agent is put at the end of the conversation, which is kept
/// before it, and is the one whose tokens are counted.
pub proof fn messages_are_appended(before: Vec<Message>, new: Message, step: ReplyStep)
    requires
        reply_step(
            ReplyPhase::Streaming { messages: before },
            ReplyEvent::Message(new),
            step,
        ),
    ensures
        step.action == ReplyAction::CountTokens,
        step.reply.phase matches ReplyPhase::CountingTokens { messages, message } && message == new
            && messages@.len() == before@.len() + 1 && messages@.last().body@ == new.body@
            && forall|i: int|
            0 <= i < before@.len() ==> (#[trigger] messages@[i]).body@ == before@[i].body@,
{
    if let ReplyPhase::CountingTokens { messages, message } = step.reply.phase {
        messages_one_by_one(before@);
        messages_one_by_one(messages@);
        assert(message_views(messages@)[before@.len() as int] == new@);
        assert forall|i: int| 0 <= i < before@.len() implies (#[trigger] messages@[i]).body@
            == before@[i].body@ by {
            assert(message_views(messages@)[i] == message_views(before@)[i]);
        }
    }
}

/// The agent is started on the message of the user, which is put at the end of
/// the conversation: that of the request, where it brings one, and else that of
/// the session; with the schedule of the session, and with no limit on turns
/// and no retries.
pub proof fn agents_are_started_on_the_message(
    phase: ReplyPhase,
    event: ReplyEvent,
    step: ReplyStep,
)
    requires
        reply_step(phase, event, step),
    ensures
        step.action matches ReplyAction::StartReply { user_message, config } ==> {
            &&& config.id == step.reply.session_id
            &&& config.max_turns is None && config.retry_config is None
            &&& match phase {
                ReplyPhase::ReadingSession { user_message: given, override_conversation } => {
                    &&& override_conversation is None
                    &&& user_message.body@ == given.body@
                    &&& event matches ReplyEvent::SessionRead { schedule_id, conversation }
                        && config.schedule_id == schedule_id && conversation_of(step.reply.phase)
                        == Some(
                        (match conversation {
                            Some(stored) => message_views(stored@),
                            None => seq![],
                        }).push(given.body@),
                    )
                },
                ReplyPhase::ReplacingConversation {
                    user_message: given,
                    schedule_id,
                    messages,
                } => {
                    &&& user_message.body@ == given.body@
                    &&& config.schedule_id == schedule_id
                    &&& conversation_of(step.reply.phase) == Some(
                        message_views(messages@).push(given.body@),
                    )
                },
                _ => false,
            }
        },
        event is SessionRead ==> match phase {
            ReplyPhase::ReadingSession { override_conversation: None, .. } => step.action
                is StartReply,
            ReplyPhase::ReadingSession { override_conversation: Some(history), user_message } => {
                &&& step.action matches ReplyAction::ReplaceConversation { conversation }
                    && message_views(conversation@) == message_views(history@)
                &&& step.reply.phase matches ReplyPhase::ReplacingConversation {
                    user_message: kept,
                    schedule_id,
                    messages,
                } && kept == user_message && messages == history && event
                    == (ReplyEvent::SessionRead {
                    schedule_id,
                    conversation: event->SessionRead_conversation,
                })
            },
            _ => false,
        },
        event is ConversationReplaced ==> step.action is StartReply,
{
}

/// What is done next: a request is registered, then the agent is got, then the
/// session is read; while the agent speaks it is polled; then the summary is
/// read and told, and the tokens are counted; a reply that was given up or
/// finished is cleaned up.
pub proof fn replies_go_on(phase: ReplyPhase, event: ReplyEvent, step: ReplyStep)
    requires
        reply_step(phase, event, step),
    ensures
        event is Registered ==> step.action == ReplyAction::GetAgent,
        event is AgentReady ==> step.action == ReplyAction::ReadSession,
        event is AgentFailed || event is SessionFailed || event is ReplyFailed ==> step.action
            == ReplyAction::CleanUp && step.reply.phase == ReplyPhase::Done,
        event is ReplyStarted || event is Heartbeat || event is TimedOut || event is ModelChanged
            || event is Notified || event is HistoryReplaced ==> step.action == ReplyAction::Poll
            && step.reply.phase is Streaming,
        event is Ended || event is Cancelled || event is StreamFailed ==> step.action
            == ReplyAction::ReadSummary && (conversation_of(phase) matches Some(said) && (
        step.reply.phase matches ReplyPhase::Summarizing { message_count } && message_count
            == said.len())),
        event is Summarized ==> step.action is LogAndCountTokens,
        event is TokensCounted ==> (if phase is CountingTokens {
            step.action == ReplyAction::Poll && step.reply.phase is Streaming
        } else {
            step.action == ReplyAction::CleanUp && step.reply.phase == ReplyPhase::Done
        }),
        event is Registered || event is AgentReady ==> match phase {
            ReplyPhase::Registering { user_message, override_conversation } => step.reply.phase == (
            ReplyPhase::GettingAgent { user_message, override_conversation }),
            ReplyPhase::GettingAgent { user_message, override_conversation } => step.reply.phase
                == (ReplyPhase::ReadingSession { user_message, override_conversation }),
            _ => false,
        },
{
    if let ReplyPhase::Streaming { messages } = phase {
        messages_one_by_one(messages@);
    }
}

/// The summary of a reply has the tokens and messages of the session where it
/// could be read, and the tokens are counted exactly where there are some; else
/// it has the messages of the reply and no tokens.
pub proof fn summaries_tell(
    total_tokens: Option<i32>,
    session_count: usize,
    message_count: usize,
)
    ensures
        ({
            let told = completion(
                Some(SessionSummary { total_tokens, message_count: session_count }),
                message_count,
            );
            &&& told.message_count == session_count
            &&& total_tokens matches Some(total) ==> told.total_tokens == total
            &&& total_tokens is None ==> told.total_tokens == 0
            &&& told.count_tokens <==> told.total_tokens > 0
        }),
        ({
            let told = completion(None, message_count);
            told.message_count == message_count && told.total_tokens == 0 && !told.count_tokens
        }),
{
}

/// The summary is the one for what was read.
pub proof fn summaries_are_told(
    message_count: usize,
    summary: Option<SessionSummary>,
    step: ReplyStep,
)
    requires
        reply_step(
            ReplyPhase::Summarizing { message_count },
            ReplyEvent::Summarized(summary),
            step,
        ),
    ensures
        step.action == ReplyAction::LogAndCountTokens(completion(summary, message_count)),
        step.reply.phase == ReplyPhase::CountingFinalTokens,
{
}

/// A request is answered exactly when it is known whether there is an agent:
/// with its own id where there is one, and with 424 and the reason where not.
pub proof fn requests_are_answered(phase: ReplyPhase, event: ReplyEvent, step: ReplyStep)
    requires
        reply_step(phase, event, step),
    ensures
        step.answer is Some <==> event is AgentReady || event is AgentFailed,
        event is AgentReady ==> (step.answer matches Some(Ok(response)) && response.request_id
            == step.reply.request_id),
        event matches ReplyEvent::AgentFailed(error) ==> (step.answer matches Some(Err(response))
            && response.status == 424 && response.message@ == "Failed to get session agent: "@
            + error@),
{
}

/// What can happen to a reply while it is streamed, and before and after.
pub proof fn replies_expect(
    phase: ReplyPhase,
    text: String,
    other: String,
    message: Message,
    history: Vec<Message>,
    summary: Option<SessionSummary>,
)
    ensures
        phase is Registering ==> expects(phase, ReplyEvent::Registered),
        phase is GettingAgent ==> expects(phase, ReplyEvent::AgentReady) && expects(
            phase,
            ReplyEvent::AgentFailed(text),
        ),
        phase is ReadingSession ==> expects(phase, ReplyEvent::SessionFailed(text)) && forall|
            schedule_id: Option<String>,
            conversation: Option<Vec<Message>>,
        | expects(phase, ReplyEvent::SessionRead { schedule_id, conversation }),
        phase is ReplacingConversation ==> expects(phase, ReplyEvent::ConversationReplaced),
        phase is StartingReply ==> expects(phase, ReplyEvent::ReplyStarted) && expects(
            phase,
            ReplyEvent::ReplyFailed(text),
        ),
        phase is Streaming ==> expects(phase, ReplyEvent::Cancelled) && expects(
            phase,
            ReplyEvent::Heartbeat,
        ) && expects(phase, ReplyEvent::TimedOut) && expects(phase, ReplyEvent::Ended) && expects(
            phase,
            ReplyEvent::StreamFailed(text),
        ) && expects(phase, ReplyEvent::Message(message)) && expects(
            phase,
            ReplyEvent::HistoryReplaced(history),
        ) && expects(phase, ReplyEvent::ModelChanged { model: text, mode: other }) && expects(
            phase,
            ReplyEvent::Notified { request_id: text, message: message.body },
        ),
        phase is Summarizing ==> expects(phase, ReplyEvent::Summarized(summary)),
{
}

/// A request whose id is a UUID is begun for its session, under its id, with
/// its message and with the conversation that it brings, and nothing is said of
/// it before it is registered; any other is refused with 400.
pub proof fn requests_are_begun(
    session_id: String,
    request: SessionReplyRequest,
    taken: Result<ReplyStep, ErrorResponse>,
)
    requires
        request_taken(session_id, request, taken),
    ensures
        taken is Ok <==> uuid_text(request.request_id@),
        taken matches Err(error) ==> error.status == 400 && error.message@
            == "request_id must be a valid UUID"@,
        taken matches Ok(step) ==> {
            &&& step.reply.session_id == session_id
            &&& step.reply.request_id == request.request_id
            &&& step.reply.phase matches ReplyPhase::Registering {
                user_message,
                override_conversation,
            } && user_message == request.user_message && override_conversation
                == request.override_conversation
            &&& step.action == ReplyAction::Register
            &&& step.answer is None && step.publish is None
        },
{
}

/// A request runs a recipe exactly where it names one, in the version that it
/// names, or in an unknown one.
pub proof fn recipes_have_versions(request: SessionReplyRequest)
    ensures
        recipe_of(request) is Some <==> request.recipe_name is Some,
        request.recipe_name matches Some(name) ==> (recipe_of(request)->0).0 == name@,
        request.recipe_name is Some ==> match request.recipe_version {
            Some(version) => (recipe_of(request)->0).1 == version@,
            None => (recipe_of(request)->0).1 == "unknown"@,
        },
{
}

/// The texts that are UUIDs are thirty-two hexadecimal digits, in one of four
/// forms, and the case of letters does not matter.
pub proof fn uuids_have_thirty_two_digits(s: Seq<char>)
    requires
        uuid_text(s),
    ensures
        s.len() == 32 || s.len() == 36 || s.len() == 38 || s.len() == 45,
        s.len() == 32 ==> forall|i: int| 0 <= i < 32 ==> is_hex(#[trigger] s[i]),
        s.len() == 36 ==> s[8] == '-' && s[13] == '-' && s[18] == '-' && s[23] == '-',
        s.len() == 38 ==> s[0] == '{' && s[37] == '}' && s[9] == '-',
        s.len() == 45 ==> s[17] == '-' && is_hex(s[44]),
{
    if s.len() == 38 {
        assert(s.subrange(1, 37)[8] == s[9]);
    }
    if s.len() == 45 {
        assert(s.skip(9)[8] == s[17]);
        assert(s.skip(9)[35] == s[44]);
    }
}

} // verus!
