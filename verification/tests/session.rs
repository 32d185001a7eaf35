use goose_tools::json::JsonValue;
use goose_tools::session_events::{
    feed_step, format_sse_event, last_event_id, replay_frames, serialize_session_event, start_feed,
    BusBody, BusEvent, FeedAction, FeedEvent, FeedState,
};
use goose_tools::session_reply::{
    advance_reply, copy_messages, recipe_run, session_reply, CompletionReport, Message,
    MessageEvent, Reply, ReplyAction, ReplyEvent, ReplyPhase, ReplyStep, SessionConfig,
    SessionReplyRequest, SessionReplyResponse, SessionSummary, TokenState, REPLY_BODY_LIMIT,
};

const ID: &str = "0190a0c5-7b1e-7cc3-8b3c-0a1b2c3d4e5f";

fn parse(text: &str) -> JsonValue {
    JsonValue::parse(text).unwrap()
}

fn bus_event(seq: u64, request_id: Option<&str>, json: &str) -> BusEvent {
    BusEvent {
        seq,
        request_id: request_id.map(|id| id.to_string()),
        body: BusBody::Event(Ok(parse(json))),
    }
}

fn message(s: &str) -> Message {
    Message {
        body: JsonValue::Text(s.to_string()),
    }
}

fn tokens(s: &str) -> TokenState {
    TokenState {
        body: JsonValue::Text(s.to_string()),
    }
}

fn request(id: &str) -> SessionReplyRequest {
    SessionReplyRequest {
        request_id: id.to_string(),
        user_message: message("hi"),
        override_conversation: None,
        recipe_name: None,
        recipe_version: None,
    }
}

fn accepted(id: &str) -> bool {
    session_reply("s".to_string(), request(id)).is_ok()
}

fn begun(request: SessionReplyRequest) -> Reply {
    let step = session_reply("s".to_string(), request).unwrap();
    advance_reply(step.reply, ReplyEvent::Registered).reply
}

fn read_session(conversation: Option<Vec<Message>>) -> ReplyEvent {
    ReplyEvent::SessionRead {
        schedule_id: Some("nightly".to_string()),
        conversation,
    }
}

fn streaming() -> Reply {
    let step = advance_reply(begun(request(ID)), ReplyEvent::AgentReady);
    let step = advance_reply(step.reply, read_session(None));
    advance_reply(step.reply, ReplyEvent::ReplyStarted).reply
}

fn gave_up(step: ReplyStep) -> String {
    assert_eq!(step.reply.phase, ReplyPhase::Done);
    assert_eq!(step.action, ReplyAction::CleanUp);
    match step.publish {
        Some(MessageEvent::Error { error }) => error,
        other => panic!("expected an error, got {:?}", other),
    }
}

#[test]
fn frames_have_an_id_and_one_line_of_data() {
    assert_eq!(format_sse_event(17, "{}"), "id: 17\ndata: {}\n\n");
    let frame = serialize_session_event(3, None, Ok(parse("{\"type\":\"Ping\"}")));
    assert_eq!(frame, "id: 3\ndata: {\"type\":\"Ping\"}\n\n");
    let frame = serialize_session_event(0, None, Ok(parse("{\"text\":\"a\\n\\r\\nb\"}")));
    assert_eq!(frame.lines().count(), 3);
}

#[test]
fn frames_name_the_request() {
    let event = Ok(parse("{\"type\":\"Error\",\"error\":\"x\"}"));
    assert_eq!(
        serialize_session_event(9, Some("r\"1"), event),
        "id: 9\ndata: {\"error\":\"x\",\"request_id\":\"r\\\"1\",\"type\":\"Error\"}\n\n"
    );
    let event = Ok(parse("{\"type\":\"Notification\",\"request_id\":\"inner\"}"));
    assert_eq!(
        serialize_session_event(9, Some("outer"), event),
        "id: 9\ndata: {\"request_id\":\"outer\",\"type\":\"Notification\"}\n\n"
    );
    assert_eq!(
        serialize_session_event(9, Some("r"), Ok(JsonValue::Null)),
        "id: 9\ndata: null\n\n"
    );
}

#[test]
fn events_that_cannot_be_serialized_are_errors() {
    assert_eq!(
        serialize_session_event(1, Some("r"), Err("key".to_string())),
        "id: 1\ndata: {\"error\":\"Serialization error: key\",\"request_id\":\"r\",\
         \"type\":\"Error\"}\n\n"
    );
}

#[test]
fn the_id_of_a_frame_resumes_the_stream() {
    for seq in [0, 1, 4711, u64::MAX] {
        let frame = format_sse_event(seq, "{}");
        let id = frame.lines().next().unwrap().strip_prefix("id: ");
        assert_eq!(last_event_id(id), Some(seq));
    }
    assert_eq!(last_event_id(None), None);
    assert_eq!(last_event_id(Some("seven")), None);
    assert_eq!(last_event_id(Some("-1")), None);
    assert_eq!(last_event_id(Some("+5")), Some(5));
    assert_eq!(last_event_id(Some("18446744073709551616")), None);
}

#[test]
fn missed_events_are_replayed_in_order() {
    let replay = vec![
        bus_event(4, Some("r"), "{\"a\":1}"),
        bus_event(5, None, "{\"b\":2}"),
    ];
    assert_eq!(
        replay_frames(replay),
        vec![
            "id: 4\ndata: {\"a\":1,\"request_id\":\"r\"}\n\n",
            "id: 5\ndata: {\"b\":2}\n\n"
        ]
    );
    assert!(replay_frames(vec![]).is_empty());
}

fn ping(seq: u64) -> BusEvent {
    BusEvent {
        seq,
        request_id: None,
        body: BusBody::Ping,
    }
}

/// The frames that a subscriber is sent, and where it is left.
fn stream(replay: Vec<BusEvent>, events: Vec<FeedEvent>) -> (Vec<String>, FeedState) {
    let (mut state, mut action) = start_feed(replay);
    let mut frames = Vec::new();
    for event in events {
        if let FeedAction::Send(frame) = action {
            frames.push(frame);
        }
        let step = feed_step(state, event);
        state = step.0;
        action = step.1;
    }
    if let FeedAction::Send(frame) = action {
        frames.push(frame);
    }
    (frames, state)
}

#[test]
fn subscribers_are_fed() {
    assert_eq!(
        feed_step(FeedState::Waiting, FeedEvent::Heartbeat),
        (FeedState::Pinging, FeedAction::PublishPing)
    );
    assert_eq!(
        feed_step(FeedState::Pinging, FeedEvent::PingPublished(8)),
        (
            FeedState::Sending,
            FeedAction::Send("id: 8\ndata: {\"type\":\"Ping\"}\n\n".to_string())
        )
    );
    assert_eq!(
        feed_step(FeedState::Waiting, FeedEvent::Received(ping(8))),
        (FeedState::Waiting, FeedAction::Wait)
    );
    let event = FeedEvent::Received(bus_event(9, Some("r"), "{}"));
    assert_eq!(
        feed_step(FeedState::Waiting, event),
        (
            FeedState::Sending,
            FeedAction::Send("id: 9\ndata: {\"request_id\":\"r\"}\n\n".to_string())
        )
    );
    assert_eq!(
        feed_step(FeedState::Waiting, FeedEvent::Lagged(3)),
        (FeedState::Waiting, FeedAction::Wait)
    );
    assert_eq!(
        feed_step(FeedState::Waiting, FeedEvent::Closed),
        (FeedState::Done, FeedAction::Stop)
    );
    assert_eq!(
        feed_step(FeedState::Sending, FeedEvent::SendFailed),
        (FeedState::Done, FeedAction::Stop)
    );
}

#[test]
fn streams_are_the_replay_and_then_live_events() {
    let replay = vec![ping(1), bus_event(2, None, "{\"a\":1}")];
    let events = vec![
        FeedEvent::Sent,
        FeedEvent::Sent,
        FeedEvent::Received(ping(3)),
        FeedEvent::Received(bus_event(4, Some("r"), "{}")),
        FeedEvent::Sent,
        FeedEvent::Lagged(2),
        FeedEvent::Heartbeat,
        FeedEvent::PingPublished(9),
        FeedEvent::Sent,
        FeedEvent::Closed,
    ];
    let (frames, state) = stream(replay, events);
    assert_eq!(
        frames,
        vec![
            "id: 1\ndata: {\"type\":\"Ping\"}\n\n",
            "id: 2\ndata: {\"a\":1}\n\n",
            "id: 4\ndata: {\"request_id\":\"r\"}\n\n",
            "id: 9\ndata: {\"type\":\"Ping\"}\n\n",
        ]
    );
    assert_eq!(state, FeedState::Done);
}

#[test]
fn streams_end_when_the_subscriber_is_gone() {
    let replay = vec![bus_event(1, None, "{}"), bus_event(2, None, "{}")];
    let (frames, state) = stream(replay, vec![FeedEvent::SendFailed]);
    assert_eq!(frames, vec!["id: 1\ndata: {}\n\n"]);
    assert_eq!(state, FeedState::Done);
    let (frames, state) = stream(vec![], vec![]);
    assert!(frames.is_empty());
    assert_eq!(state, FeedState::Waiting);
}

#[test]
fn request_ids_must_be_uuids() {
    assert!(accepted(ID));
    assert!(accepted(&ID.to_uppercase()));
    assert!(accepted(&ID.replace('-', "")));
    assert!(accepted(&format!("{{{}}}", ID)));
    assert!(accepted(&format!("urn:uuid:{}", ID)));
    assert!(accepted(&format!("URN:UUID:{}", ID)));
    assert!(!accepted(""));
    assert!(!accepted("not-a-uuid"));
    assert!(!accepted(&ID.replace('0', "g")));
    assert!(!accepted(&format!(" {}", ID)));
    assert!(!accepted(&format!("{{{}}}", ID.replace('-', ""))));
    assert!(!accepted(&format!("urn:uuid:{}", ID.replace('-', ""))));
    assert!(!accepted(&format!("urn:guid:{}", ID)));
    assert!(!accepted("0190a0c57b1e-7cc3-8b3c-0a1b-2c3d4e5f"));
    let error = session_reply("s".to_string(), request("x")).unwrap_err();
    assert_eq!(error.status, 400);
    assert_eq!(error.message, "request_id must be a valid UUID");
}

#[test]
fn requests_are_registered_before_the_agent_is_got() {
    let step = session_reply("s".to_string(), request(ID)).unwrap();
    assert_eq!(step.action, ReplyAction::Register);
    assert_eq!(step.answer, None);
    assert_eq!(step.publish, None);
    assert_eq!(step.reply.session_id, "s");
    assert_eq!(step.reply.request_id, ID);
    let step = advance_reply(step.reply, ReplyEvent::Registered);
    assert_eq!(step.action, ReplyAction::GetAgent);
    assert_eq!(step.answer, None);
    assert_eq!(REPLY_BODY_LIMIT, 52_428_800);
}

#[test]
fn requests_are_answered_once_the_agent_is_known() {
    let step = advance_reply(begun(request(ID)), ReplyEvent::AgentReady);
    assert_eq!(
        step.answer,
        Some(Ok(SessionReplyResponse {
            request_id: ID.to_string()
        }))
    );
    let step = advance_reply(step.reply, read_session(None));
    assert_eq!(step.answer, None);
    let event = ReplyEvent::AgentFailed("gone".to_string());
    match advance_reply(begun(request(ID)), event).answer {
        Some(Err(error)) => {
            assert_eq!(error.status, 424);
            assert_eq!(error.message, "Failed to get session agent: gone");
        }
        other => panic!("expected a refusal, got {:?}", other),
    }
}

#[test]
fn recipes_have_a_version() {
    assert_eq!(recipe_run(&request(ID)), None);
    let mut named = request(ID);
    named.recipe_name = Some("pie".to_string());
    let run = recipe_run(&named).unwrap();
    assert_eq!(run.name, "pie");
    assert_eq!(run.version, "unknown");
    named.recipe_version = Some("2".to_string());
    assert_eq!(recipe_run(&named).unwrap().version, "2");
}

#[test]
fn replies_that_cannot_start_are_given_up() {
    let event = ReplyEvent::AgentFailed("gone".to_string());
    assert_eq!(
        gave_up(advance_reply(begun(request(ID)), event)),
        "Failed to get session agent: gone"
    );
    let step = advance_reply(begun(request(ID)), ReplyEvent::AgentReady);
    assert_eq!(step.action, ReplyAction::ReadSession);
    let event = ReplyEvent::SessionFailed("locked".to_string());
    assert_eq!(
        gave_up(advance_reply(step.reply, event)),
        "Failed to read session: locked"
    );
    let step = advance_reply(begun(request(ID)), ReplyEvent::AgentReady);
    let step = advance_reply(step.reply, read_session(None));
    let event = ReplyEvent::ReplyFailed("no model".to_string());
    assert_eq!(gave_up(advance_reply(step.reply, event)), "no model");
}

#[test]
fn the_stored_conversation_is_continued() {
    let step = advance_reply(begun(request(ID)), ReplyEvent::AgentReady);
    let step = advance_reply(step.reply, read_session(Some(vec![message("old")])));
    assert_eq!(
        step.reply.phase,
        ReplyPhase::StartingReply {
            messages: vec![message("old"), message("hi")]
        }
    );
    assert_eq!(
        step.action,
        ReplyAction::StartReply {
            user_message: message("hi"),
            config: SessionConfig {
                id: "s".to_string(),
                schedule_id: Some("nightly".to_string()),
                max_turns: None,
                retry_config: None
            }
        }
    );
}

#[test]
fn a_given_conversation_replaces_the_stored_one() {
    let mut replacing = request(ID);
    replacing.override_conversation = Some(vec![message("new")]);
    let step = advance_reply(begun(replacing), ReplyEvent::AgentReady);
    let step = advance_reply(step.reply, read_session(Some(vec![message("old")])));
    assert_eq!(
        step.action,
        ReplyAction::ReplaceConversation {
            conversation: vec![message("new")]
        }
    );
    let step = advance_reply(step.reply, ReplyEvent::ConversationReplaced);
    assert_eq!(
        step.reply.phase,
        ReplyPhase::StartingReply {
            messages: vec![message("new"), message("hi")]
        }
    );
}

#[test]
fn messages_are_published_with_their_tokens() {
    let step = advance_reply(streaming(), ReplyEvent::Message(message("answer")));
    assert_eq!(step.publish, None);
    assert_eq!(step.action, ReplyAction::CountTokens);
    let step = advance_reply(step.reply, ReplyEvent::TokensCounted(tokens("5")));
    assert_eq!(
        step.publish,
        Some(MessageEvent::Message {
            message: message("answer"),
            token_state: tokens("5")
        })
    );
    assert_eq!(step.action, ReplyAction::Poll);
    assert_eq!(
        step.reply.phase,
        ReplyPhase::Streaming {
            messages: vec![message("hi"), message("answer")]
        }
    );
}

#[test]
fn agent_events_are_passed_on() {
    let step = advance_reply(
        streaming(),
        ReplyEvent::HistoryReplaced(vec![message("short")]),
    );
    assert_eq!(
        step.publish,
        Some(MessageEvent::UpdateConversation {
            conversation: vec![message("short")]
        })
    );
    assert_eq!(
        step.reply.phase,
        ReplyPhase::Streaming {
            messages: vec![message("short")]
        }
    );
    let event = ReplyEvent::ModelChanged {
        model: "m".to_string(),
        mode: "lead".to_string(),
    };
    assert_eq!(
        advance_reply(streaming(), event).publish,
        Some(MessageEvent::ModelChange {
            model: "m".to_string(),
            mode: "lead".to_string()
        })
    );
    let event = ReplyEvent::Notified {
        request_id: "tool".to_string(),
        message: JsonValue::Null,
    };
    assert_eq!(
        advance_reply(streaming(), event).publish,
        Some(MessageEvent::Notification {
            request_id: "tool".to_string(),
            message: JsonValue::Null
        })
    );
    for event in [ReplyEvent::Heartbeat, ReplyEvent::TimedOut] {
        let step = advance_reply(streaming(), event);
        assert_eq!(step.publish, None);
        assert_eq!(step.action, ReplyAction::Poll);
        assert_eq!(step.reply, streaming());
    }
}

#[test]
fn replies_finish_once() {
    for (event, published) in [
        (ReplyEvent::Ended, None),
        (ReplyEvent::Cancelled, None),
        (
            ReplyEvent::StreamFailed("broken".to_string()),
            Some(MessageEvent::Error {
                error: "broken".to_string(),
            }),
        ),
    ] {
        let step = advance_reply(streaming(), event);
        assert_eq!(step.publish, published);
        assert_eq!(step.action, ReplyAction::ReadSummary);
        let step = advance_reply(step.reply, ReplyEvent::Summarized(None));
        assert_eq!(
            step.action,
            ReplyAction::LogAndCountTokens(CompletionReport {
                total_tokens: 0,
                message_count: 1,
                count_tokens: false
            })
        );
        let step = advance_reply(step.reply, ReplyEvent::TokensCounted(tokens("9")));
        assert_eq!(
            step.publish,
            Some(MessageEvent::Finish {
                reason: "stop".to_string(),
                token_state: tokens("9")
            })
        );
        assert_eq!(step.action, ReplyAction::CleanUp);
        assert_eq!(step.reply.phase, ReplyPhase::Done);
    }
}

#[test]
fn summaries_come_from_the_session() {
    for (total_tokens, expected, count_tokens) in
        [(Some(12), 12, true), (Some(0), 0, false), (Some(-1), -1, false), (None, 0, false)]
    {
        let step = advance_reply(streaming(), ReplyEvent::Ended);
        let summary = SessionSummary {
            total_tokens,
            message_count: 6,
        };
        let step = advance_reply(step.reply, ReplyEvent::Summarized(Some(summary)));
        assert_eq!(
            step.action,
            ReplyAction::LogAndCountTokens(CompletionReport {
                total_tokens: expected,
                message_count: 6,
                count_tokens
            })
        );
    }
}

#[test]
fn messages_are_copied_whole() {
    let messages = vec![
        message("a"),
        Message {
            body: parse("{\"role\":\"user\",\"n\":[1,2.5]}"),
        },
    ];
    assert_eq!(copy_messages(&messages), messages);
}
