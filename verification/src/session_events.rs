//! The event stream of a session: the frames that carry events, and which
//! events a subscriber is sent.

use crate::json::{
    compact_json, member, member_after_insert, with_member, JsonObject, JsonValue, JsonView,
};
use crate::text::{
    decimal, decimal_parses, decimal_round_trip, decimal_text, is_digit, joined, parse_u64,
    parsed_u64, pieces, pieces_join, pieces_of_joined, pieces_prefix, views, with_cause,
};
use vstd::prelude::*;

verus! {

// ---------------------------------------------------------------------------
// Frames
// ---------------------------------------------------------------------------

/// A frame of the event stream: the line with the event's number, the line with
/// its data, and an empty line.
pub open spec fn sse_frame(seq: nat, json: Seq<char>) -> Seq<char> {
    "id: "@ + decimal(seq) + "\ndata: "@ + json + "\n\n"@
}

/// What a frame carries where the event could not be serialized.
pub open spec fn serialization_failure(error: Seq<char>) -> JsonView {
    JsonView::Object(
        seq![
            ("error"@, JsonView::Text("Serialization error: "@ + error)),
            ("type"@, JsonView::Text("Error"@)),
        ],
    )
}

/// An event as it was serialized, or what stands for it where it was not.
pub open spec fn event_value(event: Result<JsonValue, String>) -> JsonView {
    match event {
        Ok(value) => value@,
        Err(error) => serialization_failure(error@),
    }
}

/// An event with the request that it belongs to, if it belongs to one and is an
/// object.
pub open spec fn tagged_value(value: JsonView, request_id: Option<Seq<char>>) -> JsonView {
    match (value, request_id) {
        (JsonView::Object(members), Some(id)) => JsonView::Object(
            with_member(members, "request_id"@, JsonView::Text(id)),
        ),
        _ => value,
    }
}

/// The characters of a string that may be absent.
pub open spec fn optional_view(text: Option<&str>) -> Option<Seq<char>> {
    match text {
        Some(text) => Some(text@),
        None => None,
    }
}

/// A frame whose data has no line feed is exactly three lines and the end of
/// the third.
pub proof fn frame_lines(seq: nat, json: Seq<char>)
    requires
        !json.contains('\n'),
    ensures
        pieces(sse_frame(seq, json), '\n') == seq![
            "id: "@ + decimal(seq),
            "data: "@ + json,
            Seq::empty(),
            Seq::empty(),
        ],
{
    reveal_strlit("id: ");
    reveal_strlit("data: ");
    reveal_strlit("\ndata: ");
    reveal_strlit("\n\n");
    decimal_round_trip(seq);
    let first = "id: "@ + decimal(seq);
    let second = "data: "@ + json;
    let nothing = Seq::<char>::empty();
    let parts = seq![first, second, nothing, nothing];
    assert(!first.contains('\n')) by {
        if first.contains('\n') {
            let k = first.index_of('\n');
            if k >= 4 {
                assert(decimal(seq)[k - 4] == '\n');
                assert(is_digit(decimal(seq)[k - 4]));
            }
        }
    }
    assert(!second.contains('\n')) by {
        if second.contains('\n') {
            let k = second.index_of('\n');
            if k >= 6 {
                assert(json[k - 6] == '\n');
            }
        }
    }
    assert(!nothing.contains('\n'));
    assert forall|i: int| 0 <= i < parts.len() implies !#[trigger] parts[i].contains('\n') by {}
    pieces_of_joined(parts, '\n');
    reveal_with_fuel(joined, 5);
    let gap = seq!['\n'];
    assert(parts.drop_last() == seq![first, second, nothing]);
    assert(seq![first, second, nothing].drop_last() == seq![first, second]);
    assert(seq![first, second].drop_last() == seq![first]);
    assert(seq![first].drop_last() == Seq::<Seq<char>>::empty());
    assert(joined(parts, gap) == first + gap + second + gap + nothing + gap + nothing);
    assert("\ndata: "@ == gap + "data: "@);
    assert("\n\n"@ == gap + gap);
    assert(joined(parts, gap) == sse_frame(seq, json));
}

/// The number in the first line of a frame is read back as the number of the
/// event: a subscriber that names it resumes after that event.
pub proof fn frame_names_event(seq: u64, json: Seq<char>)
    ensures
        parsed_u64(pieces(sse_frame(seq as nat, json), '\n')[0].skip("id: "@.len() as int)) == Some(
            seq,
        ),
{
    reveal_strlit("\ndata: ");
    reveal_strlit("\n\n");
    let line = "id: "@ + decimal(seq as nat);
    let nothing = Seq::<char>::empty();
    frame_lines(seq as nat, nothing);
    let start = line + seq!['\n'];
    // The first line is the same whatever the data is.
    let rest = "\ndata: "@.skip(1) + json + "\n\n"@;
    assert(start + rest == sse_frame(seq as nat, json));
    let empty_rest = "\ndata: "@.skip(1) + nothing + "\n\n"@;
    assert(start + empty_rest == sse_frame(seq as nat, nothing));
    pieces_prefix(start, rest, '\n');
    pieces_prefix(start, empty_rest, '\n');
    assert(start.drop_last() == line);
    pieces_join(line, '\n');
    assert(pieces(start, '\n').len() > 1);
    decimal_parses(seq);
    assert(line.skip("id: "@.len() as int) == decimal(seq as nat));
}

/// An event that belongs to a request names it, and is otherwise as it was.
pub proof fn tagged_event_names_request(
    members: Seq<(Seq<char>, JsonView)>,
    request_id: Seq<char>,
    other: Seq<char>,
)
    ensures
        tagged_value(JsonView::Object(members), Some(request_id)) is Object,
        ({
            let tagged = tagged_value(JsonView::Object(members), Some(request_id))->Object_0;
            &&& member(tagged, "request_id"@) == Some(JsonView::Text(request_id))
            &&& other != "request_id"@ ==> member(tagged, other) == member(members, other)
        }),
        tagged_value(JsonView::Object(members), None) == JsonView::Object(members),
{
    member_after_insert(members, "request_id"@, JsonView::Text(request_id), "request_id"@);
    member_after_insert(members, "request_id"@, JsonView::Text(request_id), other);
}

/// A frame of the event stream.
pub fn format_sse_event(seq: u64, json: &str) -> (r: String)
    ensures
        r@ == sse_frame(seq as nat, json@),
{
    let mut r = "id: ".to_owned();
    r.append(decimal_text(seq).as_str());
    r.append("\ndata: ");
    r.append(json);
    r.append("\n\n");
    r
}

/// What a frame carries where the event could not be serialized.
fn failure_value(error: &str) -> (r: JsonObject)
    ensures
        JsonView::Object(r@) == serialization_failure(error@),
{
    let message = JsonValue::Text(with_cause("Serialization error: ", error));
    let r = JsonObject::new().insert("error".to_owned(), message).insert(
        "type".to_owned(),
        JsonValue::Text("Error".to_owned()),
    );
    proof {
        reveal_strlit("error");
        reveal_strlit("type");
        assert("error"@[0] == 'e');
        assert("type"@[0] == 't');
        let first = seq![("error"@, message@)];
        assert(first.drop_first() == Seq::<(Seq<char>, JsonView)>::empty());
        reveal_with_fuel(with_member, 2);
        assert(with_member(first, "type"@, JsonView::Text("Error"@)) == seq![
            ("error"@, message@),
            ("type"@, JsonView::Text("Error"@)),
        ]);
    }
    r
}

/// The frame of an event: its JSON, with the request that it belongs to set as
/// a member, on one line.
pub fn serialize_session_event(
    seq: u64,
    request_id: Option<&str>,
    event: Result<JsonValue, String>,
) -> (r: String)
    ensures
        ({
            let json = compact_json(tagged_value(event_value(event), optional_view(request_id)));
            &&& r@ == sse_frame(seq as nat, json)
            &&& pieces(r@, '\n') == seq![
                "id: "@ + decimal(seq as nat),
                "data: "@ + json,
                Seq::empty(),
                Seq::empty(),
            ]
        }),
{
    let event_json = match event {
        Ok(value) => value,
        Err(error) => JsonValue::Object(failure_value(error.as_str())),
    };
    let tagged = match event_json {
        JsonValue::Object(object) => match request_id {
            Some(id) => JsonValue::Object(
                object.insert("request_id".to_owned(), JsonValue::Text(id.to_owned())),
            ),
            None => JsonValue::Object(object),
        },
        other => other,
    };
    let json = tagged.compact_text();
    proof {
        frame_lines(seq as nat, json@);
    }
    format_sse_event(seq, json.as_str())
}

// ---------------------------------------------------------------------------
// Subscribers
// ---------------------------------------------------------------------------

/// The event after which the stream of a subscriber is resumed, by the header
/// of its request.
pub open spec fn resumed_after(header: Option<Seq<char>>) -> Option<u64> {
    match header {
        Some(text) => parsed_u64(text),
        None => None,
    }
}

/// The number of the last event that a subscriber has seen, as the header of
/// its request tells it.
pub fn last_event_id(header: Option<&str>) -> (r: Option<u64>)
    ensures
        r == resumed_after(optional_view(header)),
        r == (match header {
            Some(text) => parsed_u64(text@),
            None => None,
        }),
{
    match header {
        Some(text) => parse_u64(text),
        None => None,
    }
}

/// What an event of a session is: a heartbeat, or anything else, in JSON, or why
/// that could not be serialized.
#[derive(Debug, PartialEq)]
pub enum BusBody {
    Ping,
    Event(Result<JsonValue, String>),
}

/// An event of a session, as it goes over the bus.
#[derive(Debug, PartialEq)]
pub struct BusEvent {
    pub seq: u64,
    pub request_id: Option<String>,
    pub body: BusBody,
}

/// A heartbeat in JSON.
pub open spec fn ping_value() -> JsonView {
    JsonView::Object(seq![("type"@, JsonView::Text("Ping"@))])
}

/// What an event is in JSON.
pub open spec fn body_value(body: BusBody) -> JsonView {
    match body {
        BusBody::Ping => ping_value(),
        BusBody::Event(json) => event_value(json),
    }
}

/// The frame of an event that went over the bus.
pub open spec fn bus_frame(event: BusEvent) -> Seq<char> {
    sse_frame(
        event.seq as nat,
        compact_json(
            tagged_value(
                body_value(event.body),
                match event.request_id {
                    Some(id) => Some(id@),
                    None => None,
                },
            ),
        ),
    )
}

/// The frame of a heartbeat of a subscriber: it has the number that the bus gave
/// it, and belongs to no request.
pub open spec fn ping_frame(seq: u64) -> Seq<char> {
    sse_frame(seq as nat, compact_json(ping_value()))
}

/// The frames of events.
pub open spec fn bus_frames(events: Seq<BusEvent>) -> Seq<Seq<char>> {
    events.map_values(|e: BusEvent| bus_frame(e))
}

fn ping_json() -> (r: JsonValue)
    ensures
        r@ == ping_value(),
{
    JsonValue::Object(
        JsonObject::new().insert("type".to_owned(), JsonValue::Text("Ping".to_owned())),
    )
}

fn frame_of(event: BusEvent) -> (r: String)
    ensures
        r@ == bus_frame(event),
{
    let BusEvent { seq, request_id, body } = event;
    let json = match body {
        BusBody::Ping => Ok(ping_json()),
        BusBody::Event(json) => json,
    };
    match request_id {
        Some(id) => serialize_session_event(seq, Some(id.as_str()), json),
        None => serialize_session_event(seq, None, json),
    }
}

/// The frames of the events that a subscriber missed, in order.
pub fn replay_frames(replay: Vec<BusEvent>) -> (r: Vec<String>)
    ensures
        views(r@) == bus_frames(replay@),
{
    let mut frames: Vec<String> = Vec::new();
    let ghost all = replay@;
    for event in it: replay
        invariant
            it.seq() == all,
            frames@.len() == it.index(),
            forall|i: int| 0 <= i < frames@.len() ==> (#[trigger] frames@[i])@ == bus_frame(all[i]),
    {
        frames.push(frame_of(event));
    }
    assert(views(frames@) == bus_frames(all));
    frames
}

/// How far a subscriber has been served.
#[derive(Debug, PartialEq)]
pub enum FeedState {
    /// The events that the subscriber missed are being sent; the one at `at` is
    /// on its way.
    Replaying { frames: Vec<String>, at: usize },
    /// Waiting for events and for the heartbeat.
    Waiting,
    /// A heartbeat is being published.
    Pinging,
    /// A frame is on its way.
    Sending,
    /// The subscriber is served no more.
    Done,
}

/// What happens while a subscriber is served.
#[derive(Debug, PartialEq)]
pub enum FeedEvent {
    /// The frame was sent.
    Sent,
    /// The subscriber is gone.
    SendFailed,
    /// The heartbeat is due.
    Heartbeat,
    /// The heartbeat went over the bus, under this number.
    PingPublished(u64),
    /// An event came over the bus.
    Received(BusEvent),
    /// So many events were missed.
    Lagged(u64),
    /// The bus is gone.
    Closed,
}

/// What is to be done next for a subscriber.
#[derive(Debug, PartialEq)]
pub enum FeedAction {
    Send(String),
    /// Wait for events and for the heartbeat.
    Wait,
    /// Publish a heartbeat that belongs to no request, so that it gets a number
    /// of its own.
    PublishPing,
    Stop,
}

/// Whether an event can happen in a state.
pub open spec fn expects(state: FeedState, event: FeedEvent) -> bool {
    match state {
        FeedState::Replaying { .. } | FeedState::Sending => event is Sent || event is SendFailed,
        FeedState::Waiting => event is Heartbeat || event is Received || event is Lagged
            || event is Closed,
        FeedState::Pinging => event is PingPublished,
        FeedState::Done => false,
    }
}

/// What holds of every state: while events are replayed, one of them is on its
/// way.
pub open spec fn feed_invariant(state: FeedState) -> bool {
    state matches FeedState::Replaying { frames, at } ==> at < frames@.len()
}

/// Whether an action sends the given frame.
pub open spec fn sends(action: FeedAction, frame: Seq<char>) -> bool {
    action matches FeedAction::Send(sent) && sent@ == frame
}

/// Whether a subscriber is served from the given place of the replay on.
pub open spec fn replays_from(
    replay: Seq<Seq<char>>,
    place: int,
    state: FeedState,
    action: FeedAction,
) -> bool {
    if place < replay.len() {
        &&& state matches FeedState::Replaying { frames, at } && views(frames@) == replay && at
            == place
        &&& sends(action, replay[place])
    } else {
        state == FeedState::Waiting && action == FeedAction::Wait
    }
}

/// Whether an event takes a subscriber one step on. Heartbeats that come over
/// the bus are skipped: each subscriber has its own.
pub open spec fn feed_moves(
    state: FeedState,
    event: FeedEvent,
    next: FeedState,
    action: FeedAction,
) -> bool {
    match (state, event) {
        (FeedState::Replaying { frames, at }, FeedEvent::Sent) => replays_from(
            views(frames@),
            at + 1,
            next,
            action,
        ),
        (FeedState::Sending, FeedEvent::Sent) => next == FeedState::Waiting && action
            == FeedAction::Wait,
        (FeedState::Replaying { .. }, FeedEvent::SendFailed) => next == FeedState::Done && action
            == FeedAction::Stop,
        (FeedState::Sending, FeedEvent::SendFailed) => next == FeedState::Done && action
            == FeedAction::Stop,
        (FeedState::Waiting, FeedEvent::Heartbeat) => next == FeedState::Pinging && action
            == FeedAction::PublishPing,
        (FeedState::Pinging, FeedEvent::PingPublished(seq)) => next == FeedState::Sending && sends(
            action,
            ping_frame(seq),
        ),
        (FeedState::Waiting, FeedEvent::Received(received)) => if received.body is Ping {
            next == FeedState::Waiting && action == FeedAction::Wait
        } else {
            next == FeedState::Sending && sends(action, bus_frame(received))
        },
        (FeedState::Waiting, FeedEvent::Lagged(_)) => next == FeedState::Waiting && action
            == FeedAction::Wait,
        (FeedState::Waiting, FeedEvent::Closed) => next == FeedState::Done && action
            == FeedAction::Stop,
        _ => false,
    }
}

/// Begins to serve a subscriber, with the events that it missed.
pub fn start_feed(replay: Vec<BusEvent>) -> (r: (FeedState, FeedAction))
    ensures
        replays_from(bus_frames(replay@), 0, r.0, r.1),
        feed_invariant(r.0),
{
    let frames = replay_frames(replay);
    assert(frames@.len() == views(frames@).len());
    if frames.len() > 0 {
        let first = frames[0].clone();
        (FeedState::Replaying { frames, at: 0 }, FeedAction::Send(first))
    } else {
        (FeedState::Waiting, FeedAction::Wait)
    }
}

/// Takes a subscriber one step on.
pub fn feed_step(state: FeedState, event: FeedEvent) -> (r: (FeedState, FeedAction))
    requires
        expects(state, event),
        feed_invariant(state),
    ensures
        feed_moves(state, event, r.0, r.1),
        feed_invariant(r.0),
{
    match state {
        FeedState::Replaying { frames, at } => match event {
            FeedEvent::Sent => {
                assert(frames@.len() == views(frames@).len());
                if at < frames.len() - 1 {
                    let next = frames[at + 1].clone();
                    (FeedState::Replaying { frames, at: at + 1 }, FeedAction::Send(next))
                } else {
                    (FeedState::Waiting, FeedAction::Wait)
                }
            },
            _ => (FeedState::Done, FeedAction::Stop),
        },
        FeedState::Sending => match event {
            FeedEvent::Sent => (FeedState::Waiting, FeedAction::Wait),
            _ => (FeedState::Done, FeedAction::Stop),
        },
        FeedState::Waiting => match event {
            FeedEvent::Heartbeat => (FeedState::Pinging, FeedAction::PublishPing),
            FeedEvent::Received(received) => match received.body {
                BusBody::Ping => (FeedState::Waiting, FeedAction::Wait),
                BusBody::Event(json) => {
                    let BusEvent { seq, request_id, body: _ } = received;
                    let frame = frame_of(BusEvent { seq, request_id, body: BusBody::Event(json) });
                    (FeedState::Sending, FeedAction::Send(frame))
                },
            },
            FeedEvent::Lagged(_) => (FeedState::Waiting, FeedAction::Wait),
            _ => (FeedState::Done, FeedAction::Stop),
        },
        FeedState::Pinging => match event {
            FeedEvent::PingPublished(seq) => {
                let frame = serialize_session_event(seq, None, Ok(ping_json()));
                (FeedState::Sending, FeedAction::Send(frame))
            },
            _ => vstd::pervasive::unreached(),
        },
        FeedState::Done => vstd::pervasive::unreached(),
    }
}

// ---------------------------------------------------------------------------
// Whole streams
// ---------------------------------------------------------------------------

/// Whether a subscriber is served so that the events happen one after the other.
pub open spec fn feed_run(
    replay: Seq<BusEvent>,
    events: Seq<FeedEvent>,
    states: Seq<FeedState>,
    actions: Seq<FeedAction>,
) -> bool {
    &&& states.len() == events.len() + 1
    &&& actions.len() == events.len() + 1
    &&& replays_from(bus_frames(replay), 0, states[0], actions[0])
    &&& forall|i: int|
        0 <= i < events.len() ==> feed_moves(
            #[trigger] states[i],
            events[i],
            states[i + 1],
            actions[i + 1],
        )
}

/// The frames that the actions send, in order.
pub open spec fn frames_sent(actions: Seq<FeedAction>) -> Seq<Seq<char>>
    decreases actions.len(),
{
    if actions.len() == 0 {
        Seq::empty()
    } else {
        let before = frames_sent(actions.drop_last());
        match actions.last() {
            FeedAction::Send(frame) => before.push(frame@),
            _ => before,
        }
    }
}

/// The frames that events ask for while they happen: one for each event that
/// comes over the bus and is no heartbeat, and one for each heartbeat of the
/// subscriber's own, in order.
pub open spec fn live_frames(events: Seq<FeedEvent>) -> Seq<Seq<char>>
    decreases events.len(),
{
    if events.len() == 0 {
        Seq::empty()
    } else {
        let before = live_frames(events.drop_last());
        match events.last() {
            FeedEvent::Received(received) => if received.body is Ping {
                before
            } else {
                before.push(bus_frame(received))
            },
            FeedEvent::PingPublished(seq) => before.push(ping_frame(seq)),
            _ => before,
        }
    }
}

/// What has been sent in each state.
proof fn stream_so_far(
    replay: Seq<BusEvent>,
    events: Seq<FeedEvent>,
    states: Seq<FeedState>,
    actions: Seq<FeedAction>,
)
    requires
        feed_run(replay, events, states, actions),
    ensures
        ({
            let missed = bus_frames(replay);
            let sent = frames_sent(actions);
            let live = live_frames(events);
            match states.last() {
                FeedState::Replaying { frames, at } => {
                    &&& views(frames@) == missed
                    &&& at < missed.len()
                    &&& sent == missed.take(at + 1)
                    &&& live.len() == 0
                },
                FeedState::Done => {
                    ||| sent == missed + live
                    ||| sent.len() <= missed.len() && sent == missed.take(sent.len() as int)
                        && live.len() == 0
                },
                _ => sent == missed + live,
            }
        }),
    decreases events.len(),
{
    let missed = bus_frames(replay);
    if events.len() == 0 {
        assert(actions.drop_last() == Seq::<FeedAction>::empty());
        assert(frames_sent(actions.drop_last()) == Seq::<Seq<char>>::empty());
        if missed.len() > 0 {
            assert(frames_sent(actions) == missed.take(1));
        } else {
            assert(frames_sent(actions) == missed + live_frames(events));
        }
    } else {
        let k = events.len() - 1;
        let (earlier, front_states, front) = (
            events.drop_last(),
            states.drop_last(),
            actions.drop_last(),
        );
        assert forall|i: int| 0 <= i < earlier.len() implies feed_moves(
            #[trigger] front_states[i],
            earlier[i],
            front_states[i + 1],
            front[i + 1],
        ) by {
            assert(feed_moves(states[i], events[i], states[i + 1], actions[i + 1]));
        }
        stream_so_far(replay, earlier, front_states, front);
        assert(feed_moves(states[k], events[k], states[k + 1], actions[k + 1]));
        assert(front_states.last() == states[k]);
        let (sent, live) = (frames_sent(front), live_frames(earlier));
        match states[k] {
            FeedState::Replaying { frames, at } => {
                if at + 1 < missed.len() {
                    assert(missed.take(at + 1).push(missed[at + 1]) == missed.take(at + 2));
                } else {
                    assert(missed.take(at + 1) == missed);
                    assert(missed + live == missed);
                }
            },
            FeedState::Waiting => {
                if let FeedEvent::Received(received) = events[k] {
                    assert((missed + live).push(bus_frame(received)) == missed + live.push(
                        bus_frame(received),
                    ));
                }
            },
            FeedState::Pinging => {
                if let FeedEvent::PingPublished(seq) = events[k] {
                    assert((missed + live).push(ping_frame(seq)) == missed + live.push(
                        ping_frame(seq),
                    ));
                }
            },
            _ => {},
        }
    }
}

/// A subscriber is sent the events that it missed, all of them and in order,
/// before anything else; then one frame for each event that comes over the bus
/// and is no heartbeat, and for each heartbeat of its own, in the order in which
/// they come; and nothing else.
pub proof fn stream_is_replay_then_live(
    replay: Seq<BusEvent>,
    events: Seq<FeedEvent>,
    states: Seq<FeedState>,
    actions: Seq<FeedAction>,
)
    requires
        feed_run(replay, events, states, actions),
    ensures
        ({
            let missed = bus_frames(replay);
            let sent = frames_sent(actions);
            if sent.len() < missed.len() {
                sent == missed.take(sent.len() as int) && live_frames(events).len() == 0
            } else {
                sent == missed + live_frames(events)
            }
        }),
{
    stream_so_far(replay, events, states, actions);
    let missed = bus_frames(replay);
    assert(missed.take(missed.len() as int) == missed);
    if live_frames(events).len() == 0 {
        assert(missed + live_frames(events) == missed);
    }
}

/// A subscriber is served until it is gone or the bus is: events that were
/// missed do not end its stream.
pub proof fn stream_ends_with_subscriber_or_bus(
    state: FeedState,
    event: FeedEvent,
    next: FeedState,
    action: FeedAction,
)
    requires
        feed_moves(state, event, next, action),
    ensures
        next == FeedState::Done <==> event is Closed || event is SendFailed,
        next == FeedState::Done <==> action == FeedAction::Stop,
{
}

} // verus!
