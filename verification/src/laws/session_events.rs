//! Laws of the event stream of a session.

use crate::json::{compact_json, member, member_after_insert, with_member, JsonValue, JsonView};
use crate::session_events::{
    body_value, bus_frame, bus_frames, expects, feed_moves,
    replays_from, resumed_after, sse_frame, BusBody, BusEvent, FeedAction, FeedEvent, FeedState,
};
use crate::text::{decimal, decimal_parses, parsed_u64, views};
use vstd::prelude::*;

verus! {

/// Whether a text is a frame of an object: the number in decimal, and the JSON
/// of the object.
pub open spec fn frames_object(
    frame: Seq<char>,
    seq: u64,
    members: Seq<(Seq<char>, JsonView)>,
) -> bool {
    frame == "id: "@ + decimal(seq as nat) + "\ndata: "@ + compact_json(JsonView::Object(members))
        + "\n\n"@
}

/// Whether the members name a request and are otherwise the given ones.
pub open spec fn names_request(
    members: Seq<(Seq<char>, JsonView)>,
    request_id: Seq<char>,
    given: Seq<(Seq<char>, JsonView)>,
) -> bool {
    &&& member(members, "request_id"@) == Some(JsonView::Text(request_id))
    &&& forall|key: Seq<char>|
        key != "request_id"@ ==> #[trigger] member(members, key) == member(given, key)
}

/// The members of an event that is an object.
pub open spec fn members_of(event: BusEvent) -> Option<Seq<(Seq<char>, JsonView)>> {
    match event.body {
        BusBody::Ping => Some(seq![("type"@, JsonView::Text("Ping"@))]),
        BusBody::Event(Ok(JsonValue::Object(object))) => Some(object@),
        BusBody::Event(Ok(_)) => None,
        BusBody::Event(Err(error)) => Some(
            seq![
                ("error"@, JsonView::Text("Serialization error: "@ + error@)),
                ("type"@, JsonView::Text("Error"@)),
            ],
        ),
    }
}

/// The frame of an event that belongs to a request names that request, whatever
/// the event says of requests itself, and all its other members are those of
/// the event. That of an event which belongs to none is the event as it is.
pub proof fn frames_name_the_request(event: BusEvent)
    requires
        members_of(event) is Some,
    ensures
        match event.request_id {
            Some(id) => exists|members: Seq<(Seq<char>, JsonView)>| #[trigger]
                names_request(members, id@, members_of(event)->0) && frames_object(
                    bus_frame(event),
                    event.seq,
                    members,
                ),
            None => frames_object(bus_frame(event), event.seq, members_of(event)->0),
        },
{
    let given = members_of(event)->0;
    assert(body_value(event.body) == JsonView::Object(given));
    match event.request_id {
        Some(id) => {
            let members = with_member(given, "request_id"@, JsonView::Text(id@));
            assert forall|key: Seq<char>| key != "request_id"@ implies #[trigger] member(
                members,
                key,
            ) == member(given, key) by {
                member_after_insert(given, "request_id"@, JsonView::Text(id@), key);
            }
            member_after_insert(given, "request_id"@, JsonView::Text(id@), "request_id"@);
            assert(names_request(members, id@, given));
            assert(frames_object(bus_frame(event), event.seq, members));
        },
        None => {},
    }
}

/// The frame of an event that is no object is the event as it is.
pub proof fn other_frames_are_the_event(event: BusEvent, value: JsonValue)
    requires
        event.body == BusBody::Event(Ok(value)),
        !(value is Object),
    ensures
        bus_frame(event) == "id: "@ + decimal(event.seq as nat) + "\ndata: "@ + compact_json(value@)
            + "\n\n"@,
{
}

/// A stream is resumed after the event whose number the header has, for every
/// number; and from the start where there is no header or it is no number.
pub proof fn streams_are_resumed(seq: u64, text: Seq<char>)
    ensures
        resumed_after(Some(decimal(seq as nat))) == Some(seq),
        resumed_after(Some(text)) == parsed_u64(text),
        resumed_after(None) is None,
{
    decimal_parses(seq);
}

/// Frames of the same event differ exactly in what they are numbered: the
/// number stands in the first line and nowhere else.
pub proof fn frames_are_numbered(seq: nat, json: Seq<char>)
    ensures
        sse_frame(seq, json) == "id: "@ + decimal(seq) + "\ndata: "@ + json + "\n\n"@,
{
}

/// A subscriber is sent one frame for each event that comes over the bus, that
/// of the event, unless the event is a heartbeat; a heartbeat of its own has
/// the number that it was published under and names no request.
pub proof fn subscribers_get_the_frames(
    state: FeedState,
    event: FeedEvent,
    next: FeedState,
    action: FeedAction,
)
    requires
        feed_moves(state, event, next, action),
    ensures
        event matches FeedEvent::Received(received) ==> match received.body {
            BusBody::Ping => action == FeedAction::Wait && next == FeedState::Waiting,
            BusBody::Event(_) => (action matches FeedAction::Send(frame) && frame@ == bus_frame(
                received,
            )) && next == FeedState::Sending,
        },
        event matches FeedEvent::PingPublished(seq) ==> (action matches FeedAction::Send(frame)
            && frames_object(frame@, seq, seq![("type"@, JsonView::Text("Ping"@))])),
        event is Heartbeat ==> action == FeedAction::PublishPing && next == FeedState::Pinging,
        event is Lagged ==> action == FeedAction::Wait && next == FeedState::Waiting,
        event is Closed || event is SendFailed ==> action == FeedAction::Stop && next
            == FeedState::Done,
        action == FeedAction::Stop ==> event is Closed || event is SendFailed,
        state is Sending && event is Sent ==> action == FeedAction::Wait && next
            == FeedState::Waiting,
{
}

/// A subscriber is sent what it missed one after the other, from the first to
/// the last, and waits for more then.
pub proof fn replays_go_on(
    frames: Vec<String>,
    at: usize,
    next: FeedState,
    action: FeedAction,
)
    requires
        feed_moves(FeedState::Replaying { frames, at }, FeedEvent::Sent, next, action),
    ensures
        at + 1 < frames@.len() ==> (action matches FeedAction::Send(frame) && frame@ == frames@[at
            + 1]@) && (next matches FeedState::Replaying { frames: kept, at: place } && place == at
            + 1 && kept@.len() == frames@.len() && forall|i: int|
            0 <= i < kept@.len() ==> (#[trigger] kept@[i])@ == frames@[i]@),
        at + 1 >= frames@.len() ==> action == FeedAction::Wait && next == FeedState::Waiting,
{
    assert(views(frames@).len() == frames@.len());
    if let FeedState::Replaying { frames: kept, at: place } = next {
        assert(views(kept@).len() == kept@.len());
        assert forall|i: int| 0 <= i < kept@.len() implies (#[trigger] kept@[i])@ == frames@[i]@ by {
            assert(views(kept@)[i] == views(frames@)[i]);
        }
    }
}

/// Serving a subscriber begins with the first event that it missed, or with
/// waiting where it missed none.
pub proof fn replays_begin(replay: Seq<BusEvent>, state: FeedState, action: FeedAction)
    requires
        replays_from(bus_frames(replay), 0, state, action),
    ensures
        replay.len() > 0 ==> (action matches FeedAction::Send(frame) && frame@ == bus_frame(
            replay[0],
        )),
        replay.len() > 0 ==> (state matches FeedState::Replaying { frames, at } && at == 0
            && frames@.len() == replay.len() && forall|i: int|
            0 <= i < frames@.len() ==> (#[trigger] frames@[i])@ == bus_frame(replay[i])),
        replay.len() == 0 ==> action == FeedAction::Wait && state == FeedState::Waiting,
{
    assert(bus_frames(replay).len() == replay.len());
    if let FeedState::Replaying { frames, at } = state {
        assert(views(frames@).len() == frames@.len());
        assert forall|i: int| 0 <= i < frames@.len() implies (#[trigger] frames@[i])@ == bus_frame(
            replay[i],
        ) by {
            assert(views(frames@)[i] == bus_frames(replay)[i]);
        }
    }
}

/// What can happen to a subscriber while it is in a state.
pub proof fn subscribers_expect(state: FeedState, event: BusEvent, n: u64)
    ensures
        state is Replaying || state is Sending ==> expects(state, FeedEvent::Sent) && expects(
            state,
            FeedEvent::SendFailed,
        ),
        state is Waiting ==> expects(state, FeedEvent::Heartbeat) && expects(
            state,
            FeedEvent::Received(event),
        ) && expects(state, FeedEvent::Lagged(n)) && expects(state, FeedEvent::Closed),
        state is Pinging ==> expects(state, FeedEvent::PingPublished(n)),
{
}

} // verus!
