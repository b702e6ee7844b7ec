//! The handling of one client request, as a machine that the connection
//! drives: each step takes what the last piece of outside work gave back
//! and says what to do next (send a message, ask the room manager, a WebRTC
//! transport or the SFU, or finish with the request's outcome).

use vstd::prelude::*;
use vstd::string::StringExecFns;
use crate::messages::{AuthenticatedUser, ClientMessage, ParticipantInfo, ServerMessage};
use crate::sdp::{
    SdpKind, SessionDescription, answer_sdp_rejection, check_answer_sdp, check_offer_sdp,
    offer_sdp_rejection,
};

verus! {

/// Who sends the requests of a connection, and whether an SFU serves it.
#[derive(Clone, Debug, PartialEq, Eq)]
pub struct Session {
    pub user: AuthenticatedUser,
    pub sfu_available: bool,
}

/// A request that is only served to members of its room.
#[derive(Clone, Debug, PartialEq, Eq)]
pub enum RoomRequest {
    Offer { room_name: String, sdp: String },
    Answer { room_name: String, sdp: String },
    Ice { room_name: String, candidate: String },
}

impl RoomRequest {
    /// The room that the request is about.
    pub open spec fn room(self) -> String {
        match self {
            RoomRequest::Offer { room_name, .. } => room_name,
            RoomRequest::Answer { room_name, .. } => room_name,
            RoomRequest::Ice { room_name, .. } => room_name,
        }
    }
}

/// What the room manager knows of the requesting participant in a room.
#[derive(Clone, Debug, PartialEq, Eq)]
pub enum ParticipantLookup {
    RoomNotFound,
    ParticipantNotFound,
    Found { has_publish: bool, has_subscribe: bool },
}

/// Where the handling of a request stands.
#[derive(Clone, Debug, PartialEq, Eq)]
pub enum Stage {
    /// Waiting for the request itself.
    Start,
    /// A reply was handed out; waiting to learn whether it was sent.
    Finishing,
    /// The outcome was reported; nothing is left to do.
    Finished,
    AwaitJoin { room_name: String },
    AwaitLeave { room_name: String },
    AwaitMembership { request: RoomRequest },
    AwaitLookup { request: RoomRequest },
    AwaitTransportAnswer { room_name: String },
    AwaitTransportSetAnswer,
    AwaitPublishIce { candidate: String, try_subscribe: bool },
    AwaitSubscribeIce { added: bool },
    AwaitSfuJoin { room_name: String, offer: String },
    AwaitSfuPublish { room_name: String },
    AwaitAnswerSent { room_name: String },
    AwaitSfuParticipants { room_name: String },
    AwaitSfuPublishIce { room_name: String, candidate: String },
    AwaitSfuSubscribeOffer { room_name: String, publisher_id: u32 },
    AwaitSfuSubscribeAnswer,
    AwaitSfuSubscribeIce { room_name: String, publisher_id: u32, candidate: String },
}

/// What the last piece of outside work gave back.
#[derive(Debug, PartialEq, Eq)]
pub enum Event {
    /// The request, parsed, or the parser's error text.
    Received { message: Result<ClientMessage, String> },
    /// Whether a message was delivered, or why not.
    Sent { delivery: Result<(), String> },
    /// The room manager's answer to a join: the participants already there.
    Joined { joined: Result<Vec<ParticipantInfo>, String> },
    /// Whether the user is a member of the room.
    Membership { in_room: bool },
    /// What the room manager holds for the participant.
    Lookup { found: ParticipantLookup },
    /// An operation without a result succeeded or failed.
    Completed { result: Result<(), String> },
    /// An operation gave back the SDP text of a session description.
    Described { sdp: Result<String, String> },
    /// Whether a transport accepted an ICE candidate.
    IceAdded { added: bool },
    /// The user ids of the participants of an SFU room.
    Participants { listed: Result<Vec<u32>, String> },
}

/// What the connection is to do next.
#[derive(Debug, PartialEq, Eq)]
pub enum Action {
    Send { message: ServerMessage },
    /// Deliver `message` to the listed participants of the room.
    Broadcast { room_name: String, recipients: Vec<u32>, message: ServerMessage },
    Finish { outcome: Result<(), String> },
    JoinRoom { room_name: String, user_id: u32 },
    LeaveRoom { room_name: String, user_id: u32 },
    CheckMembership { room_name: String, user_id: u32 },
    LookupParticipant { room_name: String, user_id: u32 },
    PublishTransportAnswer { offer: SessionDescription },
    SubscribeTransportSetAnswer { answer: SessionDescription },
    PublishTransportIce { candidate: String },
    SubscribeTransportIce { candidate: String },
    SfuAddParticipant { room_name: String, user_id: u32, username: String },
    SfuPublishOffer { room_name: String, user_id: u32, offer: SessionDescription },
    SfuRoomParticipants { room_name: String },
    SfuPublishIce { room_name: String, user_id: u32, candidate: String },
    SfuSubscribeRequest { room_name: String, user_id: u32, publisher_id: u32 },
    SfuSubscribeAnswer {
        room_name: String,
        user_id: u32,
        publisher_id: u32,
        answer: SessionDescription,
    },
    SfuSubscribeIce { room_name: String, user_id: u32, publisher_id: u32, candidate: String },
}

/// Whether `stage` waits for an event of the kind of `event`.
pub open spec fn expects(stage: Stage, event: Event) -> bool {
    match stage {
        Stage::Start => event is Received,
        Stage::Finished => false,
        Stage::Finishing | Stage::AwaitAnswerSent { .. } => event is Sent,
        Stage::AwaitJoin { .. } => event is Joined,
        Stage::AwaitMembership { .. } => event is Membership,
        Stage::AwaitLookup { .. } => event is Lookup,
        Stage::AwaitTransportAnswer { .. } | Stage::AwaitSfuPublish { .. }
        | Stage::AwaitSfuSubscribeOffer { .. } => event is Described,
        Stage::AwaitPublishIce { .. } | Stage::AwaitSubscribeIce { .. } => event is IceAdded,
        Stage::AwaitSfuParticipants { .. } => event is Participants,
        _ => event is Completed,
    }
}

/// How many steps at most are left before the handling is finished.
pub open spec fn steps_left(stage: Stage) -> nat {
    match stage {
        Stage::Start => 6,
        Stage::Finishing => 1,
        Stage::Finished => 0,
        Stage::AwaitMembership { .. } | Stage::AwaitSfuJoin { .. } => 5,
        Stage::AwaitLookup { .. } | Stage::AwaitSfuPublish { .. } => 4,
        Stage::AwaitPublishIce { .. } | Stage::AwaitAnswerSent { .. } => 3,
        _ => 2,
    }
}

/// The next step sends `message` and then finishes.
pub open spec fn replies(next: Stage, action: Action, message: ServerMessage) -> bool {
    next == Stage::Finishing && action == (Action::Send { message })
}

/// The next step sends an error report reading `text` and then finishes.
pub open spec fn replies_error(next: Stage, action: Action, text: Seq<char>) -> bool {
    &&& next == Stage::Finishing
    &&& action matches Action::Send { message: ServerMessage::Error { message } }
    &&& message@ == text
}

/// The handling ends in failure with the error text `text`.
pub open spec fn fails(next: Stage, action: Action, text: Seq<char>) -> bool {
    &&& next == Stage::Finished
    &&& action matches Action::Finish { outcome: Err(e) }
    &&& e@ == text
}

/// The handling ends in success.
pub open spec fn succeeds(next: Stage, action: Action) -> bool {
    next == Stage::Finished && action == (Action::Finish { outcome: Ok(()) })
}

/// The request `message` starts `next` with `action`.
pub open spec fn start_step(session: Session, message: ClientMessage, next: Stage, action: Action) -> bool {
    let user_id = session.user.user_id;
    match message {
        ClientMessage::Auth { .. } => replies_error(next, action, "Authentication already completed"@),
        ClientMessage::JoinRoom { room_name, .. } => next == (Stage::AwaitJoin { room_name })
            && action == (Action::JoinRoom { room_name, user_id }),
        ClientMessage::LeaveRoom { room_name } => next == (Stage::AwaitLeave { room_name })
            && action == (Action::LeaveRoom { room_name, user_id }),
        ClientMessage::Offer { room_name, sdp, .. } => next == (Stage::AwaitMembership {
            request: RoomRequest::Offer { room_name, sdp },
        }) && action == (Action::CheckMembership { room_name, user_id }),
        ClientMessage::Answer { room_name, sdp, .. } => next == (Stage::AwaitMembership {
            request: RoomRequest::Answer { room_name, sdp },
        }) && action == (Action::CheckMembership { room_name, user_id }),
        ClientMessage::IceCandidate { room_name, candidate, .. } => next == (Stage::AwaitMembership {
            request: RoomRequest::Ice { room_name, candidate },
        }) && action == (Action::CheckMembership { room_name, user_id }),
        ClientMessage::PublishOffer { room_name, offer } => if !session.sfu_available {
            replies_error(next, action, "SFU not available"@)
        } else {
            next == (Stage::AwaitSfuJoin { room_name, offer }) && action == (
            Action::SfuAddParticipant { room_name, user_id, username: session.user.username })
        },
        ClientMessage::PublishIceCandidate { room_name, candidate } => if !session.sfu_available {
            replies_error(next, action, "SFU not available"@)
        } else {
            next == (Stage::AwaitSfuPublishIce { room_name, candidate }) && action == (
            Action::SfuPublishIce { room_name, user_id, candidate })
        },
        ClientMessage::SubscribeRequest { room_name, publisher_id } => if !session.sfu_available {
            replies_error(next, action, "SFU not available"@)
        } else {
            next == (Stage::AwaitSfuSubscribeOffer { room_name, publisher_id }) && action == (
            Action::SfuSubscribeRequest { room_name, user_id, publisher_id })
        },
        ClientMessage::SubscribeAnswer { room_name, publisher_id, answer } => if !session.sfu_available {
            replies_error(next, action, "SFU not available"@)
        } else {
            subscribe_answer_step(session, room_name, publisher_id, answer, answer_sdp_rejection(answer@), next, action)
        },
        ClientMessage::SubscribeIceCandidate { room_name, publisher_id, candidate } => if !session.sfu_available {
            replies_error(next, action, "SFU not available"@)
        } else {
            next == (Stage::AwaitSfuSubscribeIce { room_name, publisher_id, candidate }) && action == (
            Action::SfuSubscribeIce { room_name, user_id, publisher_id, candidate })
        },
    }
}

/// A subscriber's answer to the SFU, once the WebRTC stack judged its SDP
/// text (`rejection` is its error text, `None` when it accepted it).
pub open spec fn subscribe_answer_step(
    session: Session,
    room_name: String,
    publisher_id: u32,
    answer: String,
    rejection: Option<Seq<char>>,
    next: Stage,
    action: Action,
) -> bool {
    match rejection {
        Some(e) => fails(next, action, "Failed to parse answer SDP: "@ + e),
        None => next == Stage::AwaitSfuSubscribeAnswer && action == (Action::SfuSubscribeAnswer {
            room_name,
            user_id: session.user.user_id,
            publisher_id,
            answer: SessionDescription { kind: SdpKind::Answer, sdp: answer },
        }),
    }
}

/// An offer to the participant's publish transport, once the WebRTC stack
/// judged its SDP text.
pub open spec fn transport_offer_step(
    room_name: String,
    sdp: String,
    rejection: Option<Seq<char>>,
    next: Stage,
    action: Action,
) -> bool {
    match rejection {
        Some(e) => fails(next, action, "Failed to parse offer SDP: "@ + e),
        None => next == (Stage::AwaitTransportAnswer { room_name }) && action == (
        Action::PublishTransportAnswer { offer: SessionDescription { kind: SdpKind::Offer, sdp } }),
    }
}

/// An answer to the participant's subscribe transport, once the WebRTC stack
/// judged its SDP text.
pub open spec fn transport_answer_step(
    sdp: String,
    rejection: Option<Seq<char>>,
    next: Stage,
    action: Action,
) -> bool {
    match rejection {
        Some(e) => fails(next, action, "Failed to parse answer SDP: "@ + e),
        None => next == Stage::AwaitTransportSetAnswer && action == (
        Action::SubscribeTransportSetAnswer {
            answer: SessionDescription { kind: SdpKind::Answer, sdp },
        }),
    }
}

/// A publisher's offer to the SFU, once the WebRTC stack judged its SDP text.
pub open spec fn publish_offer_step(
    session: Session,
    room_name: String,
    offer: String,
    rejection: Option<Seq<char>>,
    next: Stage,
    action: Action,
) -> bool {
    match rejection {
        Some(e) => fails(next, action, "Failed to parse offer SDP: "@ + e),
        None => next == (Stage::AwaitSfuPublish { room_name }) && action == (Action::SfuPublishOffer {
            room_name,
            user_id: session.user.user_id,
            offer: SessionDescription { kind: SdpKind::Offer, sdp: offer },
        }),
    }
}

/// How an ICE candidate ends once every transport was tried: success when
/// one accepted it, else an error report.
pub open spec fn ice_outcome(added: bool, next: Stage, action: Action) -> bool {
    if added {
        succeeds(next, action)
    } else {
        replies_error(next, action, "Failed to add ICE candidate to any transport"@)
    }
}

/// A request served to members only, once the room manager looked up the
/// participant.
pub open spec fn lookup_step(request: RoomRequest, found: ParticipantLookup, next: Stage, action: Action) -> bool {
    match found {
        ParticipantLookup::RoomNotFound => replies_error(next, action, "Room not found"@),
        ParticipantLookup::ParticipantNotFound => replies_error(
            next,
            action,
            "Participant not found in room"@,
        ),
        ParticipantLookup::Found { has_publish, has_subscribe } => match request {
            RoomRequest::Offer { room_name, sdp } => if !has_publish {
                replies_error(next, action, "No publish transport for participant"@)
            } else {
                transport_offer_step(room_name, sdp, offer_sdp_rejection(sdp@), next, action)
            },
            RoomRequest::Answer { room_name, sdp } => if !has_subscribe {
                replies_error(next, action, "No subscribe transport for participant"@)
            } else {
                transport_answer_step(sdp, answer_sdp_rejection(sdp@), next, action)
            },
            RoomRequest::Ice { room_name, candidate } => if has_publish {
                next == (Stage::AwaitPublishIce { candidate, try_subscribe: has_subscribe })
                    && action == (Action::PublishTransportIce { candidate })
            } else if has_subscribe {
                next == (Stage::AwaitSubscribeIce { added: false }) && action == (
                Action::SubscribeTransportIce { candidate })
            } else {
                ice_outcome(false, next, action)
            },
        },
    }
}

/// The user ids of `ids` other than `publisher`, in their order.
pub open spec fn other_participants(ids: Seq<u32>, publisher: u32) -> Seq<u32>
    decreases ids.len(),
{
    if ids.len() == 0 {
        Seq::<u32>::empty()
    } else {
        let rest = other_participants(ids.drop_last(), publisher);
        if ids.last() == publisher {
            rest
        } else {
            rest.push(ids.last())
        }
    }
}

/// After a publisher's offer was answered, the room's other participants
/// (`others`) are told of the new publisher; with nobody else in the room
/// the handling is done.
pub open spec fn announce_step(
    session: Session,
    room_name: String,
    others: Seq<u32>,
    next: Stage,
    action: Action,
) -> bool {
    if others.len() == 0 {
        succeeds(next, action)
    } else {
        &&& next == Stage::Finishing
        &&& action matches Action::Broadcast { room_name: room, recipients, message }
        &&& room == room_name
        &&& recipients@ == others
        &&& message == (ServerMessage::NewPublisher {
            room_name,
            publisher_id: session.user.user_id,
            username: session.user.username,
        })
    }
}

/// One step of the handling of a request: from `stage`, on `event`, the
/// handling moves to `next` and asks for `action`.
pub open spec fn handler_step(session: Session, stage: Stage, event: Event, next: Stage, action: Action) -> bool {
    let user_id = session.user.user_id;
    match (stage, event) {
        (Stage::Start, Event::Received { message }) => match message {
            Err(e) => fails(next, action, "Invalid JSON: "@ + e@),
            Ok(m) => start_step(session, m, next, action),
        },
        (Stage::Finishing, Event::Sent { delivery: outcome }) => next == Stage::Finished && action == (
        Action::Finish { outcome }),
        (Stage::AwaitJoin { room_name }, Event::Joined { joined: outcome }) => match outcome {
            Ok(participants) => replies(
                next,
                action,
                ServerMessage::RoomJoined { room_name, user_id, participants },
            ),
            Err(e) => replies_error(next, action, "Failed to join room: "@ + e@),
        },
        (Stage::AwaitLeave { room_name }, Event::Completed { result: outcome }) => match outcome {
            Ok(()) => replies(next, action, ServerMessage::RoomLeft { room_name, user_id }),
            Err(e) => replies_error(next, action, "Failed to leave room: "@ + e@),
        },
        (Stage::AwaitMembership { request }, Event::Membership { in_room }) => if !in_room {
            replies_error(next, action, "You are not in this room"@)
        } else {
            next == (Stage::AwaitLookup { request }) && action == (Action::LookupParticipant {
                room_name: request.room(),
                user_id,
            })
        },
        (Stage::AwaitLookup { request }, Event::Lookup { found }) => lookup_step(
            request,
            found,
            next,
            action,
        ),
        (Stage::AwaitTransportAnswer { room_name }, Event::Described { sdp: outcome }) => match outcome {
            Ok(sdp) => replies(
                next,
                action,
                ServerMessage::Answer { room_name, from_user_id: user_id, sdp },
            ),
            Err(e) => fails(next, action, "SFU get_answer error: "@ + e@),
        },
        (Stage::AwaitTransportSetAnswer, Event::Completed { result: outcome }) => match outcome {
            Ok(()) => succeeds(next, action),
            Err(e) => fails(next, action, "SFU set_answer error: "@ + e@),
        },
        (Stage::AwaitPublishIce { candidate, try_subscribe }, Event::IceAdded { added }) => if try_subscribe {
            next == (Stage::AwaitSubscribeIce { added }) && action == (Action::SubscribeTransportIce {
                candidate,
            })
        } else {
            ice_outcome(added, next, action)
        },
        (Stage::AwaitSubscribeIce { added }, Event::IceAdded { added: again }) => ice_outcome(
            added || again,
            next,
            action,
        ),
        (Stage::AwaitSfuJoin { room_name, offer }, Event::Completed { result: outcome }) => match outcome {
            Err(e) => replies_error(next, action, "Failed to add participant: "@ + e@),
            Ok(()) => publish_offer_step(
                session,
                room_name,
                offer,
                offer_sdp_rejection(offer@),
                next,
                action,
            ),
        },
        (Stage::AwaitSfuPublish { room_name }, Event::Described { sdp: outcome }) => match outcome {
            Ok(answer) => next == (Stage::AwaitAnswerSent { room_name }) && action == (Action::Send {
                message: ServerMessage::PublishAnswer { room_name, answer },
            }),
            Err(e) => replies_error(next, action, "SFU publish offer error: "@ + e@),
        },
        (Stage::AwaitAnswerSent { room_name }, Event::Sent { delivery: outcome }) => match outcome {
            Ok(()) => next == (Stage::AwaitSfuParticipants { room_name }) && action == (
            Action::SfuRoomParticipants { room_name }),
            Err(e) => next == Stage::Finished && action == (Action::Finish { outcome: Err(e) }),
        },
        (Stage::AwaitSfuParticipants { room_name }, Event::Participants { listed }) => match listed {
            Ok(ids) => announce_step(
                session,
                room_name,
                other_participants(ids@, user_id),
                next,
                action,
            ),
            Err(_) => succeeds(next, action),
        },
        (Stage::AwaitSfuPublishIce { room_name, candidate }, Event::Completed { result: outcome }) => match outcome {
            Ok(()) => replies(next, action, ServerMessage::PublishIceCandidate { room_name, candidate }),
            Err(e) => replies_error(next, action, "SFU publish ICE candidate error: "@ + e@),
        },
        (Stage::AwaitSfuSubscribeOffer { room_name, publisher_id }, Event::Described { sdp: outcome }) => match outcome {
            Ok(offer) => replies(
                next,
                action,
                ServerMessage::SubscribeOffer { room_name, publisher_id, offer },
            ),
            Err(e) => replies_error(next, action, "SFU subscribe request error: "@ + e@),
        },
        (Stage::AwaitSfuSubscribeAnswer, Event::Completed { result: outcome }) => match outcome {
            Ok(()) => succeeds(next, action),
            Err(e) => replies_error(next, action, "SFU subscribe answer error: "@ + e@),
        },
        (
            Stage::AwaitSfuSubscribeIce { room_name, publisher_id, candidate },
            Event::Completed { result: outcome },
        ) => match outcome {
            Ok(()) => replies(
                next,
                action,
                ServerMessage::SubscribeIceCandidate { room_name, publisher_id, candidate },
            ),
            Err(e) => replies_error(next, action, "SFU subscribe ICE candidate error: "@ + e@),
        },
        _ => false,
    }
}


fn reply(message: ServerMessage) -> (step: (Stage, Action))
    ensures
        replies(step.0, step.1, message),
{
    (Stage::Finishing, Action::Send { message })
}

fn reply_error(text: &str) -> (step: (Stage, Action))
    ensures
        replies_error(step.0, step.1, text@),
{
    reply(ServerMessage::error(String::from_str(text)))
}

fn reply_error_with(prefix: &str, detail: &String) -> (step: (Stage, Action))
    ensures
        replies_error(step.0, step.1, prefix@ + detail@),
{
    reply(ServerMessage::error(String::from_str(prefix).concat(detail.as_str())))
}

fn fail_with(prefix: &str, detail: &String) -> (step: (Stage, Action))
    ensures
        fails(step.0, step.1, prefix@ + detail@),
{
    (Stage::Finished, Action::Finish { outcome: Err(String::from_str(prefix).concat(detail.as_str())) })
}

fn succeed() -> (step: (Stage, Action))
    ensures
        succeeds(step.0, step.1),
{
    (Stage::Finished, Action::Finish { outcome: Ok(()) })
}

fn conclude_ice(added: bool) -> (step: (Stage, Action))
    ensures
        ice_outcome(added, step.0, step.1),
{
    if added {
        succeed()
    } else {
        reply_error("Failed to add ICE candidate to any transport")
    }
}

/// Whether `stage` waits for an event of the kind of `event`.
pub fn expects_event(stage: &Stage, event: &Event) -> (expected: bool)
    ensures
        expected == expects(*stage, *event),
{
    match stage {
        Stage::Start => matches!(event, Event::Received { .. }),
        Stage::Finished => false,
        Stage::Finishing | Stage::AwaitAnswerSent { .. } => matches!(event, Event::Sent { .. }),
        Stage::AwaitJoin { .. } => matches!(event, Event::Joined { .. }),
        Stage::AwaitMembership { .. } => matches!(event, Event::Membership { .. }),
        Stage::AwaitLookup { .. } => matches!(event, Event::Lookup { .. }),
        Stage::AwaitTransportAnswer { .. } | Stage::AwaitSfuPublish { .. }
        | Stage::AwaitSfuSubscribeOffer { .. } => matches!(event, Event::Described { .. }),
        Stage::AwaitPublishIce { .. } | Stage::AwaitSubscribeIce { .. } => matches!(
            event,
            Event::IceAdded { .. }
        ),
        Stage::AwaitSfuParticipants { .. } => matches!(event, Event::Participants { .. }),
        _ => matches!(event, Event::Completed { .. }),
    }
}

/// Goes on with a subscriber's answer to the SFU, given the WebRTC stack's
/// judgement of its SDP text (`rejection`, `None` when it was accepted).
pub fn subscribe_answer_after_check(
    session: &Session,
    room_name: String,
    publisher_id: u32,
    answer: String,
    rejection: Option<String>,
) -> (step: (Stage, Action))
    ensures
        subscribe_answer_step(*session, room_name, publisher_id, answer, rejection.deep_view(), step.0, step.1),
{
    match rejection {
        Some(e) => fail_with("Failed to parse answer SDP: ", &e),
        None => (
            Stage::AwaitSfuSubscribeAnswer,
            Action::SfuSubscribeAnswer {
                room_name,
                user_id: session.user.user_id,
                publisher_id,
                answer: SessionDescription { kind: SdpKind::Answer, sdp: answer },
            },
        ),
    }
}

/// Goes on with an offer to the participant's publish transport, given the
/// WebRTC stack's judgement of its SDP text.
pub fn transport_offer_after_check(room_name: String, sdp: String, rejection: Option<String>) -> (step: (Stage, Action))
    ensures
        transport_offer_step(room_name, sdp, rejection.deep_view(), step.0, step.1),
{
    match rejection {
        Some(e) => fail_with("Failed to parse offer SDP: ", &e),
        None => (
            Stage::AwaitTransportAnswer { room_name },
            Action::PublishTransportAnswer { offer: SessionDescription { kind: SdpKind::Offer, sdp } },
        ),
    }
}

/// Goes on with an answer to the participant's subscribe transport, given
/// the WebRTC stack's judgement of its SDP text.
pub fn transport_answer_after_check(sdp: String, rejection: Option<String>) -> (step: (Stage, Action))
    ensures
        transport_answer_step(sdp, rejection.deep_view(), step.0, step.1),
{
    match rejection {
        Some(e) => fail_with("Failed to parse answer SDP: ", &e),
        None => (
            Stage::AwaitTransportSetAnswer,
            Action::SubscribeTransportSetAnswer {
                answer: SessionDescription { kind: SdpKind::Answer, sdp },
            },
        ),
    }
}

/// Goes on with a publisher's offer to the SFU, given the WebRTC stack's
/// judgement of its SDP text.
pub fn publish_offer_after_check(
    session: &Session,
    room_name: String,
    offer: String,
    rejection: Option<String>,
) -> (step: (Stage, Action))
    ensures
        publish_offer_step(*session, room_name, offer, rejection.deep_view(), step.0, step.1),
{
    match rejection {
        Some(e) => fail_with("Failed to parse offer SDP: ", &e),
        None => (
            Stage::AwaitSfuPublish { room_name: room_name.clone() },
            Action::SfuPublishOffer {
                room_name,
                user_id: session.user.user_id,
                offer: SessionDescription { kind: SdpKind::Offer, sdp: offer },
            },
        ),
    }
}

/// The user ids of `ids` other than `publisher`, in their order.
pub fn others_of(ids: &Vec<u32>, publisher: u32) -> (others: Vec<u32>)
    ensures
        others@ == other_participants(ids@, publisher),
{
    let mut others: Vec<u32> = Vec::new();
    let mut i: usize = 0;
    while i < ids.len()
        invariant
            i <= ids@.len(),
            others@ == other_participants(ids@.take(i as int), publisher),
        decreases ids@.len() - i,
    {
        assert(ids@.take(i + 1).drop_last() =~= ids@.take(i as int));
        if ids[i] != publisher {
            others.push(ids[i]);
        }
        i = i + 1;
    }
    assert(ids@.take(ids@.len() as int) =~= ids@);
    others
}

fn announce_publisher(session: &Session, room_name: String, recipients: Vec<u32>) -> (step: (Stage, Action))
    ensures
        announce_step(*session, room_name, recipients@, step.0, step.1),
{
    if recipients.len() == 0 {
        succeed()
    } else {
        let message = ServerMessage::NewPublisher {
            room_name: room_name.clone(),
            publisher_id: session.user.user_id,
            username: session.user.username.clone(),
        };
        (Stage::Finishing, Action::Broadcast { room_name, recipients, message })
    }
}

fn start(session: &Session, message: ClientMessage) -> (step: (Stage, Action))
    ensures
        start_step(*session, message, step.0, step.1),
{
    let user_id = session.user.user_id;
    match message {
        ClientMessage::Auth { .. } => reply_error("Authentication already completed"),
        ClientMessage::JoinRoom { room_name, .. } => (
            Stage::AwaitJoin { room_name: room_name.clone() },
            Action::JoinRoom { room_name, user_id },
        ),
        ClientMessage::LeaveRoom { room_name } => (
            Stage::AwaitLeave { room_name: room_name.clone() },
            Action::LeaveRoom { room_name, user_id },
        ),
        ClientMessage::Offer { room_name, sdp, .. } => (
            Stage::AwaitMembership {
                request: RoomRequest::Offer { room_name: room_name.clone(), sdp },
            },
            Action::CheckMembership { room_name, user_id },
        ),
        ClientMessage::Answer { room_name, sdp, .. } => (
            Stage::AwaitMembership {
                request: RoomRequest::Answer { room_name: room_name.clone(), sdp },
            },
            Action::CheckMembership { room_name, user_id },
        ),
        ClientMessage::IceCandidate { room_name, candidate, .. } => (
            Stage::AwaitMembership {
                request: RoomRequest::Ice { room_name: room_name.clone(), candidate },
            },
            Action::CheckMembership { room_name, user_id },
        ),
        ClientMessage::PublishOffer { room_name, offer } => {
            if !session.sfu_available {
                reply_error("SFU not available")
            } else {
                (
                    Stage::AwaitSfuJoin { room_name: room_name.clone(), offer },
                    Action::SfuAddParticipant {
                        room_name,
                        user_id,
                        username: session.user.username.clone(),
                    },
                )
            }
        },
        ClientMessage::PublishIceCandidate { room_name, candidate } => {
            if !session.sfu_available {
                reply_error("SFU not available")
            } else {
                (
                    Stage::AwaitSfuPublishIce {
                        room_name: room_name.clone(),
                        candidate: candidate.clone(),
                    },
                    Action::SfuPublishIce { room_name, user_id, candidate },
                )
            }
        },
        ClientMessage::SubscribeRequest { room_name, publisher_id } => {
            if !session.sfu_available {
                reply_error("SFU not available")
            } else {
                (
                    Stage::AwaitSfuSubscribeOffer { room_name: room_name.clone(), publisher_id },
                    Action::SfuSubscribeRequest { room_name, user_id, publisher_id },
                )
            }
        },
        ClientMessage::SubscribeAnswer { room_name, publisher_id, answer } => {
            if !session.sfu_available {
                reply_error("SFU not available")
            } else {
                let rejection = check_answer_sdp(&answer);
                subscribe_answer_after_check(session, room_name, publisher_id, answer, rejection)
            }
        },
        ClientMessage::SubscribeIceCandidate { room_name, publisher_id, candidate } => {
            if !session.sfu_available {
                reply_error("SFU not available")
            } else {
                (
                    Stage::AwaitSfuSubscribeIce {
                        room_name: room_name.clone(),
                        publisher_id,
                        candidate: candidate.clone(),
                    },
                    Action::SfuSubscribeIce { room_name, user_id, publisher_id, candidate },
                )
            }
        },
    }
}

fn after_lookup(request: RoomRequest, found: ParticipantLookup) -> (step: (Stage, Action))
    ensures
        lookup_step(request, found, step.0, step.1),
{
    match found {
        ParticipantLookup::RoomNotFound => reply_error("Room not found"),
        ParticipantLookup::ParticipantNotFound => reply_error("Participant not found in room"),
        ParticipantLookup::Found { has_publish, has_subscribe } => match request {
            RoomRequest::Offer { room_name, sdp } => {
                if !has_publish {
                    reply_error("No publish transport for participant")
                } else {
                    let rejection = check_offer_sdp(&sdp);
                    transport_offer_after_check(room_name, sdp, rejection)
                }
            },
            RoomRequest::Answer { room_name, sdp } => {
                if !has_subscribe {
                    reply_error("No subscribe transport for participant")
                } else {
                    let rejection = check_answer_sdp(&sdp);
                    transport_answer_after_check(sdp, rejection)
                }
            },
            RoomRequest::Ice { room_name, candidate } => {
                if has_publish {
                    (
                        Stage::AwaitPublishIce {
                            candidate: candidate.clone(),
                            try_subscribe: has_subscribe,
                        },
                        Action::PublishTransportIce { candidate },
                    )
                } else if has_subscribe {
                    (Stage::AwaitSubscribeIce { added: false }, Action::SubscribeTransportIce { candidate })
                } else {
                    conclude_ice(false)
                }
            },
        },
    }
}

fn room_of(request: &RoomRequest) -> (room_name: String)
    ensures
        room_name == request.room(),
{
    match request {
        RoomRequest::Offer { room_name, .. } => room_name.clone(),
        RoomRequest::Answer { room_name, .. } => room_name.clone(),
        RoomRequest::Ice { room_name, .. } => room_name.clone(),
    }
}

/// One step of the handling of a client request: from `stage`, on the
/// outcome `event` of the last piece of outside work, gives the next stage
/// and the next thing to do. The handling starts at `Stage::Start` with the
/// request and ends with `Action::Finish`, whose outcome is the request's.
pub fn handle_client_message(session: &Session, stage: Stage, event: Event) -> (step: (Stage, Action))
    requires
        expects(stage, event),
    ensures
        handler_step(*session, stage, event, step.0, step.1),
        steps_left(step.0) < steps_left(stage),
        (step.0 == Stage::Finished) == (step.1 is Finish),
{
    let user_id = session.user.user_id;
    match stage {
        Stage::Start => match event {
            Event::Received { message } => match message {
                Err(e) => fail_with("Invalid JSON: ", &e),
                Ok(m) => start(session, m),
            },
            _ => succeed(),
        },
        Stage::Finishing => match event {
            Event::Sent { delivery: outcome } => (Stage::Finished, Action::Finish { outcome }),
            _ => succeed(),
        },
        Stage::AwaitJoin { room_name } => match event {
            Event::Joined { joined: outcome } => match outcome {
                Ok(participants) => reply(ServerMessage::RoomJoined { room_name, user_id, participants }),
                Err(e) => reply_error_with("Failed to join room: ", &e),
            },
            _ => succeed(),
        },
        Stage::AwaitLeave { room_name } => match event {
            Event::Completed { result: outcome } => match outcome {
                Ok(()) => reply(ServerMessage::RoomLeft { room_name, user_id }),
                Err(e) => reply_error_with("Failed to leave room: ", &e),
            },
            _ => succeed(),
        },
        Stage::AwaitMembership { request } => match event {
            Event::Membership { in_room } => {
                if !in_room {
                    reply_error("You are not in this room")
                } else {
                    let room_name = room_of(&request);
                    (Stage::AwaitLookup { request }, Action::LookupParticipant { room_name, user_id })
                }
            },
            _ => succeed(),
        },
        Stage::AwaitLookup { request } => match event {
            Event::Lookup { found } => after_lookup(request, found),
            _ => succeed(),
        },
        Stage::AwaitTransportAnswer { room_name } => match event {
            Event::Described { sdp: outcome } => match outcome {
                Ok(sdp) => reply(ServerMessage::Answer { room_name, from_user_id: user_id, sdp }),
                Err(e) => fail_with("SFU get_answer error: ", &e),
            },
            _ => succeed(),
        },
        Stage::AwaitTransportSetAnswer => match event {
            Event::Completed { result: outcome } => match outcome {
                Ok(()) => succeed(),
                Err(e) => fail_with("SFU set_answer error: ", &e),
            },
            _ => succeed(),
        },
        Stage::AwaitPublishIce { candidate, try_subscribe } => match event {
            Event::IceAdded { added } => {
                if try_subscribe {
                    (Stage::AwaitSubscribeIce { added }, Action::SubscribeTransportIce { candidate })
                } else {
                    conclude_ice(added)
                }
            },
            _ => succeed(),
        },
        Stage::AwaitSubscribeIce { added } => match event {
            Event::IceAdded { added: again } => conclude_ice(added || again),
            _ => succeed(),
        },
        Stage::AwaitSfuJoin { room_name, offer } => match event {
            Event::Completed { result: outcome } => match outcome {
                Err(e) => reply_error_with("Failed to add participant: ", &e),
                Ok(()) => {
                    let rejection = check_offer_sdp(&offer);
                    publish_offer_after_check(session, room_name, offer, rejection)
                },
            },
            _ => succeed(),
        },
        Stage::AwaitSfuPublish { room_name } => match event {
            Event::Described { sdp: outcome } => match outcome {
                Ok(answer) => (
                    Stage::AwaitAnswerSent { room_name: room_name.clone() },
                    Action::Send { message: ServerMessage::PublishAnswer { room_name, answer } },
                ),
                Err(e) => reply_error_with("SFU publish offer error: ", &e),
            },
            _ => succeed(),
        },
        Stage::AwaitAnswerSent { room_name } => match event {
            Event::Sent { delivery: outcome } => match outcome {
                Ok(()) => (
                    Stage::AwaitSfuParticipants { room_name: room_name.clone() },
                    Action::SfuRoomParticipants { room_name },
                ),
                Err(e) => (Stage::Finished, Action::Finish { outcome: Err(e) }),
            },
            _ => succeed(),
        },
        Stage::AwaitSfuParticipants { room_name } => match event {
            Event::Participants { listed } => match listed {
                Ok(ids) => {
                    let recipients = others_of(&ids, user_id);
                    announce_publisher(session, room_name, recipients)
                },
                Err(_) => succeed(),
            },
            _ => succeed(),
        },
        Stage::AwaitSfuPublishIce { room_name, candidate } => match event {
            Event::Completed { result: outcome } => match outcome {
                Ok(()) => reply(ServerMessage::PublishIceCandidate { room_name, candidate }),
                Err(e) => reply_error_with("SFU publish ICE candidate error: ", &e),
            },
            _ => succeed(),
        },
        Stage::AwaitSfuSubscribeOffer { room_name, publisher_id } => match event {
            Event::Described { sdp: outcome } => match outcome {
                Ok(offer) => reply(ServerMessage::SubscribeOffer { room_name, publisher_id, offer }),
                Err(e) => reply_error_with("SFU subscribe request error: ", &e),
            },
            _ => succeed(),
        },
        Stage::AwaitSfuSubscribeAnswer => match event {
            Event::Completed { result: outcome } => match outcome {
                Ok(()) => succeed(),
                Err(e) => reply_error_with("SFU subscribe answer error: ", &e),
            },
            _ => succeed(),
        },
        Stage::AwaitSfuSubscribeIce { room_name, publisher_id, candidate } => match event {
            Event::Completed { result: outcome } => match outcome {
                Ok(()) => reply(ServerMessage::SubscribeIceCandidate { room_name, publisher_id, candidate }),
                Err(e) => reply_error_with("SFU subscribe ICE candidate error: ", &e),
            },
            _ => succeed(),
        },
        Stage::Finished => succeed(),
    }
}


/// The room named by a request that only members may make.
pub open spec fn member_request_room(message: ClientMessage) -> Option<String> {
    match message {
        ClientMessage::Offer { room_name, .. } => Some(room_name),
        ClientMessage::Answer { room_name, .. } => Some(room_name),
        ClientMessage::IceCandidate { room_name, .. } => Some(room_name),
        _ => None,
    }
}

/// Whether the request needs the SFU.
pub open spec fn needs_sfu(message: ClientMessage) -> bool {
    ||| message is PublishOffer
    ||| message is PublishIceCandidate
    ||| message is SubscribeRequest
    ||| message is SubscribeAnswer
    ||| message is SubscribeIceCandidate
}

/// An offer, answer or ICE candidate from a user who is not a member of the
/// room it names is answered with "You are not in this room" right after the
/// membership check, before any transport is asked.
pub proof fn lemma_non_member_refused(
    session: Session,
    message: ClientMessage,
    checked: Stage,
    check: Action,
    next: Stage,
    action: Action,
)
    requires
        member_request_room(message) is Some,
        handler_step(session, Stage::Start, Event::Received { message: Ok(message) }, checked, check),
        handler_step(session, checked, Event::Membership { in_room: false }, next, action),
    ensures
        check == (Action::CheckMembership {
            room_name: member_request_room(message)->0,
            user_id: session.user.user_id,
        }),
        replies_error(next, action, "You are not in this room"@),
{
}

/// Without an SFU, every request that needs one is answered at once with
/// "SFU not available".
pub proof fn lemma_sfu_unavailable_refused(session: Session, message: ClientMessage, next: Stage, action: Action)
    requires
        !session.sfu_available,
        needs_sfu(message),
        handler_step(session, Stage::Start, Event::Received { message: Ok(message) }, next, action),
    ensures
        replies_error(next, action, "SFU not available"@),
{
}

/// A request that is not JSON for a client message ends the handling at
/// once, in failure, with "Invalid JSON: " and the parser's error text.
pub proof fn lemma_unparsable_request_fails(session: Session, error: String, next: Stage, action: Action)
    requires
        handler_step(session, Stage::Start, Event::Received { message: Err(error) }, next, action),
    ensures
        fails(next, action, "Invalid JSON: "@ + error@),
{
}

/// A reply that was handed out and sent ends the handling in success; one
/// that could not be sent ends it with the sending error.
pub proof fn lemma_reply_outcome_is_send_outcome(
    session: Session,
    outcome: Result<(), String>,
    next: Stage,
    action: Action,
)
    requires
        handler_step(session, Stage::Finishing, Event::Sent { delivery: outcome }, next, action),
    ensures
        next == Stage::Finished,
        action == (Action::Finish { outcome }),
{
}

/// A user id is among `other_participants(ids, publisher)` exactly when it is
/// in `ids` and is not the publisher's.
pub proof fn lemma_other_participants_members(ids: Seq<u32>, publisher: u32, user_id: u32)
    ensures
        other_participants(ids, publisher).contains(user_id) <==> (ids.contains(user_id) && user_id
            != publisher),
    decreases ids.len(),
{
    if ids.len() > 0 {
        let init = ids.drop_last();
        lemma_other_participants_members(init, publisher, user_id);
        assert(ids =~= init.push(ids.last()));
        if ids.contains(user_id) && user_id != ids.last() {
            let i = choose|i: int| 0 <= i < ids.len() && ids[i] == user_id;
            assert(init[i] == user_id);
        }
        if init.contains(user_id) {
            let i = choose|i: int| 0 <= i < init.len() && init[i] == user_id;
            assert(ids[i] == user_id);
        }
        let rest = other_participants(init, publisher);
        if ids.last() != publisher {
            if rest.contains(user_id) {
                let i = choose|i: int| 0 <= i < rest.len() && rest[i] == user_id;
                assert(rest.push(ids.last())[i] == user_id);
            }
            if user_id == ids.last() {
                assert(rest.push(ids.last())[rest.len() as int] == user_id);
            }
            if rest.push(ids.last()).contains(user_id) && user_id != ids.last() {
                let i = choose|i: int| 0 <= i < rest.len() + 1 && rest.push(ids.last())[i] == user_id;
                assert(rest[i] == user_id);
            }
        }
    }
}

/// Once the SFU listed the participants of the room that a user now publishes
/// to, the new-publisher notice goes to exactly the listed participants other
/// than the publisher; the publisher is never told of itself.
pub proof fn lemma_new_publisher_reaches_others(
    session: Session,
    room_name: String,
    ids: Vec<u32>,
    next: Stage,
    action: Action,
)
    requires
        handler_step(
            session,
            Stage::AwaitSfuParticipants { room_name },
            Event::Participants { listed: Ok(ids) },
            next,
            action,
        ),
    ensures
        forall|user_id: u32|
            (action matches Action::Broadcast { recipients, .. } && recipients@.contains(user_id))
                <==> (ids@.contains(user_id) && user_id != session.user.user_id),
{
    let publisher = session.user.user_id;
    assert forall|user_id: u32|
        (action matches Action::Broadcast { recipients, .. } && recipients@.contains(user_id)) <==> (
        ids@.contains(user_id) && user_id != publisher) by {
        lemma_other_participants_members(ids@, publisher, user_id);
        let others = other_participants(ids@, publisher);
        if others.len() == 0 {
            assert(!others.contains(user_id));
        }
    }
}

/// The ICE candidate of a room member who holds both a publish and a
/// subscribe transport is offered to both, publish first, and the handling
/// succeeds, with no report, exactly when at least one of them accepted it;
/// when neither did, the member is told "Failed to add ICE candidate to any
/// transport".
pub proof fn lemma_ice_succeeds_when_any_transport_accepts(
    session: Session,
    room_name: String,
    candidate: String,
    sdp_mid: Option<String>,
    sdp_mline_index: Option<u16>,
    target_user_id: Option<u32>,
    publish_accepts: bool,
    subscribe_accepts: bool,
    s1: Stage,
    a1: Action,
    s2: Stage,
    a2: Action,
    s3: Stage,
    a3: Action,
    s4: Stage,
    a4: Action,
    s5: Stage,
    a5: Action,
)
    requires
        handler_step(
            session,
            Stage::Start,
            Event::Received {
                message: Ok(
                    ClientMessage::IceCandidate {
                        room_name,
                        candidate,
                        sdp_mid,
                        sdp_mline_index,
                        target_user_id,
                    },
                ),
            },
            s1,
            a1,
        ),
        handler_step(session, s1, Event::Membership { in_room: true }, s2, a2),
        handler_step(
            session,
            s2,
            Event::Lookup { found: ParticipantLookup::Found { has_publish: true, has_subscribe: true } },
            s3,
            a3,
        ),
        handler_step(session, s3, Event::IceAdded { added: publish_accepts }, s4, a4),
        handler_step(session, s4, Event::IceAdded { added: subscribe_accepts }, s5, a5),
    ensures
        a3 == (Action::PublishTransportIce { candidate }),
        a4 == (Action::SubscribeTransportIce { candidate }),
        (publish_accepts || subscribe_accepts) ==> s5 == Stage::Finished && a5 == (Action::Finish {
            outcome: Ok(()),
        }),
        !(publish_accepts || subscribe_accepts) ==> {
            &&& s5 == Stage::Finishing
            &&& a5 matches Action::Send { message: ServerMessage::Error { message } }
            &&& message@ == "Failed to add ICE candidate to any transport"@
        },
{
}

/// The ICE candidate of a room member with a single transport is offered to
/// that transport alone, and the handling succeeds exactly when it accepted
/// the candidate.
pub proof fn lemma_ice_with_one_transport(
    session: Session,
    request: RoomRequest,
    has_publish: bool,
    accepted: bool,
    s3: Stage,
    a3: Action,
    s4: Stage,
    a4: Action,
)
    requires
        request is Ice,
        handler_step(
            session,
            Stage::AwaitLookup { request },
            Event::Lookup { found: ParticipantLookup::Found { has_publish, has_subscribe: !has_publish } },
            s3,
            a3,
        ),
        handler_step(session, s3, Event::IceAdded { added: accepted }, s4, a4),
    ensures
        has_publish ==> a3 == (Action::PublishTransportIce { candidate: request->Ice_candidate }),
        !has_publish ==> a3 == (Action::SubscribeTransportIce { candidate: request->Ice_candidate }),
        accepted ==> s4 == Stage::Finished && a4 == (Action::Finish { outcome: Ok(()) }),
        !accepted ==> {
            &&& s4 == Stage::Finishing
            &&& a4 matches Action::Send { message: ServerMessage::Error { message } }
            &&& message@ == "Failed to add ICE candidate to any transport"@
        },
{
}

/// A member's answer is refused with "No subscribe transport for
/// participant" exactly when the member holds no subscribe transport,
/// whatever its publish transport; with one, an answer whose SDP the WebRTC
/// stack accepts is handed to the subscribe transport.
pub proof fn lemma_answer_needs_subscribe_transport(
    session: Session,
    room_name: String,
    sdp: String,
    has_publish: bool,
    has_subscribe: bool,
    next: Stage,
    action: Action,
)
    requires
        handler_step(
            session,
            Stage::AwaitLookup { request: RoomRequest::Answer { room_name, sdp } },
            Event::Lookup { found: ParticipantLookup::Found { has_publish, has_subscribe } },
            next,
            action,
        ),
    ensures
        (action matches Action::Send { message: ServerMessage::Error { message } } && message@
            == "No subscribe transport for participant"@) <==> !has_subscribe,
        !has_subscribe ==> next == Stage::Finishing,
        has_subscribe && answer_sdp_rejection(sdp@) is None ==> next == Stage::AwaitTransportSetAnswer
            && action == (Action::SubscribeTransportSetAnswer {
            answer: SessionDescription { kind: SdpKind::Answer, sdp },
        }),
        has_subscribe && answer_sdp_rejection(sdp@) is Some ==> next == Stage::Finished
            && action is Finish,
{
}

/// A member's offer is refused with "No publish transport for participant"
/// exactly when the member holds no publish transport, whatever its
/// subscribe transport; with one, an offer whose SDP the WebRTC stack
/// accepts is handed to the publish transport.
pub proof fn lemma_offer_needs_publish_transport(
    session: Session,
    room_name: String,
    sdp: String,
    has_publish: bool,
    has_subscribe: bool,
    next: Stage,
    action: Action,
)
    requires
        handler_step(
            session,
            Stage::AwaitLookup { request: RoomRequest::Offer { room_name, sdp } },
            Event::Lookup { found: ParticipantLookup::Found { has_publish, has_subscribe } },
            next,
            action,
        ),
    ensures
        (action matches Action::Send { message: ServerMessage::Error { message } } && message@
            == "No publish transport for participant"@) <==> !has_publish,
        !has_publish ==> next == Stage::Finishing,
        has_publish && offer_sdp_rejection(sdp@) is None ==> next == (Stage::AwaitTransportAnswer {
            room_name,
        }) && action == (Action::PublishTransportAnswer {
            offer: SessionDescription { kind: SdpKind::Offer, sdp },
        }),
        has_publish && offer_sdp_rejection(sdp@) is Some ==> next == Stage::Finished
            && action is Finish,
{
}

/// Joining and leaving a room go to the room manager for the session's user
/// and the named room, whether or not the server has an SFU.
pub proof fn lemma_join_and_leave_ignore_sfu(
    session: Session,
    message: ClientMessage,
    next: Stage,
    action: Action,
)
    requires
        message is JoinRoom || message is LeaveRoom,
        handler_step(session, Stage::Start, Event::Received { message: Ok(message) }, next, action),
    ensures
        message matches ClientMessage::JoinRoom { room_name, .. } ==> next == (Stage::AwaitJoin {
            room_name,
        }) && action == (Action::JoinRoom { room_name, user_id: session.user.user_id }),
        message matches ClientMessage::LeaveRoom { room_name } ==> next == (Stage::AwaitLeave {
            room_name,
        }) && action == (Action::LeaveRoom { room_name, user_id: session.user.user_id }),
{
}

/// A joined room is confirmed with the room's name, the user's id and the
/// participants the room manager reported; a refused join is reported with
/// the room manager's reason.
pub proof fn lemma_join_reply(
    session: Session,
    room_name: String,
    joined: Result<Vec<ParticipantInfo>, String>,
    next: Stage,
    action: Action,
)
    requires
        handler_step(session, Stage::AwaitJoin { room_name }, Event::Joined { joined }, next, action),
    ensures
        next == Stage::Finishing,
        joined matches Ok(participants) ==> action == (Action::Send {
            message: ServerMessage::RoomJoined { room_name, user_id: session.user.user_id, participants },
        }),
        joined matches Err(e) ==> (action matches Action::Send {
            message: ServerMessage::Error { message },
        } && message@ == "Failed to join room: "@ + e@),
{
}

/// Offers, answers and ICE candidates start with the membership check for
/// the session's user in the named room, whether or not the server has an
/// SFU; only the five SFU requests depend on the SFU being there.
pub proof fn lemma_member_requests_ignore_sfu(
    session: Session,
    message: ClientMessage,
    next: Stage,
    action: Action,
)
    requires
        member_request_room(message) is Some,
        handler_step(session, Stage::Start, Event::Received { message: Ok(message) }, next, action),
    ensures
        action == (Action::CheckMembership {
            room_name: member_request_room(message)->0,
            user_id: session.user.user_id,
        }),
        next is AwaitMembership,
{
}

/// `action` sends the requester an error report whose text is `text`, after
/// which only the delivery outcome is awaited.
pub open spec fn reports_error(next: Stage, action: Action, text: Seq<char>) -> bool {
    &&& next == Stage::Finishing
    &&& action matches Action::Send { message: ServerMessage::Error { message } }
    &&& message@ == text
}

/// `action` ends the handling in failure with the error text `text`.
pub open spec fn ends_in_error(next: Stage, action: Action, text: Seq<char>) -> bool {
    &&& next == Stage::Finished
    &&& action matches Action::Finish { outcome: Err(e) }
    &&& e@ == text
}

/// A second authentication on an authenticated connection is refused with
/// "Authentication already completed".
pub proof fn lemma_second_auth_refused(session: Session, token: String, next: Stage, action: Action)
    requires
        handler_step(
            session,
            Stage::Start,
            Event::Received { message: Ok(ClientMessage::Auth { token }) },
            next,
            action,
        ),
    ensures
        reports_error(next, action, "Authentication already completed"@),
{
}

/// Leaving a room is confirmed with the room and the user's id when the room
/// manager agreed, and reported with its reason when it refused.
pub proof fn lemma_leave_reply(
    session: Session,
    room_name: String,
    result: Result<(), String>,
    next: Stage,
    action: Action,
)
    requires
        handler_step(session, Stage::AwaitLeave { room_name }, Event::Completed { result }, next, action),
    ensures
        result is Ok ==> next == Stage::Finishing && action == (Action::Send {
            message: ServerMessage::RoomLeft { room_name, user_id: session.user.user_id },
        }),
        result matches Err(e) ==> reports_error(next, action, "Failed to leave room: "@ + e@),
{
}

/// A member's request goes on with the lookup of the member in the request's
/// room; an unknown room or participant is reported as such.
pub proof fn lemma_member_lookup(
    session: Session,
    request: RoomRequest,
    found: ParticipantLookup,
    n1: Stage,
    a1: Action,
    n2: Stage,
    a2: Action,
)
    requires
        handler_step(session, Stage::AwaitMembership { request }, Event::Membership { in_room: true }, n1, a1),
        handler_step(session, n1, Event::Lookup { found }, n2, a2),
    ensures
        n1 == (Stage::AwaitLookup { request }),
        a1 == (Action::LookupParticipant {
            room_name: match request {
                RoomRequest::Offer { room_name, .. } => room_name,
                RoomRequest::Answer { room_name, .. } => room_name,
                RoomRequest::Ice { room_name, .. } => room_name,
            },
            user_id: session.user.user_id,
        }),
        found is RoomNotFound ==> reports_error(n2, a2, "Room not found"@),
        found is ParticipantNotFound ==> reports_error(n2, a2, "Participant not found in room"@),
{
}

/// An offer or answer whose SDP text the WebRTC stack refuses ends the
/// handling with the parse error, after the transport was found.
pub proof fn lemma_transport_sdp_refused(
    session: Session,
    request: RoomRequest,
    next: Stage,
    action: Action,
)
    requires
        handler_step(
            session,
            Stage::AwaitLookup { request },
            Event::Lookup { found: ParticipantLookup::Found { has_publish: true, has_subscribe: true } },
            next,
            action,
        ),
    ensures
        request matches RoomRequest::Offer { sdp, .. } ==> (offer_sdp_rejection(sdp@) matches Some(e)
            ==> ends_in_error(next, action, "Failed to parse offer SDP: "@ + e)),
        request matches RoomRequest::Answer { sdp, .. } ==> (answer_sdp_rejection(sdp@) matches Some(
            e,
        ) ==> ends_in_error(next, action, "Failed to parse answer SDP: "@ + e)),
{
}

/// The publish transport's answer is sent back to the member as an `answer`
/// from the member itself; a transport failure ends the handling with it.
pub proof fn lemma_transport_answer_reply(
    session: Session,
    room_name: String,
    sdp: Result<String, String>,
    next: Stage,
    action: Action,
)
    requires
        handler_step(session, Stage::AwaitTransportAnswer { room_name }, Event::Described { sdp }, next, action),
    ensures
        sdp matches Ok(answer) ==> next == Stage::Finishing && action == (Action::Send {
            message: ServerMessage::Answer { room_name, from_user_id: session.user.user_id, sdp: answer },
        }),
        sdp matches Err(e) ==> ends_in_error(next, action, "SFU get_answer error: "@ + e@),
{
}

/// Setting an answer on the subscribe transport ends the handling, in
/// success when the transport took it and with its error otherwise.
pub proof fn lemma_set_answer_outcome(
    session: Session,
    result: Result<(), String>,
    next: Stage,
    action: Action,
)
    requires
        handler_step(session, Stage::AwaitTransportSetAnswer, Event::Completed { result }, next, action),
    ensures
        result is Ok ==> next == Stage::Finished && action == (Action::Finish { outcome: Ok(()) }),
        result matches Err(e) ==> ends_in_error(next, action, "SFU set_answer error: "@ + e@),
{
}

/// With an SFU, each SFU request is handed to the SFU for the session's user
/// with the request's own room, ids and texts.
pub proof fn lemma_sfu_requests_reach_sfu(session: Session, message: ClientMessage, next: Stage, action: Action)
    requires
        session.sfu_available,
        handler_step(session, Stage::Start, Event::Received { message: Ok(message) }, next, action),
    ensures
        message matches ClientMessage::PublishOffer { room_name, offer } ==> next == (
        Stage::AwaitSfuJoin { room_name, offer }) && action == (Action::SfuAddParticipant {
            room_name,
            user_id: session.user.user_id,
            username: session.user.username,
        }),
        message matches ClientMessage::PublishIceCandidate { room_name, candidate } ==> action == (
        Action::SfuPublishIce { room_name, user_id: session.user.user_id, candidate }),
        message matches ClientMessage::SubscribeRequest { room_name, publisher_id } ==> action == (
        Action::SfuSubscribeRequest { room_name, user_id: session.user.user_id, publisher_id }),
        message matches ClientMessage::SubscribeIceCandidate { room_name, publisher_id, candidate }
            ==> action == (Action::SfuSubscribeIce {
            room_name,
            user_id: session.user.user_id,
            publisher_id,
            candidate,
        }),
        message matches ClientMessage::SubscribeAnswer { room_name, publisher_id, answer } ==> {
            &&& answer_sdp_rejection(answer@) is None ==> action == (Action::SfuSubscribeAnswer {
                room_name,
                user_id: session.user.user_id,
                publisher_id,
                answer: SessionDescription { kind: SdpKind::Answer, sdp: answer },
            })
            &&& answer_sdp_rejection(answer@) matches Some(e) ==> ends_in_error(
                next,
                action,
                "Failed to parse answer SDP: "@ + e,
            )
        },
{
}

/// A publisher's offer: once the SFU took the participant, an offer whose
/// SDP the WebRTC stack accepts goes to the SFU, its answer is sent back as a
/// publish answer, and once that is sent the room's participants are asked
/// for; each failure on the way is reported or ends the handling.
pub proof fn lemma_publish_offer_flow(
    session: Session,
    room_name: String,
    offer: String,
    result: Result<(), String>,
    sdp: Result<String, String>,
    delivery: Result<(), String>,
    n1: Stage,
    a1: Action,
    n2: Stage,
    a2: Action,
    n3: Stage,
    a3: Action,
)
    requires
        handler_step(session, Stage::AwaitSfuJoin { room_name, offer }, Event::Completed { result }, n1, a1),
        handler_step(session, Stage::AwaitSfuPublish { room_name }, Event::Described { sdp }, n2, a2),
        handler_step(session, Stage::AwaitAnswerSent { room_name }, Event::Sent { delivery }, n3, a3),
    ensures
        result matches Err(e) ==> reports_error(n1, a1, "Failed to add participant: "@ + e@),
        result is Ok && offer_sdp_rejection(offer@) is None ==> n1 == (Stage::AwaitSfuPublish {
            room_name,
        }) && a1 == (Action::SfuPublishOffer {
            room_name,
            user_id: session.user.user_id,
            offer: SessionDescription { kind: SdpKind::Offer, sdp: offer },
        }),
        result is Ok ==> (offer_sdp_rejection(offer@) matches Some(e) ==> ends_in_error(
            n1,
            a1,
            "Failed to parse offer SDP: "@ + e,
        )),
        sdp matches Ok(answer) ==> n2 == (Stage::AwaitAnswerSent { room_name }) && a2 == (
        Action::Send { message: ServerMessage::PublishAnswer { room_name, answer } }),
        sdp matches Err(e) ==> reports_error(n2, a2, "SFU publish offer error: "@ + e@),
        delivery is Ok ==> n3 == (Stage::AwaitSfuParticipants { room_name }) && a3 == (
        Action::SfuRoomParticipants { room_name }),
        delivery matches Err(e) ==> n3 == Stage::Finished && a3 == (Action::Finish {
            outcome: Err(e),
        }),
{
}

/// The SFU's answers to ICE candidates and subscriptions are passed on to the
/// requester, and its failures reported with the matching text.
pub proof fn lemma_sfu_replies(
    session: Session,
    room_name: String,
    publisher_id: u32,
    candidate: String,
    result: Result<(), String>,
    sdp: Result<String, String>,
    n1: Stage,
    a1: Action,
    n2: Stage,
    a2: Action,
    n3: Stage,
    a3: Action,
    n4: Stage,
    a4: Action,
)
    requires
        handler_step(session, Stage::AwaitSfuPublishIce { room_name, candidate }, Event::Completed { result }, n1, a1),
        handler_step(session, Stage::AwaitSfuSubscribeOffer { room_name, publisher_id }, Event::Described { sdp }, n2, a2),
        handler_step(session, Stage::AwaitSfuSubscribeAnswer, Event::Completed { result }, n3, a3),
        handler_step(
            session,
            Stage::AwaitSfuSubscribeIce { room_name, publisher_id, candidate },
            Event::Completed { result },
            n4,
            a4,
        ),
    ensures
        result is Ok ==> n1 == Stage::Finishing && a1 == (Action::Send {
            message: ServerMessage::PublishIceCandidate { room_name, candidate },
        }),
        result matches Err(e) ==> reports_error(n1, a1, "SFU publish ICE candidate error: "@ + e@),
        sdp matches Ok(offer) ==> n2 == Stage::Finishing && a2 == (Action::Send {
            message: ServerMessage::SubscribeOffer { room_name, publisher_id, offer },
        }),
        sdp matches Err(e) ==> reports_error(n2, a2, "SFU subscribe request error: "@ + e@),
        result is Ok ==> n3 == Stage::Finished && a3 == (Action::Finish { outcome: Ok(()) }),
        result matches Err(e) ==> reports_error(n3, a3, "SFU subscribe answer error: "@ + e@),
        result is Ok ==> n4 == Stage::Finishing && a4 == (Action::Send {
            message: ServerMessage::SubscribeIceCandidate { room_name, publisher_id, candidate },
        }),
        result matches Err(e) ==> reports_error(n4, a4, "SFU subscribe ICE candidate error: "@ + e@),
{
}

} // verus!
