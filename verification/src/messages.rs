//! The messages that clients and the server exchange over the signaling socket.

use vstd::prelude::*;

verus! {

/// A user whose token was accepted.
#[derive(Clone, Debug, PartialEq, Eq)]
pub struct AuthenticatedUser {
    pub user_id: u32,
    pub username: String,
}

/// One participant already present in a room that a user joins.
#[derive(Clone, Debug, PartialEq, Eq)]
pub struct ParticipantInfo {
    pub user_id: u32,
    pub username: String,
}

/// A request from a client.
#[derive(Clone, Debug, PartialEq, Eq)]
pub enum ClientMessage {
    Auth { token: String },
    JoinRoom { room_name: String, password: Option<String> },
    LeaveRoom { room_name: String },
    Offer { room_name: String, sdp: String, target_user_id: Option<u32> },
    Answer { room_name: String, sdp: String, target_user_id: Option<u32> },
    IceCandidate {
        room_name: String,
        candidate: String,
        sdp_mid: Option<String>,
        sdp_mline_index: Option<u16>,
        target_user_id: Option<u32>,
    },
    PublishOffer { room_name: String, offer: String },
    PublishIceCandidate { room_name: String, candidate: String },
    SubscribeRequest { room_name: String, publisher_id: u32 },
    SubscribeAnswer { room_name: String, publisher_id: u32, answer: String },
    SubscribeIceCandidate { room_name: String, publisher_id: u32, candidate: String },
}

/// A message from the server to a client.
#[derive(Clone, Debug, PartialEq, Eq)]
pub enum ServerMessage {
    Authenticated { user_id: u32, username: String },
    RoomJoined { room_name: String, user_id: u32, participants: Vec<ParticipantInfo> },
    RoomLeft { room_name: String, user_id: u32 },
    Answer { room_name: String, from_user_id: u32, sdp: String },
    PublishAnswer { room_name: String, answer: String },
    NewPublisher { room_name: String, publisher_id: u32, username: String },
    PublisherLeft { room_name: String, publisher_id: u32 },
    PublishIceCandidate { room_name: String, candidate: String },
    SubscribeOffer { room_name: String, publisher_id: u32, offer: String },
    SubscribeIceCandidate { room_name: String, publisher_id: u32, candidate: String },
    Error { message: String },
}

/// `message` is an error report whose text is `text`.
pub open spec fn is_error_with(message: ServerMessage, text: Seq<char>) -> bool {
    message matches ServerMessage::Error { message: m } && m@ == text
}

impl ServerMessage {
    /// An error report with the given text.
    pub fn error(message: String) -> (reply: Self)
        ensures
            reply == (ServerMessage::Error { message }),
    {
        ServerMessage::Error { message }
    }
}

} // verus!
