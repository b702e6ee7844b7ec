//! Decisions of a signaling connection around the request handler: the
//! authentication handshake on the first frame, what each later frame leads
//! to, and the reports sent when something fails.

use vstd::prelude::*;
use vstd::string::StringExecFns;
use crate::messages::{AuthenticatedUser, ClientMessage, ServerMessage, is_error_with};
use crate::sfu::{RheomeshSfu, name_removed, rooms_after_remove};

verus! {

/// A frame read from the client's socket, as the connection sees it.
#[derive(Debug, PartialEq, Eq)]
pub enum InboundFrame {
    /// A text frame, with what its text parses to as a client message (or
    /// the parser's error text).
    Text { text: String, message: Result<ClientMessage, String> },
    /// The client closed the socket.
    Close,
    /// A binary, ping or pong frame.
    Other,
    /// Reading from the socket failed with this error text.
    Failed { error: String },
}

/// What the authentication handshake concludes from the first frame.
#[derive(Clone, Debug, PartialEq, Eq)]
pub enum AuthStep {
    /// The token that the validator is to check.
    Validate { token: String },
    /// The handshake fails for this reason.
    Reject { reason: String },
}

/// `step` is a rejection whose reason reads `text`.
pub open spec fn rejects_with(step: AuthStep, text: Seq<char>) -> bool {
    step matches AuthStep::Reject { reason } && reason@ == text
}

/// `step` asks the validator to check a token whose text is `token`.
pub open spec fn validates(step: AuthStep, token: Seq<char>) -> bool {
    step matches AuthStep::Validate { token: t } && t@ == token
}

/// The value of the string field `key` of the JSON text `text`: `None` when
/// `text` is not JSON, `Some(None)` when it has no string under `key`.
pub uninterp spec fn json_string_field(text: Seq<char>, key: Seq<char>) -> Option<Option<Seq<char>>>;

/// Calls `serde_json::from_str::<serde_json::Value>` on `text` and reads the
/// string under `key` (`Value::get`, then `Value::as_str`); the claim is that
/// the outcome is the one named by `json_string_field` for `text` and `key`,
/// a function of the two texts alone.
#[verifier::external_body]
fn string_field_of_json(text: &str, key: &str) -> (field: Option<Option<String>>)
    ensures
        field.deep_view() == json_string_field(text@, key@),
{
    match serde_json::from_str::<serde_json::Value>(text) {
        Ok(value) => Some(value.get(key).and_then(serde_json::Value::as_str).map(str::to_string)),
        Err(_) => None,
    }
}

/// What the handshake concludes from the string field `token` of a first
/// frame that is JSON but no client message.
pub open spec fn token_field_step(field: Option<Option<Seq<char>>>, step: AuthStep) -> bool {
    match field {
        None => rejects_with(step, "Invalid JSON format in authentication message"@),
        Some(None) => rejects_with(step, "No 'token' field found in authentication message"@),
        Some(Some(token)) => validates(step, token),
    }
}

/// Concludes the handshake from the string field `token` of a first frame
/// that did not parse as a client message.
pub fn authenticate_with_token_field(field: Option<Option<String>>) -> (step: AuthStep)
    ensures
        token_field_step(field.deep_view(), step),
{
    match field {
        None => AuthStep::Reject {
            reason: String::from_str("Invalid JSON format in authentication message"),
        },
        Some(None) => AuthStep::Reject {
            reason: String::from_str("No 'token' field found in authentication message"),
        },
        Some(Some(token)) => AuthStep::Validate { token },
    }
}

/// What the handshake concludes from the first frame of a connection.
pub open spec fn first_frame_step(first: Option<InboundFrame>, step: AuthStep) -> bool {
    match first {
        None => rejects_with(step, "No authentication message received"@),
        Some(InboundFrame::Close) => rejects_with(step, "Connection closed during authentication"@),
        Some(InboundFrame::Other) => rejects_with(step, "Invalid authentication message format"@),
        Some(InboundFrame::Failed { error }) => rejects_with(
            step,
            "WebSocket error during authentication: "@ + error@,
        ),
        Some(InboundFrame::Text { text, message }) => match message {
            Ok(ClientMessage::Auth { token }) => step == (AuthStep::Validate { token }),
            Ok(_) => rejects_with(step, "Expected Auth message, got other message type"@),
            Err(_) => token_field_step(json_string_field(text@, "token"@), step),
        },
    }
}

/// The authentication handshake: the first frame must carry a token, in an
/// `auth` message or, failing that, in the field `token` of any JSON object.
pub fn authenticate_connection(first: Option<InboundFrame>) -> (step: AuthStep)
    ensures
        first_frame_step(first, step),
{
    match first {
        None => AuthStep::Reject { reason: String::from_str("No authentication message received") },
        Some(InboundFrame::Close) => AuthStep::Reject {
            reason: String::from_str("Connection closed during authentication"),
        },
        Some(InboundFrame::Other) => AuthStep::Reject {
            reason: String::from_str("Invalid authentication message format"),
        },
        Some(InboundFrame::Failed { error }) => AuthStep::Reject {
            reason: String::from_str("WebSocket error during authentication: ").concat(
                error.as_str(),
            ),
        },
        Some(InboundFrame::Text { text, message }) => match message {
            Ok(ClientMessage::Auth { token }) => AuthStep::Validate { token },
            Ok(_) => AuthStep::Reject {
                reason: String::from_str("Expected Auth message, got other message type"),
            },
            Err(_) => {
                let field = string_field_of_json(text.as_str(), "token");
                authenticate_with_token_field(field)
            },
        },
    }
}

/// The first message the server sends on a connection: the confirmation for
/// an accepted user, or the report of why authentication failed.
pub fn authentication_reply(outcome: Result<AuthenticatedUser, String>) -> (reply: ServerMessage)
    ensures
        match outcome {
            Ok(user) => reply == (ServerMessage::Authenticated {
                user_id: user.user_id,
                username: user.username,
            }),
            Err(e) => is_error_with(reply, "Authentication failed: "@ + e@),
        },
{
    match outcome {
        Ok(user) => ServerMessage::Authenticated { user_id: user.user_id, username: user.username },
        Err(e) => ServerMessage::error(String::from_str("Authentication failed: ").concat(e.as_str())),
    }
}

/// What an authenticated connection does with the next frame.
#[derive(Debug, PartialEq, Eq)]
pub enum FrameStep {
    /// Hand the parsed request (or its parse error) to the request handler.
    Dispatch { message: Result<ClientMessage, String> },
    /// Skip the frame.
    Ignore,
    /// Stop reading and clean the user up from its rooms.
    Stop,
}

/// Decides what an authenticated connection does with the next frame; `None`
/// means the stream ended.
pub fn next_frame_step(frame: Option<InboundFrame>) -> (step: FrameStep)
    ensures
        match frame {
            Some(InboundFrame::Text { text, message }) => step == (FrameStep::Dispatch { message }),
            Some(InboundFrame::Other) => step == FrameStep::Ignore,
            _ => step == FrameStep::Stop,
        },
{
    match frame {
        Some(InboundFrame::Text { text, message }) => FrameStep::Dispatch { message },
        Some(InboundFrame::Other) => FrameStep::Ignore,
        _ => FrameStep::Stop,
    }
}

/// The report sent to the client when handling one of its requests failed.
pub fn handling_failure_reply(error: String) -> (reply: ServerMessage)
    ensures
        is_error_with(reply, "Message handling error: "@ + error@),
{
    ServerMessage::error(String::from_str("Message handling error: ").concat(error.as_str()))
}


/// When the connection of a publisher closes: removes it from the SFU room
/// `room_id` and, when it was there and others remain, gives the remaining
/// participants and the "publisher left" notice to send them.
pub fn publisher_departure(sfu: &mut RheomeshSfu, room_id: &str, user_id: u32) -> (notice: Option<(Vec<u32>, ServerMessage)>)
    ensures
        final(sfu)@ == rooms_after_remove(old(sfu)@, room_id@, user_id),
        final(sfu).well_formed(),
        notice is Some <==> (name_removed(old(sfu)@, room_id@, user_id) is Some && final(sfu)@.contains_key(
            room_id@,
        )),
        notice matches Some((recipients, message)) ==> {
            &&& recipients@.to_set() == final(sfu)@[room_id@].dom()
            &&& recipients@.no_duplicates()
            &&& !recipients@.contains(user_id)
            &&& message matches ServerMessage::PublisherLeft { room_name, publisher_id }
            &&& room_name@ == room_id@
            &&& publisher_id == user_id
        },
{
    let name = sfu.remove_participant(room_id, user_id);
    match name {
        None => None,
        Some(_) => match sfu.participant_ids(room_id) {
            None => None,
            Some(ids) => {
                proof {
                    assert(!ids@.to_set().contains(user_id));
                }
                Some((ids, ServerMessage::PublisherLeft { room_name: String::from_str(room_id), publisher_id: user_id }))
            },
        },
    }
}

/// The character of the decimal digit `d`.
pub open spec fn digit_char(d: nat) -> char {
    (d + 48) as char
}

/// The decimal numeral of `n`, without leading zeros.
pub open spec fn decimal(n: nat) -> Seq<char>
    decreases n,
{
    if n < 10 {
        seq![digit_char(n)]
    } else {
        decimal(n / 10).push(digit_char(n % 10))
    }
}

fn digit_text(d: u16) -> (text: &'static str)
    requires
        d < 10,
    ensures
        text@ == seq![digit_char(d as nat)],
{
    proof {
        reveal_strlit("0");
        reveal_strlit("1");
        reveal_strlit("2");
        reveal_strlit("3");
        reveal_strlit("4");
        reveal_strlit("5");
        reveal_strlit("6");
        reveal_strlit("7");
        reveal_strlit("8");
        reveal_strlit("9");
    }
    match d {
        0 => "0",
        1 => "1",
        2 => "2",
        3 => "3",
        4 => "4",
        5 => "5",
        6 => "6",
        7 => "7",
        8 => "8",
        _ => "9",
    }
}

fn append_decimal(text: &mut String, n: u16)
    ensures
        final(text)@ == old(text)@ + decimal(n as nat),
    decreases n,
{
    if n >= 10 {
        append_decimal(text, n / 10);
    }
    text.append(digit_text(n % 10));
    assert(decimal(n as nat) == if n < 10 { seq![digit_char(n as nat)] } else {
        decimal((n / 10) as nat).push(digit_char((n % 10) as nat))
    });
}

/// The address the server listens on: the host, a colon and the port in
/// decimal.
pub fn listen_address(host: &str, port: u16) -> (address: String)
    ensures
        address@ == host@ + ":"@ + decimal(port as nat),
{
    let mut address = String::from_str(host);
    address.append(":");
    append_decimal(&mut address, port);
    assert(address@ =~= host@ + ":"@ + decimal(port as nat));
    address
}

/// The handshake asks for a token to be checked only when the first frame is
/// a text frame that carries one, and then for exactly that token: the token
/// of an `auth` message or, when the text is no client message at all, the
/// string field `token` of its JSON. Every other first frame is refused, an
/// `auth` message's token is always the one checked, and each refusal says
/// why.
pub proof fn lemma_token_only_from_first_text(first: Option<InboundFrame>, step: AuthStep)
    requires
        first_frame_step(first, step),
    ensures
        step matches AuthStep::Validate { token } ==> (first matches Some(
            InboundFrame::Text { text, message },
        ) && (message == Ok::<ClientMessage, String>(ClientMessage::Auth { token }) || (message is Err
            && json_string_field(text@, "token"@) == Some(Some(token@))))),
        first matches Some(InboundFrame::Text { message: Ok(ClientMessage::Auth { token }), .. })
            ==> step == (AuthStep::Validate { token }),
        first matches Some(InboundFrame::Text { message: Ok(m), .. }) ==> (!(m is Auth) ==> (
        step matches AuthStep::Reject { reason } && reason@
            == "Expected Auth message, got other message type"@)),
        first is None ==> (step matches AuthStep::Reject { reason } && reason@
            == "No authentication message received"@),
        first matches Some(InboundFrame::Close) ==> (step matches AuthStep::Reject { reason }
            && reason@ == "Connection closed during authentication"@),
        first matches Some(InboundFrame::Other) ==> (step matches AuthStep::Reject { reason }
            && reason@ == "Invalid authentication message format"@),
        first matches Some(InboundFrame::Failed { error }) ==> (step matches AuthStep::Reject {
            reason,
        } && reason@ == "WebSocket error during authentication: "@ + error@),
        first matches Some(InboundFrame::Text { text, message: Err(_) }) ==> {
            &&& json_string_field(text@, "token"@) is None ==> (step matches AuthStep::Reject {
                reason,
            } && reason@ == "Invalid JSON format in authentication message"@)
            &&& json_string_field(text@, "token"@) == Some(None::<Seq<char>>) ==> (
            step matches AuthStep::Reject { reason } && reason@
                == "No 'token' field found in authentication message"@)
        },
{
}

/// The value of a numeral of decimal digits.
pub open spec fn numeral_value(digits: Seq<char>) -> int
    decreases digits.len(),
{
    if digits.len() == 0 {
        0
    } else {
        numeral_value(digits.drop_last()) * 10 + (digits.last() as int - 48)
    }
}

/// The port in a listening address reads back as the port: `decimal(n)` is
/// a non-empty string of decimal digits, without a leading zero unless it is
/// "0", whose value is `n`.
pub proof fn lemma_decimal_reads_back(n: nat)
    ensures
        numeral_value(decimal(n)) == n,
        decimal(n).len() > 0,
        forall|i: int| 0 <= i < decimal(n).len() ==> '0' <= #[trigger] decimal(n)[i] <= '9',
        n > 0 ==> decimal(n)[0] != '0',
    decreases n,
{
    if n >= 10 {
        lemma_decimal_reads_back(n / 10);
        let init = decimal(n / 10);
        let d = digit_char(n % 10);
        assert(decimal(n) == init.push(d));
        assert(init.push(d).drop_last() =~= init);
        assert(d as int - 48 == n % 10);
        assert(n == (n / 10) * 10 + n % 10);
        assert(numeral_value(init.push(d)) == numeral_value(init) * 10 + (d as int - 48));
        assert forall|i: int| 0 <= i < decimal(n).len() implies '0' <= #[trigger] decimal(n)[i] <= '9' by {
            if i < init.len() {
                assert(decimal(n)[i] == init[i]);
            }
        }
        assert(decimal(n)[0] == init[0]);
    } else {
        let d = digit_char(n);
        assert(decimal(n) == seq![d]);
        assert(seq![d].drop_last() =~= Seq::<char>::empty());
        assert(d as int - 48 == n);
        assert(numeral_value(seq![d]) == numeral_value(Seq::<char>::empty()) * 10 + (d as int - 48));
    }
}

} // verus!
