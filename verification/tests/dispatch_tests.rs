use signaling::dispatch::{
    expects_event, handle_client_message, others_of, publish_offer_after_check, subscribe_answer_after_check,
    transport_answer_after_check, transport_offer_after_check, Action, Event, ParticipantLookup,
    RoomRequest, Session, Stage,
};
use signaling::messages::{AuthenticatedUser, ClientMessage, ParticipantInfo, ServerMessage};
use signaling::sdp::{SdpKind, SessionDescription};

const VALID_SDP: &str = "v=0\r\no=- 4215775240449105457 2 IN IP4 127.0.0.1\r\ns=-\r\nt=0 0\r\n";

fn session(sfu_available: bool) -> Session {
    Session {
        user: AuthenticatedUser { user_id: 7, username: "grace".to_string() },
        sfu_available,
    }
}

fn s(text: &str) -> String {
    text.to_string()
}

fn error_action(text: &str) -> Action {
    Action::Send { message: ServerMessage::Error { message: s(text) } }
}

/// Feeds the events to the handler, starting with the request, and returns
/// the actions it asked for.
fn drive(session: &Session, message: Result<ClientMessage, String>, events: Vec<Event>) -> (Stage, Vec<Action>) {
    let mut stage = Stage::Start;
    let mut actions = Vec::new();
    let mut pending = vec![Event::Received { message }];
    pending.extend(events);
    for event in pending {
        assert!(expects_event(&stage, &event), "unexpected event {:?} at {:?}", event, stage);
        let (next, action) = handle_client_message(session, stage, event);
        stage = next;
        actions.push(action);
    }
    (stage, actions)
}

fn sent_ok() -> Event {
    Event::Sent { delivery: Ok(()) }
}

#[test]
fn invalid_json_fails_the_request() {
    let (stage, actions) = drive(&session(true), Err(s("expected value at line 1")), vec![]);
    assert_eq!(stage, Stage::Finished);
    assert_eq!(actions, vec![Action::Finish { outcome: Err(s("Invalid JSON: expected value at line 1")) }]);
}

#[test]
fn second_auth_is_refused() {
    let (stage, actions) =
        drive(&session(true), Ok(ClientMessage::Auth { token: s("t") }), vec![sent_ok()]);
    assert_eq!(stage, Stage::Finished);
    assert_eq!(
        actions,
        vec![error_action("Authentication already completed"), Action::Finish { outcome: Ok(()) }]
    );
}

#[test]
fn join_room_reports_existing_participants() {
    let others = vec![ParticipantInfo { user_id: 1, username: s("ann") }];
    let (_, actions) = drive(
        &session(true),
        Ok(ClientMessage::JoinRoom { room_name: s("r"), password: None }),
        vec![Event::Joined { joined: Ok(others.clone()) }, sent_ok()],
    );
    assert_eq!(actions[0], Action::JoinRoom { room_name: s("r"), user_id: 7 });
    assert_eq!(
        actions[1],
        Action::Send {
            message: ServerMessage::RoomJoined { room_name: s("r"), user_id: 7, participants: others }
        }
    );
}

#[test]
fn join_room_failure_is_reported() {
    let (_, actions) = drive(
        &session(true),
        Ok(ClientMessage::JoinRoom { room_name: s("r"), password: Some(s("pw")) }),
        vec![Event::Joined { joined: Err(s("Room is full")) }],
    );
    assert_eq!(actions[1], error_action("Failed to join room: Room is full"));
}

#[test]
fn leave_room_confirms_or_reports() {
    let (_, ok) = drive(
        &session(true),
        Ok(ClientMessage::LeaveRoom { room_name: s("r") }),
        vec![Event::Completed { result: Ok(()) }],
    );
    assert_eq!(ok[0], Action::LeaveRoom { room_name: s("r"), user_id: 7 });
    assert_eq!(ok[1], Action::Send { message: ServerMessage::RoomLeft { room_name: s("r"), user_id: 7 } });
    let (_, err) = drive(
        &session(true),
        Ok(ClientMessage::LeaveRoom { room_name: s("r") }),
        vec![Event::Completed { result: Err(s("not a member")) }],
    );
    assert_eq!(err[1], error_action("Failed to leave room: not a member"));
}

#[test]
fn offer_from_non_member_is_refused() {
    let (stage, actions) = drive(
        &session(true),
        Ok(ClientMessage::Offer { room_name: s("r"), sdp: s(VALID_SDP), target_user_id: None }),
        vec![Event::Membership { in_room: false }, sent_ok()],
    );
    assert_eq!(stage, Stage::Finished);
    assert_eq!(actions[0], Action::CheckMembership { room_name: s("r"), user_id: 7 });
    assert_eq!(actions[1], error_action("You are not in this room"));
    assert_eq!(actions[2], Action::Finish { outcome: Ok(()) });
}

#[test]
fn offer_lookup_failures_are_reported() {
    let message = || Ok(ClientMessage::Offer { room_name: s("r"), sdp: s(VALID_SDP), target_user_id: None });
    for (found, text) in [
        (ParticipantLookup::RoomNotFound, "Room not found"),
        (ParticipantLookup::ParticipantNotFound, "Participant not found in room"),
        (
            ParticipantLookup::Found { has_publish: false, has_subscribe: true },
            "No publish transport for participant",
        ),
    ] {
        let (_, actions) = drive(
            &session(true),
            message(),
            vec![Event::Membership { in_room: true }, Event::Lookup { found }],
        );
        assert_eq!(actions[1], Action::LookupParticipant { room_name: s("r"), user_id: 7 });
        assert_eq!(actions[2], error_action(text));
    }
}

#[test]
fn offer_is_answered_by_publish_transport() {
    let (stage, actions) = drive(
        &session(true),
        Ok(ClientMessage::Offer { room_name: s("r"), sdp: s(VALID_SDP), target_user_id: Some(3) }),
        vec![
            Event::Membership { in_room: true },
            Event::Lookup { found: ParticipantLookup::Found { has_publish: true, has_subscribe: false } },
            Event::Described { sdp: Ok(s("answer-sdp")) },
            sent_ok(),
        ],
    );
    assert_eq!(stage, Stage::Finished);
    assert_eq!(
        actions[2],
        Action::PublishTransportAnswer {
            offer: SessionDescription { kind: SdpKind::Offer, sdp: s(VALID_SDP) }
        }
    );
    assert_eq!(
        actions[3],
        Action::Send {
            message: ServerMessage::Answer { room_name: s("r"), from_user_id: 7, sdp: s("answer-sdp") }
        }
    );
    assert_eq!(actions[4], Action::Finish { outcome: Ok(()) });
}

#[test]
fn offer_with_bad_sdp_fails() {
    let (stage, actions) = drive(
        &session(true),
        Ok(ClientMessage::Offer { room_name: s("r"), sdp: s("not sdp"), target_user_id: None }),
        vec![
            Event::Membership { in_room: true },
            Event::Lookup { found: ParticipantLookup::Found { has_publish: true, has_subscribe: true } },
        ],
    );
    assert_eq!(stage, Stage::Finished);
    match &actions[2] {
        Action::Finish { outcome: Err(e) } => {
            assert!(e.starts_with("Failed to parse offer SDP: "), "{}", e);
            assert!(e.len() > "Failed to parse offer SDP: ".len());
        }
        other => panic!("unexpected {:?}", other),
    }
}

#[test]
fn offer_transport_error_fails() {
    let (_, actions) = drive(
        &session(true),
        Ok(ClientMessage::Offer { room_name: s("r"), sdp: s(VALID_SDP), target_user_id: None }),
        vec![
            Event::Membership { in_room: true },
            Event::Lookup { found: ParticipantLookup::Found { has_publish: true, has_subscribe: false } },
            Event::Described { sdp: Err(s("not stable")) },
        ],
    );
    assert_eq!(actions[3], Action::Finish { outcome: Err(s("SFU get_answer error: not stable")) });
}

#[test]
fn answer_goes_to_subscribe_transport() {
    let (stage, actions) = drive(
        &session(true),
        Ok(ClientMessage::Answer { room_name: s("r"), sdp: s(VALID_SDP), target_user_id: None }),
        vec![
            Event::Membership { in_room: true },
            Event::Lookup { found: ParticipantLookup::Found { has_publish: false, has_subscribe: true } },
            Event::Completed { result: Ok(()) },
        ],
    );
    assert_eq!(stage, Stage::Finished);
    assert_eq!(
        actions[2],
        Action::SubscribeTransportSetAnswer {
            answer: SessionDescription { kind: SdpKind::Answer, sdp: s(VALID_SDP) }
        }
    );
    assert_eq!(actions[3], Action::Finish { outcome: Ok(()) });
}

#[test]
fn answer_without_subscribe_transport_is_reported() {
    let (_, actions) = drive(
        &session(true),
        Ok(ClientMessage::Answer { room_name: s("r"), sdp: s(VALID_SDP), target_user_id: None }),
        vec![
            Event::Membership { in_room: true },
            Event::Lookup { found: ParticipantLookup::Found { has_publish: true, has_subscribe: false } },
        ],
    );
    assert_eq!(actions[2], error_action("No subscribe transport for participant"));
}

#[test]
fn answer_set_error_fails() {
    let (_, actions) = drive(
        &session(true),
        Ok(ClientMessage::Answer { room_name: s("r"), sdp: s(VALID_SDP), target_user_id: None }),
        vec![
            Event::Membership { in_room: true },
            Event::Lookup { found: ParticipantLookup::Found { has_publish: false, has_subscribe: true } },
            Event::Completed { result: Err(s("closed")) },
        ],
    );
    assert_eq!(actions[3], Action::Finish { outcome: Err(s("SFU set_answer error: closed")) });
}

fn ice(in_both: (bool, bool), results: Vec<bool>) -> Vec<Action> {
    let mut events = vec![
        Event::Membership { in_room: true },
        Event::Lookup {
            found: ParticipantLookup::Found { has_publish: in_both.0, has_subscribe: in_both.1 },
        },
    ];
    for added in results {
        events.push(Event::IceAdded { added });
    }
    let (stage, actions) = drive(
        &session(true),
        Ok(ClientMessage::IceCandidate {
            room_name: s("r"),
            candidate: s("candidate:1"),
            sdp_mid: None,
            sdp_mline_index: Some(0),
            target_user_id: None,
        }),
        events,
    );
    let mut actions = actions;
    if stage == Stage::Finishing {
        let (_, last) = handle_client_message(&session(true), stage, sent_ok());
        actions.push(last);
    }
    actions
}

#[test]
fn ice_candidate_tries_both_transports() {
    let actions = ice((true, true), vec![false, true]);
    assert_eq!(actions[2], Action::PublishTransportIce { candidate: s("candidate:1") });
    assert_eq!(actions[3], Action::SubscribeTransportIce { candidate: s("candidate:1") });
    assert_eq!(actions[4], Action::Finish { outcome: Ok(()) });
}

#[test]
fn ice_candidate_rejected_everywhere_is_reported() {
    let actions = ice((true, true), vec![false, false]);
    assert_eq!(actions[4], error_action("Failed to add ICE candidate to any transport"));
    let none = ice((false, false), vec![]);
    assert_eq!(none[2], error_action("Failed to add ICE candidate to any transport"));
}

#[test]
fn ice_candidate_with_one_transport() {
    let publish_only = ice((true, false), vec![true]);
    assert_eq!(publish_only[3], Action::Finish { outcome: Ok(()) });
    let subscribe_only = ice((false, true), vec![true]);
    assert_eq!(subscribe_only[2], Action::SubscribeTransportIce { candidate: s("candidate:1") });
    assert_eq!(subscribe_only[3], Action::Finish { outcome: Ok(()) });
}

#[test]
fn sfu_requests_without_sfu_are_refused() {
    let requests = vec![
        ClientMessage::PublishOffer { room_name: s("r"), offer: s(VALID_SDP) },
        ClientMessage::PublishIceCandidate { room_name: s("r"), candidate: s("c") },
        ClientMessage::SubscribeRequest { room_name: s("r"), publisher_id: 2 },
        ClientMessage::SubscribeAnswer { room_name: s("r"), publisher_id: 2, answer: s("x") },
        ClientMessage::SubscribeIceCandidate { room_name: s("r"), publisher_id: 2, candidate: s("c") },
    ];
    for request in requests {
        let (_, actions) = drive(&session(false), Ok(request), vec![]);
        assert_eq!(actions[0], error_action("SFU not available"));
    }
}

#[test]
fn publish_offer_full_exchange() {
    let (stage, actions) = drive(
        &session(true),
        Ok(ClientMessage::PublishOffer { room_name: s("r"), offer: s(VALID_SDP) }),
        vec![
            Event::Completed { result: Ok(()) },
            Event::Described { sdp: Ok(s("answer")) },
            sent_ok(),
            Event::Participants { listed: Ok(vec![3, 7, 9]) },
            sent_ok(),
        ],
    );
    assert_eq!(stage, Stage::Finished);
    assert_eq!(
        actions[0],
        Action::SfuAddParticipant { room_name: s("r"), user_id: 7, username: s("grace") }
    );
    assert_eq!(
        actions[1],
        Action::SfuPublishOffer {
            room_name: s("r"),
            user_id: 7,
            offer: SessionDescription { kind: SdpKind::Offer, sdp: s(VALID_SDP) },
        }
    );
    assert_eq!(
        actions[2],
        Action::Send { message: ServerMessage::PublishAnswer { room_name: s("r"), answer: s("answer") } }
    );
    assert_eq!(actions[3], Action::SfuRoomParticipants { room_name: s("r") });
    assert_eq!(
        actions[4],
        Action::Broadcast {
            room_name: s("r"),
            recipients: vec![3, 9],
            message: ServerMessage::NewPublisher { room_name: s("r"), publisher_id: 7, username: s("grace") },
        }
    );
    assert_eq!(actions[5], Action::Finish { outcome: Ok(()) });
}

#[test]
fn publish_offer_alone_in_room_tells_nobody() {
    let (stage, actions) = drive(
        &session(true),
        Ok(ClientMessage::PublishOffer { room_name: s("r"), offer: s(VALID_SDP) }),
        vec![
            Event::Completed { result: Ok(()) },
            Event::Described { sdp: Ok(s("answer")) },
            sent_ok(),
            Event::Participants { listed: Ok(vec![7]) },
        ],
    );
    assert_eq!(stage, Stage::Finished);
    assert_eq!(actions[4], Action::Finish { outcome: Ok(()) });
}

#[test]
fn new_publisher_broadcast_failure_fails_the_request() {
    let (stage, actions) = drive(
        &session(true),
        Ok(ClientMessage::PublishOffer { room_name: s("r"), offer: s(VALID_SDP) }),
        vec![
            Event::Completed { result: Ok(()) },
            Event::Described { sdp: Ok(s("answer")) },
            sent_ok(),
            Event::Participants { listed: Ok(vec![1]) },
            Event::Sent { delivery: Err(s("Failed to send message: closed")) },
        ],
    );
    assert_eq!(stage, Stage::Finished);
    assert_eq!(actions[5], Action::Finish { outcome: Err(s("Failed to send message: closed")) });
}

#[test]
fn others_exclude_the_publisher() {
    assert_eq!(others_of(&vec![1, 7, 2, 7, 3], 7), vec![1, 2, 3]);
    assert_eq!(others_of(&vec![7], 7), Vec::<u32>::new());
    assert_eq!(others_of(&vec![], 7), Vec::<u32>::new());
    assert_eq!(others_of(&vec![4, 5], 7), vec![4, 5]);
}

#[test]
fn publish_offer_failures() {
    let (_, join_failed) = drive(
        &session(true),
        Ok(ClientMessage::PublishOffer { room_name: s("r"), offer: s(VALID_SDP) }),
        vec![Event::Completed { result: Err(s("full")) }],
    );
    assert_eq!(join_failed[1], error_action("Failed to add participant: full"));
    let (_, publish_failed) = drive(
        &session(true),
        Ok(ClientMessage::PublishOffer { room_name: s("r"), offer: s(VALID_SDP) }),
        vec![Event::Completed { result: Ok(()) }, Event::Described { sdp: Err(s("no router")) }],
    );
    assert_eq!(publish_failed[2], error_action("SFU publish offer error: no router"));
    let (stage, send_failed) = drive(
        &session(true),
        Ok(ClientMessage::PublishOffer { room_name: s("r"), offer: s(VALID_SDP) }),
        vec![
            Event::Completed { result: Ok(()) },
            Event::Described { sdp: Ok(s("answer")) },
            Event::Sent { delivery: Err(s("Failed to send message: closed")) },
        ],
    );
    assert_eq!(stage, Stage::Finished);
    assert_eq!(send_failed[3], Action::Finish { outcome: Err(s("Failed to send message: closed")) });
    let (stage, no_participants) = drive(
        &session(true),
        Ok(ClientMessage::PublishOffer { room_name: s("r"), offer: s(VALID_SDP) }),
        vec![
            Event::Completed { result: Ok(()) },
            Event::Described { sdp: Ok(s("answer")) },
            sent_ok(),
            Event::Participants { listed: Err(s("gone")) },
        ],
    );
    assert_eq!(stage, Stage::Finished);
    assert_eq!(no_participants[4], Action::Finish { outcome: Ok(()) });
}

#[test]
fn publish_offer_with_bad_sdp_fails() {
    let (stage, actions) = drive(
        &session(true),
        Ok(ClientMessage::PublishOffer { room_name: s("r"), offer: s("garbage") }),
        vec![Event::Completed { result: Ok(()) }],
    );
    assert_eq!(stage, Stage::Finished);
    match &actions[1] {
        Action::Finish { outcome: Err(e) } => assert!(e.starts_with("Failed to parse offer SDP: ")),
        other => panic!("unexpected {:?}", other),
    }
}

#[test]
fn publish_ice_candidate_is_echoed_or_reported() {
    let (_, ok) = drive(
        &session(true),
        Ok(ClientMessage::PublishIceCandidate { room_name: s("r"), candidate: s("c1") }),
        vec![Event::Completed { result: Ok(()) }],
    );
    assert_eq!(ok[0], Action::SfuPublishIce { room_name: s("r"), user_id: 7, candidate: s("c1") });
    assert_eq!(
        ok[1],
        Action::Send { message: ServerMessage::PublishIceCandidate { room_name: s("r"), candidate: s("c1") } }
    );
    let (_, err) = drive(
        &session(true),
        Ok(ClientMessage::PublishIceCandidate { room_name: s("r"), candidate: s("c1") }),
        vec![Event::Completed { result: Err(s("no transport")) }],
    );
    assert_eq!(err[1], error_action("SFU publish ICE candidate error: no transport"));
}

#[test]
fn subscribe_request_gets_offer_or_report() {
    let (_, ok) = drive(
        &session(true),
        Ok(ClientMessage::SubscribeRequest { room_name: s("r"), publisher_id: 2 }),
        vec![Event::Described { sdp: Ok(s("offer")) }],
    );
    assert_eq!(ok[0], Action::SfuSubscribeRequest { room_name: s("r"), user_id: 7, publisher_id: 2 });
    assert_eq!(
        ok[1],
        Action::Send {
            message: ServerMessage::SubscribeOffer { room_name: s("r"), publisher_id: 2, offer: s("offer") }
        }
    );
    let (_, err) = drive(
        &session(true),
        Ok(ClientMessage::SubscribeRequest { room_name: s("r"), publisher_id: 2 }),
        vec![Event::Described { sdp: Err(s("no publisher")) }],
    );
    assert_eq!(err[1], error_action("SFU subscribe request error: no publisher"));
}

#[test]
fn subscribe_answer_paths() {
    let (stage, ok) = drive(
        &session(true),
        Ok(ClientMessage::SubscribeAnswer { room_name: s("r"), publisher_id: 2, answer: s(VALID_SDP) }),
        vec![Event::Completed { result: Ok(()) }],
    );
    assert_eq!(stage, Stage::Finished);
    assert_eq!(
        ok[0],
        Action::SfuSubscribeAnswer {
            room_name: s("r"),
            user_id: 7,
            publisher_id: 2,
            answer: SessionDescription { kind: SdpKind::Answer, sdp: s(VALID_SDP) },
        }
    );
    assert_eq!(ok[1], Action::Finish { outcome: Ok(()) });
    let (_, err) = drive(
        &session(true),
        Ok(ClientMessage::SubscribeAnswer { room_name: s("r"), publisher_id: 2, answer: s(VALID_SDP) }),
        vec![Event::Completed { result: Err(s("stale")) }],
    );
    assert_eq!(err[1], error_action("SFU subscribe answer error: stale"));
    let (_, bad) = drive(
        &session(true),
        Ok(ClientMessage::SubscribeAnswer { room_name: s("r"), publisher_id: 2, answer: s("nope") }),
        vec![],
    );
    match &bad[0] {
        Action::Finish { outcome: Err(e) } => assert!(e.starts_with("Failed to parse answer SDP: ")),
        other => panic!("unexpected {:?}", other),
    }
}

#[test]
fn subscribe_ice_candidate_is_echoed_or_reported() {
    let (_, ok) = drive(
        &session(true),
        Ok(ClientMessage::SubscribeIceCandidate { room_name: s("r"), publisher_id: 2, candidate: s("c") }),
        vec![Event::Completed { result: Ok(()) }],
    );
    assert_eq!(
        ok[0],
        Action::SfuSubscribeIce { room_name: s("r"), user_id: 7, publisher_id: 2, candidate: s("c") }
    );
    assert_eq!(
        ok[1],
        Action::Send {
            message: ServerMessage::SubscribeIceCandidate { room_name: s("r"), publisher_id: 2, candidate: s("c") }
        }
    );
    let (_, err) = drive(
        &session(true),
        Ok(ClientMessage::SubscribeIceCandidate { room_name: s("r"), publisher_id: 2, candidate: s("c") }),
        vec![Event::Completed { result: Err(s("gone")) }],
    );
    assert_eq!(err[1], error_action("SFU subscribe ICE candidate error: gone"));
}

#[test]
fn continuations_take_the_sdp_judgement() {
    let sess = session(true);
    assert_eq!(
        transport_offer_after_check(s("r"), s("x"), Some(s("bad line"))),
        (Stage::Finished, Action::Finish { outcome: Err(s("Failed to parse offer SDP: bad line")) })
    );
    assert_eq!(
        transport_offer_after_check(s("r"), s("x"), None),
        (
            Stage::AwaitTransportAnswer { room_name: s("r") },
            Action::PublishTransportAnswer { offer: SessionDescription { kind: SdpKind::Offer, sdp: s("x") } }
        )
    );
    assert_eq!(
        transport_answer_after_check(s("x"), Some(s("e"))),
        (Stage::Finished, Action::Finish { outcome: Err(s("Failed to parse answer SDP: e")) })
    );
    assert_eq!(
        transport_answer_after_check(s("x"), None),
        (
            Stage::AwaitTransportSetAnswer,
            Action::SubscribeTransportSetAnswer { answer: SessionDescription { kind: SdpKind::Answer, sdp: s("x") } }
        )
    );
    assert_eq!(
        publish_offer_after_check(&sess, s("r"), s("x"), None),
        (
            Stage::AwaitSfuPublish { room_name: s("r") },
            Action::SfuPublishOffer {
                room_name: s("r"),
                user_id: 7,
                offer: SessionDescription { kind: SdpKind::Offer, sdp: s("x") },
            }
        )
    );
    assert_eq!(
        publish_offer_after_check(&sess, s("r"), s("x"), Some(s("e"))),
        (Stage::Finished, Action::Finish { outcome: Err(s("Failed to parse offer SDP: e")) })
    );
    assert_eq!(
        subscribe_answer_after_check(&sess, s("r"), 2, s("x"), Some(s("e"))),
        (Stage::Finished, Action::Finish { outcome: Err(s("Failed to parse answer SDP: e")) })
    );
    assert_eq!(
        subscribe_answer_after_check(&sess, s("r"), 2, s("x"), None),
        (
            Stage::AwaitSfuSubscribeAnswer,
            Action::SfuSubscribeAnswer {
                room_name: s("r"),
                user_id: 7,
                publisher_id: 2,
                answer: SessionDescription { kind: SdpKind::Answer, sdp: s("x") },
            }
        )
    );
}

#[test]
fn stages_expect_their_events() {
    assert!(!expects_event(&Stage::Finished, &sent_ok()));
    assert!(expects_event(&Stage::Finishing, &sent_ok()));
    assert!(!expects_event(&Stage::Start, &sent_ok()));
    assert!(expects_event(
        &Stage::AwaitMembership { request: RoomRequest::Ice { room_name: s("r"), candidate: s("c") } },
        &Event::Membership { in_room: true }
    ));
}
