use webrtc_signaling::session::{
    Action, AnswerReply, BusMessage, BusWatch, EngineEvent, EngineFault, NegotiationError,
    PeerConnectionState, SdpKind, Session, SessionWeak, SignalingState,
};
use webrtc_signaling::signals::{
    IceCandidateData, IceCandidateWebRtcData, Signal, WebRtcAnswerData, WebRtcData,
    WebRtcOfferData,
};
use webrtc_signaling::webrtc::{WebRtc, FIRST_SESSION_ID};

fn offer(session_id: u64, sdp: &str) -> Signal {
    Signal::WebRtcOffer {
        data: WebRtcOfferData {
            session_id,
            webrtc_data: WebRtcData { data_type: Some("offer".to_string()), sdp: sdp.to_string() },
        },
    }
}

fn answer(session_id: u64, sdp: &str) -> Signal {
    Signal::WebRtcAnswer {
        data: WebRtcAnswerData {
            session_id,
            webrtc_data: WebRtcData { data_type: Some("answer".to_string()), sdp: sdp.to_string() },
        },
    }
}

fn candidate(session_id: u64, candidate: &str, line_index: Option<u32>) -> Signal {
    Signal::IceCandidate {
        data: IceCandidateData {
            session_id,
            webrtc_data: IceCandidateWebRtcData {
                candidate: candidate.to_string(),
                media_id: None,
                line_index,
                username_fragment: None,
            },
        },
    }
}

fn failed() -> EngineEvent {
    EngineEvent::ConnectionState { connection: PeerConnectionState::Failed }
}

fn local_answer(sdp: &str) -> EngineEvent {
    EngineEvent::LocalAnswer { reply: AnswerReply::Answer { sdp: sdp.to_string() } }
}

fn offer_actions(sdp: &str) -> Vec<Action> {
    vec![
        Action::SetRemoteDescription { kind: SdpKind::Offer, sdp: sdp.to_string() },
        Action::CreateAnswer,
    ]
}

fn sent(actions: &[Action]) -> Vec<String> {
    actions
        .iter()
        .filter_map(|action| match action {
            Action::Send { signal } => Some(signal.encode()),
            _ => None,
        })
        .collect()
}

#[test]
fn owner_starts_with_session_zero() {
    let (webrtc, actions) = WebRtc::new();
    let (_, expected) = Session::start(0);
    assert_eq!(FIRST_SESSION_ID, 0);
    assert_eq!(actions, expected);
    let session = webrtc.session(0).unwrap();
    assert_eq!(session.session_id(), 0);
    assert!(!session.is_ended());
    assert!(webrtc.session(1).is_none());
}

#[test]
fn valid_offer_is_answered_with_one_answer_of_the_same_session() {
    let (mut webrtc, _) = WebRtc::new();
    let weak = webrtc.session(0).unwrap().downgrade();
    let asked = webrtc.on_incoming_signal(offer(0, "v=0 offer"), true).unwrap();
    assert_eq!(asked, offer_actions("v=0 offer"));
    let answered = webrtc.on_engine_event(weak, local_answer("v=0 answer")).unwrap();
    let signals: Vec<Signal> = answered
        .iter()
        .filter_map(|action| match action {
            Action::Send { signal } => Some(signal.clone()),
            _ => None,
        })
        .collect();
    assert_eq!(signals.len(), 1);
    assert_eq!(signals[0].session_id(), 0);
    match &signals[0] {
        Signal::WebRtcAnswer { data } => {
            assert_eq!(
                data,
                &WebRtcAnswerData {
                    session_id: 0,
                    webrtc_data: WebRtcData {
                        data_type: Some("answer".to_string()),
                        sdp: "v=0 answer".to_string(),
                    },
                }
            );
            assert!(!data.webrtc_data.sdp.is_empty());
        }
        other => panic!("not an answer: {:?}", other),
    }
    assert_eq!(
        sent(&answered),
        vec![
            "{\"type\":\"webrtc_answer\",\"data\":{\"session_id\":0,\"webrtc_data\":{\"type\":\"answer\",\"sdp\":\"v=0 answer\"}}}"
                .to_string()
        ]
    );
}

#[test]
fn offer_for_an_unseen_id_starts_its_session_and_is_answered_under_its_id() {
    let (mut webrtc, _) = WebRtc::new();
    let text = "{\"type\":\"webrtc_offer\",\"data\":{\"session_id\":1,\"webrtc_data\":{\"sdp\":\"v=0...\"}}}";
    let signal = Signal::decode(text).unwrap();
    let mut expected = Session::start(1).1;
    expected.extend(offer_actions("v=0..."));
    assert_eq!(webrtc.on_incoming_signal(signal, true), Ok(expected));
    let session = webrtc.session(1).unwrap();
    assert_eq!(session.session_id(), 1);
    assert!(!session.is_ended());
    let weak = session.downgrade();
    assert_eq!(weak, SessionWeak { session_id: 1 });
    let answered = webrtc.on_engine_event(weak, local_answer("v=0 answer")).unwrap();
    assert_eq!(
        sent(&answered),
        vec![
            "{\"type\":\"webrtc_answer\",\"data\":{\"session_id\":1,\"webrtc_data\":{\"type\":\"answer\",\"sdp\":\"v=0 answer\"}}}"
                .to_string()
        ]
    );
    assert!(!webrtc.session(0).unwrap().is_ended());
}

#[test]
fn second_offer_for_a_session_does_not_start_it_again() {
    let (mut webrtc, _) = WebRtc::with_session(7);
    assert_eq!(webrtc.on_incoming_signal(offer(7, "v=0 a"), true), Ok(offer_actions("v=0 a")));
    assert_eq!(webrtc.on_incoming_signal(offer(3, "v=0 b"), true).unwrap().len(), 10);
    assert_eq!(webrtc.on_incoming_signal(offer(3, "v=0 c"), true), Ok(offer_actions("v=0 c")));
    assert_eq!(webrtc.on_incoming_signal(offer(7, "v=0 d"), true), Ok(offer_actions("v=0 d")));
    let answered = webrtc
        .on_engine_event(SessionWeak { session_id: 3 }, local_answer("v=0 answer"))
        .unwrap();
    assert_eq!(sent(&answered).len(), 1);
    assert!(sent(&answered)[0].contains("\"session_id\":3"));
}

#[test]
fn malformed_offer_is_an_error_whatever_id_it_carries() {
    let (mut webrtc, _) = WebRtc::new();
    assert_eq!(
        webrtc.on_incoming_signal(offer(0, "garbage"), false),
        Err(NegotiationError::MalformedOffer)
    );
    assert_eq!(
        webrtc.on_incoming_signal(offer(1, "garbage"), false),
        Err(NegotiationError::MalformedOffer)
    );
    assert!(webrtc.session(1).is_none());
    let session = webrtc.session(0).unwrap();
    assert!(!session.is_ended());
    assert_eq!(session.signaling_state(), SignalingState::Stable);
}

#[test]
fn answer_of_the_peer_becomes_the_remote_description() {
    let (mut webrtc, _) = WebRtc::new();
    assert_eq!(
        webrtc.on_incoming_signal(answer(0, "v=0 answer"), true),
        Ok(vec![Action::SetRemoteDescription {
            kind: SdpKind::Answer,
            sdp: "v=0 answer".to_string(),
        }])
    );
    assert_eq!(
        webrtc.on_incoming_signal(answer(0, "garbage"), false),
        Err(NegotiationError::MalformedAnswer)
    );
    assert_eq!(
        webrtc.on_incoming_signal(answer(2, "garbage"), false),
        Err(NegotiationError::MalformedAnswer)
    );
    assert_eq!(webrtc.on_incoming_signal(answer(2, "v=0 answer"), true), Ok(vec![]));
    assert!(webrtc.session(2).is_none());
}

#[test]
fn candidate_of_the_peer_is_added_for_its_line() {
    let (mut webrtc, _) = WebRtc::new();
    assert_eq!(
        webrtc.on_incoming_signal(candidate(0, "candidate:1", Some(3)), true),
        Ok(vec![Action::AddIceCandidate { line_index: 3, candidate: "candidate:1".to_string() }])
    );
    assert_eq!(
        webrtc.on_incoming_signal(candidate(0, "candidate:1", Some(3)), false),
        Ok(vec![Action::AddIceCandidate { line_index: 3, candidate: "candidate:1".to_string() }])
    );
    assert_eq!(webrtc.on_incoming_signal(candidate(0, "candidate:1", None), true), Ok(vec![]));
    assert_eq!(webrtc.on_incoming_signal(candidate(4, "candidate:1", Some(3)), true), Ok(vec![]));
    assert!(webrtc.session(4).is_none());
}

#[test]
fn failed_connection_stops_the_session_once_and_later_events_do_nothing() {
    let (mut webrtc, _) = WebRtc::new();
    let weak = webrtc.session(0).unwrap().downgrade();
    assert!(weak.upgrade(&webrtc).is_some());
    assert_eq!(webrtc.on_engine_event(weak, failed()), Ok(vec![Action::End, Action::Destroy]));
    assert!(weak.upgrade(&webrtc).is_none());
    assert!(webrtc.session(0).unwrap().is_ended());
    assert_eq!(webrtc.on_engine_event(weak, failed()), Ok(vec![]));
    assert_eq!(
        webrtc.on_engine_event(
            weak,
            EngineEvent::LocalIceCandidate { candidate: "c".to_string(), line_index: 0 },
        ),
        Ok(vec![])
    );
    assert_eq!(webrtc.on_engine_event(weak, local_answer("v=0")), Ok(vec![]));
    assert_eq!(
        webrtc.on_engine_event(weak, EngineEvent::LocalAnswer { reply: AnswerReply::Failed }),
        Ok(vec![])
    );
    assert_eq!(
        webrtc.on_engine_event(
            weak,
            EngineEvent::SignalingState { signaling: SignalingState::Closed },
        ),
        Ok(vec![])
    );
    assert_eq!(webrtc.session(0).unwrap().signaling_state(), SignalingState::Stable);
    assert_eq!(webrtc.on_incoming_signal(offer(0, "v=0"), true), Ok(vec![]));
    assert_eq!(webrtc.on_incoming_signal(answer(0, "v=0"), true), Ok(vec![]));
    assert_eq!(webrtc.on_incoming_signal(candidate(0, "c", Some(0)), true), Ok(vec![]));
    assert_eq!(webrtc.release(0), vec![]);
}

#[test]
fn failure_of_one_session_leaves_the_others_running() {
    let (mut webrtc, _) = WebRtc::new();
    webrtc.on_incoming_signal(offer(5, "v=0"), true).unwrap();
    let first = SessionWeak { session_id: 0 };
    let second = SessionWeak { session_id: 5 };
    assert_eq!(webrtc.on_engine_event(second, failed()), Ok(vec![Action::End, Action::Destroy]));
    assert!(second.upgrade(&webrtc).is_none());
    assert!(first.upgrade(&webrtc).is_some());
    assert_eq!(webrtc.on_incoming_signal(offer(0, "v=0"), true), Ok(offer_actions("v=0")));
    assert_eq!(webrtc.on_incoming_signal(offer(5, "v=0"), true), Ok(vec![]));
}

#[test]
fn reference_to_an_unknown_session_finds_nothing() {
    let (mut webrtc, _) = WebRtc::new();
    let stranger = SessionWeak { session_id: 3 };
    assert!(stranger.upgrade(&webrtc).is_none());
    assert_eq!(webrtc.on_engine_event(stranger, failed()), Ok(vec![]));
    assert!(!webrtc.session(0).unwrap().is_ended());
    assert_eq!(webrtc.release(3), vec![]);
}

#[test]
fn release_tears_the_session_down_and_references_find_nothing() {
    let (mut webrtc, _) = WebRtc::new();
    let weak = webrtc.session(0).unwrap().downgrade();
    assert_eq!(webrtc.release(0), vec![Action::End, Action::Destroy]);
    assert!(webrtc.session(0).unwrap().is_ended());
    assert!(weak.upgrade(&webrtc).is_none());
    assert_eq!(webrtc.release(0), vec![]);
    assert_eq!(webrtc.on_engine_event(weak, failed()), Ok(vec![]));
    assert_eq!(webrtc.on_incoming_signal(offer(0, "v=0"), true), Ok(vec![]));
    assert_eq!(
        webrtc.on_incoming_signal(offer(0, "garbage"), false),
        Err(NegotiationError::MalformedOffer)
    );
}

#[test]
fn bus_is_watched_until_the_stream_ends_or_the_session_is_gone() {
    let (mut webrtc, _) = WebRtc::new();
    let weak = webrtc.session(0).unwrap().downgrade();
    let fault = BusMessage::Error(EngineFault {
        source: None,
        error: "lost".to_string(),
        debug: Some("details".to_string()),
    });
    assert_eq!(
        webrtc.on_bus_message(weak, &fault),
        (
            BusWatch::Continue,
            Some("[WebRTC Session 0] BUS ERROR from (unknown) - lost\n  details".to_string())
        )
    );
    assert!(!webrtc.session(0).unwrap().is_ended());
    assert_eq!(webrtc.on_bus_message(weak, &BusMessage::Other), (BusWatch::Continue, None));
    assert_eq!(webrtc.on_bus_message(weak, &BusMessage::Eos), (BusWatch::Break, None));
    webrtc.release(0);
    assert_eq!(webrtc.on_bus_message(weak, &fault), (BusWatch::Break, None));
    assert_eq!(webrtc.on_bus_message(weak, &BusMessage::Other), (BusWatch::Continue, None));
}
