use webrtc_signaling::json::{parse, Json};
use webrtc_signaling::signals::{
    IceCandidateData, IceCandidateWebRtcData, Signal, WebRtcAnswerData, WebRtcData,
    WebRtcOfferData,
};
use webrtc_signaling::wire::DecodeError;

fn offer(session_id: u64, data_type: Option<&str>, sdp: &str) -> Signal {
    Signal::WebRtcOffer {
        data: WebRtcOfferData {
            session_id,
            webrtc_data: WebRtcData {
                data_type: data_type.map(|t| t.to_string()),
                sdp: sdp.to_string(),
            },
        },
    }
}

fn answer(session_id: u64, data_type: Option<&str>, sdp: &str) -> Signal {
    Signal::WebRtcAnswer {
        data: WebRtcAnswerData {
            session_id,
            webrtc_data: WebRtcData {
                data_type: data_type.map(|t| t.to_string()),
                sdp: sdp.to_string(),
            },
        },
    }
}

fn candidate(
    session_id: u64,
    candidate: &str,
    media_id: Option<&str>,
    line_index: Option<u32>,
    username_fragment: Option<&str>,
) -> Signal {
    Signal::IceCandidate {
        data: IceCandidateData {
            session_id,
            webrtc_data: IceCandidateWebRtcData {
                candidate: candidate.to_string(),
                media_id: media_id.map(|t| t.to_string()),
                line_index,
                username_fragment: username_fragment.map(|t| t.to_string()),
            },
        },
    }
}

#[test]
fn offer_is_written_with_its_discriminator_and_payload() {
    let signal = offer(1, Some("offer"), "v=0\r\n");
    assert_eq!(
        signal.encode(),
        "{\"type\":\"webrtc_offer\",\"data\":{\"session_id\":1,\"webrtc_data\":{\"type\":\"offer\",\"sdp\":\"v=0\\r\\n\"}}}"
    );
}

#[test]
fn answer_is_written_with_its_discriminator_and_payload() {
    let signal = answer(18446744073709551615, Some("answer"), "v=0");
    assert_eq!(
        signal.encode(),
        "{\"type\":\"webrtc_answer\",\"data\":{\"session_id\":18446744073709551615,\"webrtc_data\":{\"type\":\"answer\",\"sdp\":\"v=0\"}}}"
    );
}

#[test]
fn candidate_is_written_with_every_field_that_is_present() {
    let signal = candidate(7, "candidate:1 1 UDP 1 10.0.0.1 9 typ host", Some("0"), Some(2), Some("frag"));
    assert_eq!(
        signal.encode(),
        "{\"type\":\"ice_candidate\",\"data\":{\"session_id\":7,\"webrtc_data\":{\"candidate\":\"candidate:1 1 UDP 1 10.0.0.1 9 typ host\",\"mid\":\"0\",\"sdpMLineIndex\":2,\"usernameFragment\":\"frag\"}}}"
    );
}

#[test]
fn absent_fields_are_left_out_and_never_null() {
    assert_eq!(
        offer(3, None, "v=0").encode(),
        "{\"type\":\"webrtc_offer\",\"data\":{\"session_id\":3,\"webrtc_data\":{\"sdp\":\"v=0\"}}}"
    );
    let bare = candidate(3, "c", None, None, None);
    assert_eq!(
        bare.encode(),
        "{\"type\":\"ice_candidate\",\"data\":{\"session_id\":3,\"webrtc_data\":{\"candidate\":\"c\"}}}"
    );
    assert!(!bare.encode().contains("null"));
    let only_index = candidate(3, "c", None, Some(0), None);
    assert_eq!(
        only_index.encode(),
        "{\"type\":\"ice_candidate\",\"data\":{\"session_id\":3,\"webrtc_data\":{\"candidate\":\"c\",\"sdpMLineIndex\":0}}}"
    );
}

#[test]
fn offer_without_type_is_read() {
    let text = "{\"type\":\"webrtc_offer\",\"data\":{\"session_id\":1,\"webrtc_data\":{\"sdp\":\"v=0...\"}}}";
    assert_eq!(Signal::decode(text), Ok(offer(1, None, "v=0...")));
}

#[test]
fn answer_is_read() {
    let text = "{\"type\":\"webrtc_answer\",\"data\":{\"session_id\":42,\"webrtc_data\":{\"type\":\"answer\",\"sdp\":\"v=0\"}}}";
    assert_eq!(Signal::decode(text), Ok(answer(42, Some("answer"), "v=0")));
}

#[test]
fn candidate_is_read() {
    let text = "{\"type\":\"ice_candidate\",\"data\":{\"session_id\":5,\"webrtc_data\":{\"candidate\":\"c\",\"mid\":\"video\",\"sdpMLineIndex\":1,\"usernameFragment\":\"u\"}}}";
    assert_eq!(Signal::decode(text), Ok(candidate(5, "c", Some("video"), Some(1), Some("u"))));
}

#[test]
fn members_may_come_in_any_order_and_unknown_ones_are_passed_over() {
    let text = "{\"extra\":[1,2],\"data\":{\"webrtc_data\":{\"sdp\":\"v=0\",\"more\":{}},\"session_id\":9},\"type\":\"webrtc_offer\"}";
    assert_eq!(Signal::decode(text), Ok(offer(9, None, "v=0")));
}

#[test]
fn null_stands_for_an_absent_field() {
    let text = "{\"type\":\"ice_candidate\",\"data\":{\"session_id\":5,\"webrtc_data\":{\"candidate\":\"c\",\"mid\":null,\"sdpMLineIndex\":null,\"usernameFragment\":null}}}";
    let read = Signal::decode(text);
    assert_eq!(read, Ok(candidate(5, "c", None, None, None)));
    assert_eq!(
        read.unwrap().encode(),
        "{\"type\":\"ice_candidate\",\"data\":{\"session_id\":5,\"webrtc_data\":{\"candidate\":\"c\"}}}"
    );
}

#[test]
fn decoding_what_was_encoded_gives_the_signal_back() {
    let signals = vec![
        offer(0, None, ""),
        offer(1, Some("offer"), "v=0\r\no=- 1 2 IN IP4 127.0.0.1\r\n"),
        answer(2, Some("answer"), "quotes \" and \\ backslashes and \u{1F600}"),
        answer(u64::MAX, None, "v=0"),
        candidate(3, "candidate:0", None, None, None),
        candidate(4, "candidate:1", Some("audio"), Some(u32::MAX), Some("frag")),
        candidate(5, "", Some(""), Some(0), None),
    ];
    for signal in signals {
        assert_eq!(Signal::decode(&signal.encode()), Ok(signal.clone()));
        assert_eq!(Signal::from_json(&signal.to_json()), Ok(signal));
    }
}

#[test]
fn encoding_what_was_decoded_gives_the_text_back() {
    let texts = vec![
        "{\"type\":\"webrtc_offer\",\"data\":{\"session_id\":1,\"webrtc_data\":{\"sdp\":\"v=0...\"}}}",
        "{\"type\":\"webrtc_answer\",\"data\":{\"session_id\":2,\"webrtc_data\":{\"type\":\"answer\",\"sdp\":\"v=0\"}}}",
        "{\"type\":\"ice_candidate\",\"data\":{\"session_id\":3,\"webrtc_data\":{\"candidate\":\"c\",\"sdpMLineIndex\":0}}}",
    ];
    for text in texts {
        assert_eq!(Signal::decode(text).unwrap().encode(), text);
    }
}

#[test]
fn text_that_is_not_json_is_malformed_json() {
    assert_eq!(Signal::decode(""), Err(DecodeError::MalformedJson));
    assert_eq!(Signal::decode("{\"type\":\"webrtc_offer\""), Err(DecodeError::MalformedJson));
    assert_eq!(Signal::decode("not json"), Err(DecodeError::MalformedJson));
}

#[test]
fn missing_or_unknown_discriminator_is_unknown_type() {
    assert_eq!(Signal::decode("{}"), Err(DecodeError::UnknownType));
    assert_eq!(Signal::decode("[]"), Err(DecodeError::UnknownType));
    assert_eq!(Signal::decode("null"), Err(DecodeError::UnknownType));
    assert_eq!(Signal::decode("{\"type\":7,\"data\":{}}"), Err(DecodeError::UnknownType));
    assert_eq!(
        Signal::decode("{\"type\":\"webrtc_hello\",\"data\":{\"session_id\":1,\"webrtc_data\":{\"sdp\":\"v=0\"}}}"),
        Err(DecodeError::UnknownType)
    );
}

#[test]
fn payload_of_the_wrong_shape_is_malformed_data() {
    let texts = vec![
        "{\"type\":\"webrtc_offer\"}",
        "{\"type\":\"webrtc_offer\",\"data\":7}",
        "{\"type\":\"webrtc_offer\",\"data\":{\"webrtc_data\":{\"sdp\":\"v=0\"}}}",
        "{\"type\":\"webrtc_offer\",\"data\":{\"session_id\":-1,\"webrtc_data\":{\"sdp\":\"v=0\"}}}",
        "{\"type\":\"webrtc_offer\",\"data\":{\"session_id\":1.5,\"webrtc_data\":{\"sdp\":\"v=0\"}}}",
        "{\"type\":\"webrtc_offer\",\"data\":{\"session_id\":\"1\",\"webrtc_data\":{\"sdp\":\"v=0\"}}}",
        "{\"type\":\"webrtc_offer\",\"data\":{\"session_id\":1}}",
        "{\"type\":\"webrtc_offer\",\"data\":{\"session_id\":1,\"webrtc_data\":{}}}",
        "{\"type\":\"webrtc_offer\",\"data\":{\"session_id\":1,\"webrtc_data\":{\"sdp\":null}}}",
        "{\"type\":\"webrtc_answer\",\"data\":{\"session_id\":1,\"webrtc_data\":{\"type\":1,\"sdp\":\"v=0\"}}}",
        "{\"type\":\"ice_candidate\",\"data\":{\"session_id\":1,\"webrtc_data\":{\"sdp\":\"v=0\"}}}",
        "{\"type\":\"ice_candidate\",\"data\":{\"session_id\":1,\"webrtc_data\":{\"candidate\":\"c\",\"sdpMLineIndex\":4294967296}}}",
        "{\"type\":\"ice_candidate\",\"data\":{\"session_id\":1,\"webrtc_data\":{\"candidate\":\"c\",\"sdpMLineIndex\":\"0\"}}}",
        "{\"type\":\"ice_candidate\",\"data\":{\"session_id\":1,\"webrtc_data\":{\"candidate\":\"c\",\"mid\":0}}}",
    ];
    for text in texts {
        assert_eq!(Signal::decode(text), Err(DecodeError::MalformedData), "{}", text);
    }
}

#[test]
fn signal_is_written_as_a_tree_in_the_order_of_its_fields() {
    let json = answer(6, Some("answer"), "v=0").to_json();
    let expected = Json::Object(vec![
        ("type".to_string(), Json::Text("webrtc_answer".to_string())),
        (
            "data".to_string(),
            Json::Object(vec![
                ("session_id".to_string(), Json::Number(6)),
                (
                    "webrtc_data".to_string(),
                    Json::Object(vec![
                        ("type".to_string(), Json::Text("answer".to_string())),
                        ("sdp".to_string(), Json::Text("v=0".to_string())),
                    ]),
                ),
            ]),
        ),
    ]);
    assert_eq!(json, expected);
    assert_eq!(parse(&answer(6, Some("answer"), "v=0").encode()), Some(expected));
}

#[test]
fn session_id_of_each_kind_of_signal() {
    assert_eq!(offer(11, None, "v=0").session_id(), 11);
    assert_eq!(answer(12, None, "v=0").session_id(), 12);
    assert_eq!(candidate(13, "c", None, None, None).session_id(), 13);
}
