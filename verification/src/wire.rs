//! The wire form of a signal: a JSON object with the discriminator `type`
//! and the payload `data`. An optional field that is absent is left out of
//! the object; it is never written as `null`.

use crate::json::first_member;
use crate::json::lemma_object_view;
use crate::json::parse;
use crate::json::parsed_json;
use crate::json::print;
use crate::json::printed_json;
use crate::json::view_of;
use crate::json::Json;
use crate::json::JsonValue;
use crate::signals::text_of;
use crate::signals::IceCandidateData;
use crate::signals::IceCandidateView;
use crate::signals::IceCandidateWebRtcData;
use crate::signals::Signal;
use crate::signals::SignalView;
use crate::signals::WebRtcAnswerData;
use crate::signals::WebRtcData;
use crate::signals::WebRtcDataView;
use crate::signals::WebRtcOfferData;
use vstd::prelude::*;

verus! {

/// Why a text is not a signal.
#[derive(Clone, Copy, Debug, PartialEq, Eq, Structural)]
pub enum DecodeError {
    /// The text is not JSON that `serde_json` reads: it is not well-formed,
    /// or nested too deep, or holds a number out of range.
    MalformedJson,
    /// The value has no member `type` that names a kind of signal.
    UnknownType,
    /// The member `data` is missing, or is not the payload of this kind of
    /// signal.
    MalformedData,
}

/// The member that an optional text is written as: none, where it is absent.
pub open spec fn optional_text_member(key: Seq<char>, text: Option<Seq<char>>) -> Seq<
    (Seq<char>, JsonValue),
> {
    match text {
        Some(text) => seq![(key, JsonValue::Text(text))],
        None => Seq::empty(),
    }
}

/// The member that an optional line index is written as: none, where it is
/// absent.
pub open spec fn optional_index_member(key: Seq<char>, index: Option<u32>) -> Seq<
    (Seq<char>, JsonValue),
> {
    match index {
        Some(index) => seq![(key, JsonValue::Number(index as u64))],
        None => Seq::empty(),
    }
}

/// The object that a session description is written as.
pub open spec fn description_json(description: WebRtcDataView) -> JsonValue {
    JsonValue::Object(
        optional_text_member("type"@, description.data_type) + seq![
            ("sdp"@, JsonValue::Text(description.sdp)),
        ],
    )
}

/// The object that an ICE candidate is written as.
pub open spec fn candidate_json(candidate: IceCandidateView) -> JsonValue {
    JsonValue::Object(
        seq![("candidate"@, JsonValue::Text(candidate.candidate))] + optional_text_member(
            "mid"@,
            candidate.media_id,
        ) + optional_index_member("sdpMLineIndex"@, candidate.line_index) + optional_text_member(
            "usernameFragment"@,
            candidate.username_fragment,
        ),
    )
}

/// The object that a signal of the kind `tag` is written as.
pub open spec fn message_json(tag: Seq<char>, session_id: u64, webrtc_data: JsonValue) -> JsonValue {
    JsonValue::Object(
        seq![
            ("type"@, JsonValue::Text(tag)),
            (
                "data"@,
                JsonValue::Object(
                    seq![
                        ("session_id"@, JsonValue::Number(session_id)),
                        ("webrtc_data"@, webrtc_data),
                    ],
                ),
            ),
        ],
    )
}

/// The JSON value that a signal is written as.
pub open spec fn signal_json(signal: SignalView) -> JsonValue {
    match signal {
        SignalView::Offer { session_id, description } => message_json(
            "webrtc_offer"@,
            session_id,
            description_json(description),
        ),
        SignalView::Answer { session_id, description } => message_json(
            "webrtc_answer"@,
            session_id,
            description_json(description),
        ),
        SignalView::IceCandidate { session_id, candidate } => message_json(
            "ice_candidate"@,
            session_id,
            candidate_json(candidate),
        ),
    }
}

/// An optional text as a member holds it: absent where there is no such
/// member or it is `null`, and no text at all where it is anything but a
/// string.
pub open spec fn optional_text(member: Option<JsonValue>) -> Option<Option<Seq<char>>> {
    match member {
        None => Some(None),
        Some(JsonValue::Null) => Some(None),
        Some(JsonValue::Text(text)) => Some(Some(text)),
        Some(_) => None,
    }
}

/// An optional line index as a member holds it: absent where there is no
/// such member or it is `null`, and no index at all where it is anything but
/// a whole number of 32 bits.
pub open spec fn optional_index(member: Option<JsonValue>) -> Option<Option<u32>> {
    match member {
        None => Some(None),
        Some(JsonValue::Null) => Some(None),
        Some(JsonValue::Number(n)) => if n <= u32::MAX {
            Some(Some(n as u32))
        } else {
            None
        },
        Some(_) => None,
    }
}

/// The session description that an object stands for.
pub open spec fn parsed_description(json: JsonValue) -> Option<WebRtcDataView> {
    match (optional_text(json.member("type"@)), json.member("sdp"@)) {
        (Some(data_type), Some(JsonValue::Text(sdp))) => Some(WebRtcDataView { data_type, sdp }),
        _ => None,
    }
}

/// The ICE candidate that an object stands for.
pub open spec fn parsed_candidate(json: JsonValue) -> Option<IceCandidateView> {
    match (
        json.member("candidate"@),
        optional_text(json.member("mid"@)),
        optional_index(json.member("sdpMLineIndex"@)),
        optional_text(json.member("usernameFragment"@)),
    ) {
        (
            Some(JsonValue::Text(candidate)),
            Some(media_id),
            Some(line_index),
            Some(username_fragment),
        ) => Some(IceCandidateView { candidate, media_id, line_index, username_fragment }),
        _ => None,
    }
}

/// The session id of a payload.
pub open spec fn parsed_session_id(data: JsonValue) -> Option<u64> {
    match data.member("session_id"@) {
        Some(JsonValue::Number(session_id)) => Some(session_id),
        _ => None,
    }
}

/// The signal of the kind `tag` that the payload `data` stands for.
pub open spec fn parsed_payload(tag: Seq<char>, data: JsonValue) -> Result<SignalView, DecodeError> {
    match (parsed_session_id(data), data.member("webrtc_data"@)) {
        (Some(session_id), Some(webrtc_data)) => {
            if tag == "ice_candidate"@ {
                match parsed_candidate(webrtc_data) {
                    Some(candidate) => Ok(SignalView::IceCandidate { session_id, candidate }),
                    None => Err(DecodeError::MalformedData),
                }
            } else {
                match parsed_description(webrtc_data) {
                    Some(description) => if tag == "webrtc_offer"@ {
                        Ok(SignalView::Offer { session_id, description })
                    } else {
                        Ok(SignalView::Answer { session_id, description })
                    },
                    None => Err(DecodeError::MalformedData),
                }
            }
        },
        _ => Err(DecodeError::MalformedData),
    }
}

/// Whether `tag` names a kind of signal.
pub open spec fn known_tag(tag: Seq<char>) -> bool {
    tag == "webrtc_offer"@ || tag == "webrtc_answer"@ || tag == "ice_candidate"@
}

/// The signal that a JSON value stands for, or why it stands for none.
pub open spec fn parsed_signal(json: JsonValue) -> Result<SignalView, DecodeError> {
    match json.member("type"@) {
        Some(JsonValue::Text(tag)) if known_tag(tag) => match json.member("data"@) {
            Some(data) => parsed_payload(tag, data),
            None => Err(DecodeError::MalformedData),
        },
        _ => Err(DecodeError::UnknownType),
    }
}

/// The signal that a text stands for, or why it stands for none: the text
/// is read as JSON, and the value as a signal.
pub open spec fn decoded(text: Seq<char>) -> Result<SignalView, DecodeError> {
    match parsed_json(text) {
        Some(json) => parsed_signal(json),
        None => Err(DecodeError::MalformedJson),
    }
}

/// The text that a signal travels as: its JSON value, written compactly.
pub open spec fn encoded(signal: SignalView) -> Seq<char> {
    printed_json(signal_json(signal))
}

/// The names of the members and of the kinds of signal are told apart.
pub proof fn lemma_names_differ()
    ensures
        "type"@ != "data"@,
        "type"@ != "sdp"@,
        "session_id"@ != "webrtc_data"@,
        "candidate"@ != "mid"@,
        "candidate"@ != "sdpMLineIndex"@,
        "candidate"@ != "usernameFragment"@,
        "mid"@ != "sdpMLineIndex"@,
        "mid"@ != "usernameFragment"@,
        "sdpMLineIndex"@ != "usernameFragment"@,
        "webrtc_offer"@ != "webrtc_answer"@,
        "webrtc_offer"@ != "ice_candidate"@,
        "webrtc_answer"@ != "ice_candidate"@,
{
    reveal_strlit("type");
    reveal_strlit("data");
    reveal_strlit("sdp");
    reveal_strlit("session_id");
    reveal_strlit("webrtc_data");
    reveal_strlit("candidate");
    reveal_strlit("mid");
    reveal_strlit("sdpMLineIndex");
    reveal_strlit("usernameFragment");
    reveal_strlit("webrtc_offer");
    reveal_strlit("webrtc_answer");
    reveal_strlit("ice_candidate");
    assert("type"@[0] != "data"@[0]);
    assert("type"@.len() != "sdp"@.len());
    assert("session_id"@.len() != "webrtc_data"@.len());
    assert("candidate"@.len() == 9 && "mid"@.len() == 3);
    assert("sdpMLineIndex"@.len() == 13 && "usernameFragment"@.len() == 16);
    assert("webrtc_offer"@.len() != "webrtc_answer"@.len());
    assert("webrtc_offer"@.len() != "ice_candidate"@.len());
    assert("webrtc_answer"@[0] != "ice_candidate"@[0]);
}

/// A member is looked for in the first of two lists of members, then in the
/// second.
pub proof fn lemma_first_member_of_both(
    first: Seq<(Seq<char>, JsonValue)>,
    second: Seq<(Seq<char>, JsonValue)>,
    key: Seq<char>,
)
    ensures
        first_member(first + second, key) == (match first_member(first, key) {
            Some(value) => Some(value),
            None => first_member(second, key),
        }),
    decreases first.len(),
{
    if first.len() == 0 {
        assert(first + second =~= second);
    } else {
        assert((first + second).drop_first() =~= first.drop_first() + second);
        lemma_first_member_of_both(first.drop_first(), second, key);
    }
}

/// What a list of one member holds under `key`.
pub proof fn lemma_first_member_of_one(name: Seq<char>, value: JsonValue, key: Seq<char>)
    ensures
        first_member(seq![(name, value)], key) == (if name == key {
            Some(value)
        } else {
            None
        }),
{
    reveal_with_fuel(first_member, 2);
    assert(seq![(name, value)].drop_first() =~= Seq::empty());
}

/// What the member of an optional text holds under `key`.
pub proof fn lemma_optional_text_member(name: Seq<char>, text: Option<Seq<char>>, key: Seq<char>)
    ensures
        first_member(optional_text_member(name, text), key) == (match text {
            Some(text) if name == key => Some(JsonValue::Text(text)),
            _ => None,
        }),
{
    match text {
        Some(text) => lemma_first_member_of_one(name, JsonValue::Text(text), key),
        None => {},
    }
}

/// What the member of an optional line index holds under `key`.
pub proof fn lemma_optional_index_member(name: Seq<char>, index: Option<u32>, key: Seq<char>)
    ensures
        first_member(optional_index_member(name, index), key) == (match index {
            Some(index) if name == key => Some(JsonValue::Number(index as u64)),
            _ => None,
        }),
{
    match index {
        Some(index) => lemma_first_member_of_one(name, JsonValue::Number(index as u64), key),
        None => {},
    }
}

/// A session description is read back from the object that it is written
/// as. An absent `type` is no member of that object.
pub proof fn lemma_description_round_trip(description: WebRtcDataView)
    ensures
        parsed_description(description_json(description)) == Some(description),
        description_json(description).member("type"@) is Some <==> description.data_type is Some,
{
    lemma_names_differ();
    let optional = optional_text_member("type"@, description.data_type);
    let sdp = seq![("sdp"@, JsonValue::Text(description.sdp))];
    lemma_first_member_of_both(optional, sdp, "type"@);
    lemma_first_member_of_both(optional, sdp, "sdp"@);
    lemma_optional_text_member("type"@, description.data_type, "type"@);
    lemma_optional_text_member("type"@, description.data_type, "sdp"@);
    lemma_first_member_of_one("sdp"@, JsonValue::Text(description.sdp), "type"@);
    lemma_first_member_of_one("sdp"@, JsonValue::Text(description.sdp), "sdp"@);
}

/// An ICE candidate is read back from the object that it is written as. An
/// absent field is no member of that object.
pub proof fn lemma_candidate_round_trip(candidate: IceCandidateView)
    ensures
        parsed_candidate(candidate_json(candidate)) == Some(candidate),
        candidate_json(candidate).member("mid"@) is Some <==> candidate.media_id is Some,
        candidate_json(candidate).member("sdpMLineIndex"@) is Some
            <==> candidate.line_index is Some,
        candidate_json(candidate).member("usernameFragment"@) is Some
            <==> candidate.username_fragment is Some,
{
    lemma_names_differ();
    let first = seq![("candidate"@, JsonValue::Text(candidate.candidate))];
    let mid = optional_text_member("mid"@, candidate.media_id);
    let index = optional_index_member("sdpMLineIndex"@, candidate.line_index);
    let fragment = optional_text_member("usernameFragment"@, candidate.username_fragment);
    assert forall|key: Seq<char>|
        first_member(first + mid + index + fragment, key) == if key == "candidate"@ {
            Some(JsonValue::Text(candidate.candidate))
        } else if key == "mid"@ {
            first_member(mid, key)
        } else if key == "sdpMLineIndex"@ {
            first_member(index, key)
        } else if key == "usernameFragment"@ {
            first_member(fragment, key)
        } else {
            None
        } by {
        lemma_first_member_of_both(first + mid + index, fragment, key);
        lemma_first_member_of_both(first + mid, index, key);
        lemma_first_member_of_both(first, mid, key);
        lemma_first_member_of_one("candidate"@, JsonValue::Text(candidate.candidate), key);
        lemma_optional_text_member("mid"@, candidate.media_id, key);
        lemma_optional_index_member("sdpMLineIndex"@, candidate.line_index, key);
        lemma_optional_text_member("usernameFragment"@, candidate.username_fragment, key);
    }
    lemma_optional_text_member("mid"@, candidate.media_id, "mid"@);
    lemma_optional_index_member("sdpMLineIndex"@, candidate.line_index, "sdpMLineIndex"@);
    lemma_optional_text_member(
        "usernameFragment"@,
        candidate.username_fragment,
        "usernameFragment"@,
    );
}

/// What the object of a signal holds: its kind under `type`, and under
/// `data` the session id and the payload.
pub proof fn lemma_message_members(tag: Seq<char>, session_id: u64, webrtc_data: JsonValue)
    ensures
        message_json(tag, session_id, webrtc_data).member("type"@) == Some(JsonValue::Text(tag)),
        message_json(tag, session_id, webrtc_data).member("data"@) is Some,
        parsed_session_id(message_json(tag, session_id, webrtc_data).member("data"@).unwrap())
            == Some(session_id),
        message_json(tag, session_id, webrtc_data).member("data"@).unwrap().member(
            "webrtc_data"@,
        ) == Some(webrtc_data),
{
    lemma_names_differ();
    reveal_with_fuel(first_member, 3);
    let inner = seq![
        ("session_id"@, JsonValue::Number(session_id)),
        ("webrtc_data"@, webrtc_data),
    ];
    let outer = seq![("type"@, JsonValue::Text(tag)), ("data"@, JsonValue::Object(inner))];
    assert(outer.drop_first() =~= seq![("data"@, JsonValue::Object(inner))]);
    assert(inner.drop_first() =~= seq![("webrtc_data"@, webrtc_data)]);
}

/// Reading what was written gives the signal back: every signal is read
/// from the JSON value that it is written as.
pub proof fn lemma_signal_round_trip(signal: SignalView)
    ensures
        parsed_signal(signal_json(signal)) == Ok::<SignalView, DecodeError>(signal),
{
    lemma_names_differ();
    match signal {
        SignalView::Offer { session_id, description } => {
            lemma_message_members("webrtc_offer"@, session_id, description_json(description));
            lemma_description_round_trip(description);
        },
        SignalView::Answer { session_id, description } => {
            lemma_message_members("webrtc_answer"@, session_id, description_json(description));
            lemma_description_round_trip(description);
        },
        SignalView::IceCandidate { session_id, candidate } => {
            lemma_message_members("ice_candidate"@, session_id, candidate_json(candidate));
            lemma_candidate_round_trip(candidate);
        },
    }
}

/// The JSON value of a signal is plain: it holds no number as text, and no
/// object in it has two members of one key.
pub proof fn lemma_signal_json_is_plain(signal: SignalView)
    ensures
        signal_json(signal).plain(),
{
    lemma_names_differ();
    reveal_with_fuel(JsonValue::plain, 4);
    match signal {
        SignalView::Offer { description, .. } => {
            assert(description_json(description).plain());
        },
        SignalView::Answer { description, .. } => {
            assert(description_json(description).plain());
        },
        SignalView::IceCandidate { candidate, .. } => {
            assert(candidate_json(candidate).plain());
        },
    }
}

/// The payload of a signal, as its JSON value holds it.
pub open spec fn payload_of(json: JsonValue) -> JsonValue
    recommends
        json.member("data"@) is Some,
        json.member("data"@).unwrap().member("webrtc_data"@) is Some,
{
    json.member("data"@).unwrap().member("webrtc_data"@).unwrap()
}

/// The optional fields of a signal, in the order in which they are written,
/// each with the name of its member.
pub open spec fn optional_fields(signal: SignalView) -> Seq<(Seq<char>, bool)> {
    match signal {
        SignalView::Offer { description, .. } => seq![
            ("type"@, description.data_type is Some),
        ],
        SignalView::Answer { description, .. } => seq![
            ("type"@, description.data_type is Some),
        ],
        SignalView::IceCandidate { candidate, .. } => seq![
            ("mid"@, candidate.media_id is Some),
            ("sdpMLineIndex"@, candidate.line_index is Some),
            ("usernameFragment"@, candidate.username_fragment is Some),
        ],
    }
}

/// An optional field is a member of the written payload if and only if it
/// is present; so what was absent when a value was read is absent again
/// when the signal is written.
pub proof fn lemma_absent_fields_are_left_out(signal: SignalView)
    ensures
        forall|i: int|
            0 <= i < optional_fields(signal).len() ==> (payload_of(signal_json(signal)).member(
                #[trigger] optional_fields(signal)[i].0,
            ) is Some <==> optional_fields(signal)[i].1),
{
    match signal {
        SignalView::Offer { session_id, description } => {
            lemma_message_members("webrtc_offer"@, session_id, description_json(description));
            lemma_description_round_trip(description);
        },
        SignalView::Answer { session_id, description } => {
            lemma_message_members("webrtc_answer"@, session_id, description_json(description));
            lemma_description_round_trip(description);
        },
        SignalView::IceCandidate { session_id, candidate } => {
            lemma_message_members("ice_candidate"@, session_id, candidate_json(candidate));
            lemma_candidate_round_trip(candidate);
        },
    }
}

/// Whether a member stands for an absent field: there is none, or it is
/// `null`.
pub open spec fn absent(member: Option<JsonValue>) -> bool {
    member is None || member == Some(JsonValue::Null)
}

/// Writing what was read gives the same signal: the value that is written
/// for a signal that was read stands for that signal again. And an optional
/// field that was absent in the value that was read is no member of the
/// value that is written.
pub proof fn lemma_reading_then_writing(json: JsonValue)
    requires
        parsed_signal(json) is Ok,
    ensures
        ({
            let signal = parsed_signal(json).unwrap();
            let written = signal_json(signal);
            &&& parsed_signal(written) == parsed_signal(json)
            &&& forall|i: int|
                0 <= i < optional_fields(signal).len() && absent(
                    payload_of(json).member(#[trigger] optional_fields(signal)[i].0),
                ) ==> payload_of(written).member(optional_fields(signal)[i].0) is None
        }),
{
    let signal = parsed_signal(json).unwrap();
    lemma_signal_round_trip(signal);
    lemma_absent_fields_are_left_out(signal);
    lemma_names_differ();
}

/// What the result of reading a signal holds.
pub open spec fn signal_result_view(r: Result<Signal, DecodeError>) -> Result<
    SignalView,
    DecodeError,
> {
    match r {
        Ok(signal) => Ok(signal@),
        Err(e) => Err(e),
    }
}

/// Whether `text` is the text of `literal`.
fn is_text(text: &String, literal: &str) -> (r: bool)
    ensures
        r == (text@ == literal@),
{
    *text == literal.to_owned()
}

/// The member `key` with the value `text`.
fn text_member(key: &str, text: &String) -> (member: (String, Json))
    ensures
        member.0@ == key@,
        member.1@ == JsonValue::Text(text@),
{
    (key.to_owned(), Json::Text(text.clone()))
}

/// The object that a session description is written as.
fn description_to_json(description: &WebRtcData) -> (json: Json)
    ensures
        json@ == description_json(description@),
{
    let mut members: Vec<(String, Json)> = Vec::new();
    if let Some(data_type) = &description.data_type {
        members.push(text_member("type", data_type));
    }
    members.push(text_member("sdp", &description.sdp));
    proof {
        lemma_object_view(members);
        assert(Json::Object(members)@->Object_0 =~= description_json(
            description@,
        )->Object_0);
    }
    Json::Object(members)
}

/// The object that an ICE candidate is written as.
fn candidate_to_json(candidate: &IceCandidateWebRtcData) -> (json: Json)
    ensures
        json@ == candidate_json(candidate@),
{
    let mut members: Vec<(String, Json)> = Vec::new();
    members.push(text_member("candidate", &candidate.candidate));
    if let Some(media_id) = &candidate.media_id {
        members.push(text_member("mid", media_id));
    }
    if let Some(line_index) = candidate.line_index {
        members.push(("sdpMLineIndex".to_owned(), Json::Number(line_index as u64)));
    }
    if let Some(username_fragment) = &candidate.username_fragment {
        members.push(text_member("usernameFragment", username_fragment));
    }
    proof {
        lemma_object_view(members);
        assert(Json::Object(members)@->Object_0 =~= candidate_json(candidate@)->Object_0);
    }
    Json::Object(members)
}

/// The object that a signal of the kind `tag` is written as.
fn message_to_json(tag: &str, session_id: u64, webrtc_data: Json) -> (json: Json)
    ensures
        json@ == message_json(tag@, session_id, webrtc_data@),
{
    let mut payload: Vec<(String, Json)> = Vec::new();
    payload.push(("session_id".to_owned(), Json::Number(session_id)));
    payload.push(("webrtc_data".to_owned(), webrtc_data));
    proof {
        lemma_object_view(payload);
        assert(Json::Object(payload)@->Object_0 =~= seq![
            ("session_id"@, JsonValue::Number(session_id)),
            ("webrtc_data"@, webrtc_data@),
        ]);
    }
    let mut members: Vec<(String, Json)> = Vec::new();
    members.push(("type".to_owned(), Json::Text(tag.to_owned())));
    members.push(("data".to_owned(), Json::Object(payload)));
    proof {
        lemma_object_view(members);
        assert(Json::Object(members)@->Object_0 =~= message_json(
            tag@,
            session_id,
            webrtc_data@,
        )->Object_0);
    }
    Json::Object(members)
}

/// An optional text as a member holds it; `None` where the member is
/// neither absent, nor `null`, nor a string.
fn optional_text_of(member: Option<&Json>) -> (r: Option<Option<String>>)
    ensures
        (match r {
            Some(text) => optional_text(view_of(member)) == Some(text_of(text)),
            None => optional_text(view_of(member)) is None,
        }),
{
    match member {
        None => Some(None),
        Some(Json::Null) => Some(None),
        Some(Json::Text(text)) => Some(Some(text.clone())),
        Some(_) => None,
    }
}

/// An optional line index as a member holds it; `None` where the member is
/// neither absent, nor `null`, nor a whole number of 32 bits.
fn optional_index_of(member: Option<&Json>) -> (r: Option<Option<u32>>)
    ensures
        r == optional_index(view_of(member)),
{
    match member {
        None => Some(None),
        Some(Json::Null) => Some(None),
        Some(Json::Number(n)) => {
            if *n <= 0xffff_ffff {
                Some(Some(*n as u32))
            } else {
                None
            }
        },
        Some(_) => None,
    }
}

/// The session description that an object stands for.
fn description_from_json(json: &Json) -> (r: Option<WebRtcData>)
    ensures
        (match r {
            Some(description) => parsed_description(json@) == Some(description@),
            None => parsed_description(json@) is None,
        }),
{
    let data_type = match optional_text_of(json.get("type")) {
        Some(data_type) => data_type,
        None => {
            return None;
        },
    };
    match json.get("sdp") {
        Some(Json::Text(sdp)) => Some(WebRtcData { data_type, sdp: sdp.clone() }),
        _ => None,
    }
}

/// The ICE candidate that an object stands for.
fn candidate_from_json(json: &Json) -> (r: Option<IceCandidateWebRtcData>)
    ensures
        (match r {
            Some(candidate) => parsed_candidate(json@) == Some(candidate@),
            None => parsed_candidate(json@) is None,
        }),
{
    let candidate = match json.get("candidate") {
        Some(Json::Text(candidate)) => candidate.clone(),
        _ => {
            return None;
        },
    };
    let media_id = match optional_text_of(json.get("mid")) {
        Some(media_id) => media_id,
        None => {
            return None;
        },
    };
    let line_index = match optional_index_of(json.get("sdpMLineIndex")) {
        Some(line_index) => line_index,
        None => {
            return None;
        },
    };
    let username_fragment = match optional_text_of(json.get("usernameFragment")) {
        Some(username_fragment) => username_fragment,
        None => {
            return None;
        },
    };
    Some(IceCandidateWebRtcData { candidate, media_id, line_index, username_fragment })
}

impl Signal {
    /// The JSON value that the signal is written as.
    pub fn to_json(&self) -> (json: Json)
        ensures
            json@ == signal_json(self@),
    {
        match self {
            Signal::WebRtcOffer { data } => message_to_json(
                "webrtc_offer",
                data.session_id,
                description_to_json(&data.webrtc_data),
            ),
            Signal::WebRtcAnswer { data } => message_to_json(
                "webrtc_answer",
                data.session_id,
                description_to_json(&data.webrtc_data),
            ),
            Signal::IceCandidate { data } => message_to_json(
                "ice_candidate",
                data.session_id,
                candidate_to_json(&data.webrtc_data),
            ),
        }
    }

    /// The signal that a JSON value stands for. Members that a signal does
    /// not have are passed over.
    pub fn from_json(json: &Json) -> (r: Result<Signal, DecodeError>)
        ensures
            signal_result_view(r) == parsed_signal(json@),
    {
        let tag = match json.get("type") {
            Some(Json::Text(tag)) => tag,
            _ => {
                return Err(DecodeError::UnknownType);
            },
        };
        let offer = is_text(tag, "webrtc_offer");
        let answer = is_text(tag, "webrtc_answer");
        let candidate = is_text(tag, "ice_candidate");
        if !offer && !answer && !candidate {
            return Err(DecodeError::UnknownType);
        }
        proof {
            lemma_names_differ();
        }
        let data = match json.get("data") {
            Some(data) => data,
            None => {
                return Err(DecodeError::MalformedData);
            },
        };
        let session_id = match data.get("session_id") {
            Some(Json::Number(session_id)) => *session_id,
            _ => {
                return Err(DecodeError::MalformedData);
            },
        };
        let webrtc_data = match data.get("webrtc_data") {
            Some(webrtc_data) => webrtc_data,
            None => {
                return Err(DecodeError::MalformedData);
            },
        };
        if candidate {
            match candidate_from_json(webrtc_data) {
                Some(webrtc_data) => Ok(
                    Signal::IceCandidate { data: IceCandidateData { session_id, webrtc_data } },
                ),
                None => Err(DecodeError::MalformedData),
            }
        } else {
            match description_from_json(webrtc_data) {
                Some(webrtc_data) => {
                    if offer {
                        Ok(Signal::WebRtcOffer { data: WebRtcOfferData { session_id, webrtc_data } })
                    } else {
                        Ok(
                            Signal::WebRtcAnswer {
                                data: WebRtcAnswerData { session_id, webrtc_data },
                            },
                        )
                    }
                },
                None => Err(DecodeError::MalformedData),
            }
        }
    }

    /// The text that the signal travels as: its JSON value, written
    /// compactly.
    pub fn encode(&self) -> (text: String)
        ensures
            text@ == encoded(self@),
    {
        let json = self.to_json();
        proof {
            lemma_signal_json_is_plain(self@);
        }
        print(&json)
    }

    /// The signal that a text stands for: the text is read as JSON, and the
    /// value as a signal.
    pub fn decode(text: &str) -> (r: Result<Signal, DecodeError>)
        ensures
            signal_result_view(r) == decoded(text@),
    {
        match parse(text) {
            Some(json) => Signal::from_json(&json),
            None => Err(DecodeError::MalformedJson),
        }
    }
}

} // verus!
