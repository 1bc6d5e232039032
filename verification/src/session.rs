//! The negotiation engine: the state of one session, what it asks of the
//! media engine and what it sends to the peer, for each signal that arrives
//! and each event that the media engine reports.
//!
//! The media engine itself is not here. Every operation returns the list of
//! [`Action`]s that its caller is to carry out, in order, and the caller
//! reports what the engine did through the `on_...` operations.

use crate::signals::text_of;
use crate::signals::IceCandidateData;
use crate::signals::IceCandidateView;
use crate::signals::IceCandidateWebRtcData;
use crate::signals::Signal;
use crate::signals::SignalView;
use crate::signals::WebRtcAnswerData;
use crate::signals::WebRtcData;
use crate::signals::WebRtcDataView;
use crate::text::decimal;
use crate::text::decimal_text;
use vstd::prelude::*;

verus! {

/// The size of the jitter buffer that a peer connection is made with, in
/// milliseconds.
pub const JITTER_BUFFER_LATENCY_MS: u32 = 30;

/// Where the offer/answer exchange stands, as the media engine reports it.
#[derive(Clone, Copy, Debug, PartialEq, Eq, Structural)]
pub enum SignalingState {
    Stable,
    Closed,
    HaveLocalOffer,
    HaveRemoteOffer,
    HaveLocalPranswer,
    HaveRemotePranswer,
}

/// Where the ICE connectivity checks stand, as the media engine reports it.
#[derive(Clone, Copy, Debug, PartialEq, Eq, Structural)]
pub enum IceConnectionState {
    New,
    Checking,
    Connected,
    Completed,
    Failed,
    Disconnected,
    Closed,
}

/// Where the peer connection stands, as the media engine reports it.
#[derive(Clone, Copy, Debug, PartialEq, Eq, Structural)]
pub enum PeerConnectionState {
    New,
    Connecting,
    Connected,
    Disconnected,
    Failed,
    Closed,
}

/// Which side of the exchange a session description is.
#[derive(Clone, Copy, Debug, PartialEq, Eq, Structural)]
pub enum SdpKind {
    Offer,
    Answer,
}

/// How media streams share transports.
#[derive(Clone, Copy, Debug, PartialEq, Eq, Structural)]
pub enum BundlePolicy {
    Balanced,
    MaxCompat,
    MaxBundle,
}

/// What a peer connection is made with.
#[derive(Clone, Copy, Debug, PartialEq, Eq, Structural)]
pub struct PeerConnectionConfig {
    pub jitter_buffer_latency_ms: u32,
    pub bundle_policy: BundlePolicy,
}

/// An event of the media engine that a session listens to.
#[derive(Clone, Copy, Debug, PartialEq, Eq, Structural)]
pub enum EngineSignal {
    /// The engine found a local ICE candidate.
    IceCandidate,
    /// The peer opened a data channel.
    DataChannel,
    ConnectionStateChanged,
    IceConnectionStateChanged,
    SignalingStateChanged,
}

/// Why a negotiation step failed. The session stays as it was and nothing is
/// sent to the peer.
#[derive(Clone, Copy, Debug, PartialEq, Eq, Structural)]
pub enum NegotiationError {
    /// The remote offer's session description does not parse.
    MalformedOffer,
    /// The remote answer's session description does not parse.
    MalformedAnswer,
    /// The media engine made no answer, or reported an error.
    AnswerGenerationFailed,
}

/// What the media engine replied to a request for an answer.
#[derive(Clone, Debug, PartialEq, Eq)]
pub enum AnswerReply {
    /// An answer, with the text of its session description.
    Answer { sdp: String },
    /// A reply without content.
    Empty,
    /// The request failed in the engine.
    Failed,
    /// A reply that holds no answer.
    NoAnswer,
}

/// What an [`AnswerReply`] holds.
pub ghost enum AnswerReplyView {
    Answer { sdp: Seq<char> },
    Empty,
    Failed,
    NoAnswer,
}

impl View for AnswerReply {
    type V = AnswerReplyView;

    open spec fn view(&self) -> AnswerReplyView {
        match self {
            AnswerReply::Answer { sdp } => AnswerReplyView::Answer { sdp: sdp@ },
            AnswerReply::Empty => AnswerReplyView::Empty,
            AnswerReply::Failed => AnswerReplyView::Failed,
            AnswerReply::NoAnswer => AnswerReplyView::NoAnswer,
        }
    }
}

/// A fault that the media engine reports on its bus: a fault of transport,
/// not of the negotiation.
#[derive(Clone, Debug, PartialEq, Eq)]
pub struct EngineFault {
    /// The path of the element that reported the fault, if it is known.
    pub source: Option<String>,
    pub error: String,
    pub debug: Option<String>,
}

/// What an [`EngineFault`] holds.
pub ghost struct EngineFaultView {
    pub source: Option<Seq<char>>,
    pub error: Seq<char>,
    pub debug: Option<Seq<char>>,
}

impl View for EngineFault {
    type V = EngineFaultView;

    open spec fn view(&self) -> EngineFaultView {
        EngineFaultView {
            source: text_of(self.source),
            error: self.error@,
            debug: text_of(self.debug),
        }
    }
}

/// A message on the bus of the media engine.
#[derive(Clone, Debug, PartialEq, Eq)]
pub enum BusMessage {
    Error(EngineFault),
    /// The end of the stream.
    Eos,
    /// Any other message.
    Other,
}

/// What a [`BusMessage`] holds.
pub ghost enum BusMessageView {
    Error(EngineFaultView),
    Eos,
    Other,
}

impl View for BusMessage {
    type V = BusMessageView;

    open spec fn view(&self) -> BusMessageView {
        match self {
            BusMessage::Error(fault) => BusMessageView::Error(fault@),
            BusMessage::Eos => BusMessageView::Eos,
            BusMessage::Other => BusMessageView::Other,
        }
    }
}

/// Whether the bus of the media engine is watched on.
#[derive(Clone, Copy, Debug, PartialEq, Eq, Structural)]
pub enum BusWatch {
    Continue,
    Break,
}

/// The report of a fault on the bus of the session `session_id`. A source
/// that is not known reads `(unknown)`, and debug information that is
/// missing `no debug info`.
pub open spec fn bus_error_report(session_id: u64, fault: EngineFaultView) -> Seq<char> {
    "[WebRTC Session "@ + decimal_text(session_id as nat) + "] BUS ERROR from "@ + (match fault.source {
        Some(source) => source,
        None => "(unknown)"@,
    }) + " - "@ + fault.error + "\n  "@ + (match fault.debug {
        Some(debug) => debug,
        None => "no debug info"@,
    })
}

/// What the media engine reports to a session.
#[derive(Clone, Debug, PartialEq, Eq)]
pub enum EngineEvent {
    /// The engine found a local ICE candidate for a media line.
    LocalIceCandidate { candidate: String, line_index: u32 },
    /// The peer opened a data channel.
    DataChannel { label: String },
    ConnectionState { connection: PeerConnectionState },
    IceConnectionState { ice: IceConnectionState },
    SignalingState { signaling: SignalingState },
    /// The engine replied to a request for an answer.
    LocalAnswer { reply: AnswerReply },
    /// The engine could not be made or set running, or its bus could not be
    /// watched.
    StartFailed,
}

/// What an [`EngineEvent`] holds.
pub ghost enum EngineEventView {
    LocalIceCandidate { candidate: Seq<char>, line_index: u32 },
    DataChannel { label: Seq<char> },
    ConnectionState { connection: PeerConnectionState },
    IceConnectionState { ice: IceConnectionState },
    SignalingState { signaling: SignalingState },
    LocalAnswer { reply: AnswerReplyView },
    StartFailed,
}

impl View for EngineEvent {
    type V = EngineEventView;

    open spec fn view(&self) -> EngineEventView {
        match self {
            EngineEvent::LocalIceCandidate { candidate, line_index } => {
                EngineEventView::LocalIceCandidate {
                    candidate: candidate@,
                    line_index: *line_index,
                }
            },
            EngineEvent::DataChannel { label } => EngineEventView::DataChannel { label: label@ },
            EngineEvent::ConnectionState { connection } => EngineEventView::ConnectionState {
                connection: *connection,
            },
            EngineEvent::IceConnectionState { ice } => EngineEventView::IceConnectionState {
                ice: *ice,
            },
            EngineEvent::SignalingState { signaling } => EngineEventView::SignalingState {
                signaling: *signaling,
            },
            EngineEvent::LocalAnswer { reply } => EngineEventView::LocalAnswer { reply: reply@ },
            EngineEvent::StartFailed => EngineEventView::StartFailed,
        }
    }
}

/// One thing for the caller to do: a command to the media engine, or a
/// signal to send to the peer.
#[derive(Clone, Debug, PartialEq, Eq)]
pub enum Action {
    /// Make the peer connection, in a pipeline of this name.
    CreatePeerConnection { config: PeerConnectionConfig, pipeline: String },
    /// Set the engine running.
    StartPipeline,
    /// Have the engine's bus messages reported.
    WatchBus,
    /// Have this event of the engine reported.
    Subscribe { event: EngineSignal },
    SetRemoteDescription { kind: SdpKind, sdp: String },
    /// Ask the engine for an answer; its reply goes to `on_local_answer`.
    CreateAnswer,
    SetLocalDescription { kind: SdpKind, sdp: String },
    AddIceCandidate { line_index: u32, candidate: String },
    /// Send this signal to the peer.
    Send { signal: Signal },
    /// Tell the engine that the session ends.
    End,
    /// Discard the engine and what watches it.
    Destroy,
}

/// What an [`Action`] holds.
pub ghost enum ActionView {
    CreatePeerConnection { config: PeerConnectionConfig, pipeline: Seq<char> },
    StartPipeline,
    WatchBus,
    Subscribe { event: EngineSignal },
    SetRemoteDescription { kind: SdpKind, sdp: Seq<char> },
    CreateAnswer,
    SetLocalDescription { kind: SdpKind, sdp: Seq<char> },
    AddIceCandidate { line_index: u32, candidate: Seq<char> },
    Send { signal: SignalView },
    End,
    Destroy,
}

impl View for Action {
    type V = ActionView;

    open spec fn view(&self) -> ActionView {
        match self {
            Action::CreatePeerConnection { config, pipeline } => ActionView::CreatePeerConnection {
                config: *config,
                pipeline: pipeline@,
            },
            Action::StartPipeline => ActionView::StartPipeline,
            Action::WatchBus => ActionView::WatchBus,
            Action::Subscribe { event } => ActionView::Subscribe { event: *event },
            Action::SetRemoteDescription { kind, sdp } => ActionView::SetRemoteDescription {
                kind: *kind,
                sdp: sdp@,
            },
            Action::CreateAnswer => ActionView::CreateAnswer,
            Action::SetLocalDescription { kind, sdp } => ActionView::SetLocalDescription {
                kind: *kind,
                sdp: sdp@,
            },
            Action::AddIceCandidate { line_index, candidate } => ActionView::AddIceCandidate {
                line_index: *line_index,
                candidate: candidate@,
            },
            Action::Send { signal } => ActionView::Send { signal: signal@ },
            Action::End => ActionView::End,
            Action::Destroy => ActionView::Destroy,
        }
    }
}

/// What a list of actions holds, action by action.
pub open spec fn action_views(actions: Seq<Action>) -> Seq<ActionView> {
    actions.map_values(|a: Action| a@)
}

/// The state of one session.
pub ghost struct SessionView {
    pub session_id: u64,
    pub signaling_state: SignalingState,
    pub connection_state: PeerConnectionState,
    pub ice_connection_state: IceConnectionState,
    /// Whether the session has been stopped.
    pub ended: bool,
}

impl SessionView {
    /// A session as `start` makes it: running, with every state at its
    /// first value.
    pub open spec fn started(session_id: u64) -> SessionView {
        SessionView {
            session_id,
            signaling_state: SignalingState::Stable,
            connection_state: PeerConnectionState::New,
            ice_connection_state: IceConnectionState::New,
            ended: false,
        }
    }

    /// The session once it is stopped.
    pub open spec fn stopped(self) -> SessionView {
        SessionView { ended: true, ..self }
    }

    /// What stopping the session asks for: the teardown, the first time.
    pub open spec fn stop_actions(self) -> Seq<ActionView> {
        if self.ended {
            Seq::empty()
        } else {
            teardown_actions()
        }
    }

    /// What a remote offer that parses asks for.
    pub open spec fn remote_offer_actions(self, sdp: Seq<char>) -> Seq<ActionView> {
        if self.ended {
            Seq::empty()
        } else {
            seq![
                ActionView::SetRemoteDescription { kind: SdpKind::Offer, sdp },
                ActionView::CreateAnswer,
            ]
        }
    }

    /// What a remote offer asks for, or the error that it amounts to: one
    /// that does not parse is `MalformedOffer`.
    pub open spec fn remote_offer_outcome(self, sdp: Seq<char>, sdp_parses: bool) -> Result<
        Seq<ActionView>,
        NegotiationError,
    > {
        if sdp_parses {
            Ok(self.remote_offer_actions(sdp))
        } else {
            Err(NegotiationError::MalformedOffer)
        }
    }

    /// What a remote answer that parses asks for.
    pub open spec fn remote_answer_actions(self, sdp: Seq<char>) -> Seq<ActionView> {
        if self.ended {
            Seq::empty()
        } else {
            seq![ActionView::SetRemoteDescription { kind: SdpKind::Answer, sdp }]
        }
    }

    /// What a remote answer asks for, or the error that it amounts to: one
    /// that does not parse is `MalformedAnswer`.
    pub open spec fn remote_answer_outcome(self, sdp: Seq<char>, sdp_parses: bool) -> Result<
        Seq<ActionView>,
        NegotiationError,
    > {
        if sdp_parses {
            Ok(self.remote_answer_actions(sdp))
        } else {
            Err(NegotiationError::MalformedAnswer)
        }
    }

    /// What a remote ICE candidate asks for: nothing without a line index.
    pub open spec fn remote_candidate_actions(self, candidate: IceCandidateView) -> Seq<
        ActionView,
    > {
        match candidate.line_index {
            Some(line_index) if !self.ended => seq![
                ActionView::AddIceCandidate { line_index, candidate: candidate.candidate },
            ],
            _ => Seq::empty(),
        }
    }

    /// What an answer of the engine asks for.
    pub open spec fn local_answer_actions(self, sdp: Seq<char>) -> Seq<ActionView> {
        seq![
            ActionView::SetLocalDescription { kind: SdpKind::Answer, sdp },
            ActionView::Send { signal: answer_signal(self.session_id, sdp) },
        ]
    }

    /// What the engine's reply to a request for an answer asks for, or the
    /// error that it amounts to. A stopped session takes no notice of it.
    pub open spec fn local_answer_outcome(self, reply: AnswerReplyView) -> Result<
        Seq<ActionView>,
        NegotiationError,
    > {
        if self.ended {
            Ok(Seq::empty())
        } else {
            match reply {
                AnswerReplyView::Answer { sdp } => Ok(self.local_answer_actions(sdp)),
                _ => Err(NegotiationError::AnswerGenerationFailed),
            }
        }
    }

    /// What a local ICE candidate asks for.
    pub open spec fn local_candidate_actions(self, candidate: Seq<char>, line_index: u32) -> Seq<
        ActionView,
    > {
        if self.ended {
            Seq::empty()
        } else {
            seq![
                ActionView::Send {
                    signal: candidate_signal(self.session_id, candidate, line_index),
                },
            ]
        }
    }

    /// The session after the engine has reported a peer connection state: the
    /// state is recorded, and `Failed` stops the session.
    pub open spec fn connection_state_changed(self, state: PeerConnectionState) -> SessionView {
        if self.ended {
            self
        } else {
            SessionView {
                connection_state: state,
                ended: state == PeerConnectionState::Failed,
                ..self
            }
        }
    }

    /// What a reported peer connection state asks for: the teardown, where a
    /// running session hears of `Failed`.
    pub open spec fn connection_state_actions(self, state: PeerConnectionState) -> Seq<
        ActionView,
    > {
        if !self.ended && state == PeerConnectionState::Failed {
            teardown_actions()
        } else {
            Seq::empty()
        }
    }

    /// The session after the engine has reported an ICE connection state.
    pub open spec fn ice_connection_state_changed(self, state: IceConnectionState) -> SessionView {
        if self.ended {
            self
        } else {
            SessionView { ice_connection_state: state, ..self }
        }
    }

    /// The session after the engine has reported a signaling state.
    pub open spec fn signaling_state_changed(self, state: SignalingState) -> SessionView {
        if self.ended {
            self
        } else {
            SessionView { signaling_state: state, ..self }
        }
    }

    /// The session after an event of the engine.
    pub open spec fn after_event(self, event: EngineEventView) -> SessionView {
        match event {
            EngineEventView::ConnectionState { connection } => self.connection_state_changed(
                connection,
            ),
            EngineEventView::IceConnectionState { ice } => self.ice_connection_state_changed(ice),
            EngineEventView::SignalingState { signaling } => self.signaling_state_changed(
                signaling,
            ),
            EngineEventView::StartFailed => self.stopped(),
            _ => self,
        }
    }

    /// What an event of the engine asks for, or the error that it amounts to.
    pub open spec fn event_outcome(self, event: EngineEventView) -> Result<
        Seq<ActionView>,
        NegotiationError,
    > {
        match event {
            EngineEventView::LocalIceCandidate { candidate, line_index } => Ok(
                self.local_candidate_actions(candidate, line_index),
            ),
            EngineEventView::ConnectionState { connection } => Ok(
                self.connection_state_actions(connection),
            ),
            EngineEventView::LocalAnswer { reply } => self.local_answer_outcome(reply),
            EngineEventView::StartFailed => Ok(self.stop_actions()),
            _ => Ok(Seq::empty()),
        }
    }
}

/// The configuration that every peer connection is made with.
pub open spec fn reference_config() -> PeerConnectionConfig {
    PeerConnectionConfig {
        jitter_buffer_latency_ms: JITTER_BUFFER_LATENCY_MS,
        bundle_policy: BundlePolicy::MaxCompat,
    }
}

/// The name of the pipeline of a session.
pub open spec fn pipeline_name(session_id: u64) -> Seq<char> {
    "pipeline-"@ + decimal_text(session_id as nat)
}

/// What starting a session asks for: the peer connection, set running, its
/// bus watched, and the five events of the engine listened to.
pub open spec fn startup_actions(session_id: u64) -> Seq<ActionView> {
    seq![
        ActionView::CreatePeerConnection {
            config: reference_config(),
            pipeline: pipeline_name(session_id),
        },
        ActionView::StartPipeline,
        ActionView::WatchBus,
        ActionView::Subscribe { event: EngineSignal::IceCandidate },
        ActionView::Subscribe { event: EngineSignal::DataChannel },
        ActionView::Subscribe { event: EngineSignal::ConnectionStateChanged },
        ActionView::Subscribe { event: EngineSignal::IceConnectionStateChanged },
        ActionView::Subscribe { event: EngineSignal::SignalingStateChanged },
    ]
}

/// What ends a session: the engine is told first, then discarded.
pub open spec fn teardown_actions() -> Seq<ActionView> {
    seq![ActionView::End, ActionView::Destroy]
}

/// The answer that a session sends for the description `sdp`.
pub open spec fn answer_signal(session_id: u64, sdp: Seq<char>) -> SignalView {
    SignalView::Answer {
        session_id,
        description: WebRtcDataView { data_type: Some("answer"@), sdp },
    }
}

/// The signal that a session sends for a local ICE candidate.
pub open spec fn candidate_signal(session_id: u64, candidate: Seq<char>, line_index: u32) -> SignalView {
    SignalView::IceCandidate {
        session_id,
        candidate: IceCandidateView {
            candidate,
            media_id: None,
            line_index: Some(line_index),
            username_fragment: None,
        },
    }
}

/// What a result of actions holds.
pub open spec fn outcome_view(r: Result<Vec<Action>, NegotiationError>) -> Result<
    Seq<ActionView>,
    NegotiationError,
> {
    match r {
        Ok(actions) => Ok(action_views(actions@)),
        Err(e) => Err(e),
    }
}

/// The signals that a list of actions sends to the peer, in order.
pub open spec fn sent_signals(actions: Seq<ActionView>) -> Seq<SignalView>
    decreases actions.len(),
{
    if actions.len() == 0 {
        Seq::empty()
    } else {
        match actions.last() {
            ActionView::Send { signal } => sent_signals(actions.drop_last()).push(signal),
            _ => sent_signals(actions.drop_last()),
        }
    }
}

/// How often a list of actions asks the engine for an answer.
pub open spec fn answer_requests(actions: Seq<ActionView>) -> nat
    decreases actions.len(),
{
    if actions.len() == 0 {
        0
    } else {
        match actions.last() {
            ActionView::CreateAnswer => answer_requests(actions.drop_last()) + 1,
            _ => answer_requests(actions.drop_last()),
        }
    }
}

/// Of two lists of actions one after the other, what is sent is what the
/// first sends and then what the second sends, and the requests for an
/// answer are those of both.
pub proof fn lemma_actions_of_both(first: Seq<ActionView>, second: Seq<ActionView>)
    ensures
        sent_signals(first + second) == sent_signals(first) + sent_signals(second),
        answer_requests(first + second) == answer_requests(first) + answer_requests(second),
    decreases second.len(),
{
    if second.len() == 0 {
        assert(first + second =~= first);
        assert(sent_signals(first) + sent_signals(second) =~= sent_signals(first));
    } else {
        assert((first + second).drop_last() =~= first + second.drop_last());
        assert((first + second).last() == second.last());
        lemma_actions_of_both(first, second.drop_last());
        assert(sent_signals(first + second) =~= sent_signals(first) + sent_signals(second));
    }
}

/// Actions of which none sends and none asks for an answer send nothing and
/// ask for no answer.
pub proof fn lemma_quiet_actions(actions: Seq<ActionView>)
    requires
        forall|i: int|
            0 <= i < actions.len() ==> !(#[trigger] actions[i] is Send) && !(actions[i]
                is CreateAnswer),
    ensures
        sent_signals(actions) == Seq::<SignalView>::empty(),
        answer_requests(actions) == 0,
    decreases actions.len(),
{
    if actions.len() > 0 {
        let earlier = actions.drop_last();
        assert forall|i: int| 0 <= i < earlier.len() implies !(#[trigger] earlier[i] is Send) && !(
        earlier[i] is CreateAnswer) by {
            assert(earlier[i] == actions[i]);
        }
        lemma_quiet_actions(earlier);
        assert(actions.last() == actions[actions.len() - 1]);
    }
}

/// Starting a session sends nothing and asks for no answer.
pub proof fn lemma_startup_is_quiet(session_id: u64)
    ensures
        sent_signals(startup_actions(session_id)) == Seq::<SignalView>::empty(),
        answer_requests(startup_actions(session_id)) == 0,
{
    lemma_quiet_actions(startup_actions(session_id));
}

/// An offer that a running session accepts asks the engine for an answer
/// once, and sends nothing yet. The answer that the engine then makes is sent
/// to the peer in exactly one signal: an `Answer` with the session's id and
/// the description of the answer.
pub proof fn lemma_offer_is_answered_once(session: SessionView, offer: Seq<char>, answer: Seq<char>)
    requires
        !session.ended,
    ensures
        answer_requests(session.remote_offer_actions(offer)) == 1,
        sent_signals(session.remote_offer_actions(offer)) == Seq::<SignalView>::empty(),
        session.local_answer_outcome(AnswerReplyView::Answer { sdp: answer }) == Ok::<
            Seq<ActionView>,
            NegotiationError,
        >(session.local_answer_actions(answer)),
        sent_signals(session.local_answer_actions(answer)) == seq![
            answer_signal(session.session_id, answer),
        ],
{
    reveal_with_fuel(answer_requests, 3);
    reveal_with_fuel(sent_signals, 3);
    let asked = session.remote_offer_actions(offer);
    assert(asked.drop_last() =~= seq![
        ActionView::SetRemoteDescription { kind: SdpKind::Offer, sdp: offer },
    ]);
    assert(asked.drop_last().drop_last() =~= Seq::empty());
    let answered = session.local_answer_actions(answer);
    assert(answered.drop_last() =~= seq![
        ActionView::SetLocalDescription { kind: SdpKind::Answer, sdp: answer },
    ]);
    assert(answered.drop_last().drop_last() =~= Seq::empty());
    assert(sent_signals(answered) =~= seq![answer_signal(session.session_id, answer)]);
}

/// Where the engine makes no answer, nothing is sent: any reply but an
/// answer is `AnswerGenerationFailed`.
pub proof fn lemma_no_answer_sends_nothing(session: SessionView, reply: AnswerReplyView)
    requires
        !session.ended,
        !(reply is Answer),
    ensures
        session.local_answer_outcome(reply) == Err::<Seq<ActionView>, NegotiationError>(
            NegotiationError::AnswerGenerationFailed,
        ),
{
}

/// Stopping is final. A second stop asks for nothing and changes nothing,
/// and a stopped session passes over every event of the engine and every
/// signal of the peer: it stays as it is, and nothing is asked of the engine
/// or sent.
pub proof fn lemma_stop_is_final(
    session: SessionView,
    event: EngineEventView,
    sdp: Seq<char>,
    candidate: IceCandidateView,
)
    ensures
        session.stopped().stopped() == session.stopped(),
        session.stopped().stop_actions() == Seq::<ActionView>::empty(),
        session.stopped().after_event(event) == session.stopped(),
        session.stopped().event_outcome(event) == Ok::<Seq<ActionView>, NegotiationError>(
            Seq::empty(),
        ),
        session.stopped().remote_offer_actions(sdp) == Seq::<ActionView>::empty(),
        session.stopped().remote_answer_actions(sdp) == Seq::<ActionView>::empty(),
        session.stopped().remote_candidate_actions(candidate) == Seq::<ActionView>::empty(),
{
}

/// A session keeps its id: no event of the engine and no stop changes it.
pub proof fn lemma_session_keeps_its_id(session: SessionView, event: EngineEventView)
    ensures
        session.after_event(event).session_id == session.session_id,
        session.stopped().session_id == session.session_id,
{
}

/// A peer connection that fails stops a running session, with the teardown
/// that `stop` asks for.
pub proof fn lemma_failure_stops(session: SessionView)
    requires
        !session.ended,
    ensures
        session.connection_state_changed(PeerConnectionState::Failed).ended,
        session.connection_state_actions(PeerConnectionState::Failed) == session.stop_actions(),
        session.stop_actions() == teardown_actions(),
{
}

/// A list of no actions.
pub fn no_actions() -> (actions: Vec<Action>)
    ensures
        action_views(actions@) == Seq::<ActionView>::empty(),
{
    let actions: Vec<Action> = Vec::new();
    assert(action_views(actions@) =~= Seq::empty());
    actions
}

/// The state that a session and the references to it share.
#[derive(Debug)]
pub struct Inner {
    session_id: u64,
    signaling_state: SignalingState,
    connection_state: PeerConnectionState,
    ice_connection_state: IceConnectionState,
    ended: bool,
}

impl View for Inner {
    type V = SessionView;

    closed spec fn view(&self) -> SessionView {
        SessionView {
            session_id: self.session_id,
            signaling_state: self.signaling_state,
            connection_state: self.connection_state,
            ice_connection_state: self.ice_connection_state,
            ended: self.ended,
        }
    }
}

impl Inner {
    /// Ends the session: the teardown the first time, nothing after that.
    fn end(&mut self) -> (actions: Vec<Action>)
        ensures
            final(self)@ == old(self)@.stopped(),
            action_views(actions@) == old(self)@.stop_actions(),
    {
        let mut actions: Vec<Action> = Vec::new();
        if !self.ended {
            self.ended = true;
            actions.push(Action::End);
            actions.push(Action::Destroy);
        }
        assert(action_views(actions@) =~= old(self)@.stop_actions());
        actions
    }
}

/// One negotiation: the owner of its state.
#[derive(Debug)]
pub struct Session {
    inner: Inner,
}

impl View for Session {
    type V = SessionView;

    closed spec fn view(&self) -> SessionView {
        self.inner@
    }
}

/// A reference to a session that does not keep it alive: it names the
/// session, and `upgrade` finds it as long as it runs.
#[derive(Clone, Copy, Debug, PartialEq, Eq, Structural)]
pub struct SessionWeak {
    pub session_id: u64,
}

impl Session {
    /// Starts the session `session_id`. The actions make the peer connection
    /// with the reference configuration, set it running and subscribe to the
    /// engine's events. Where the engine cannot carry them out, the caller
    /// reports `EngineEvent::StartFailed`, which is the end of the session.
    pub fn start(session_id: u64) -> (r: (Session, Vec<Action>))
        ensures
            r.0@ == SessionView::started(session_id),
            action_views(r.1@) == startup_actions(session_id),
    {
        let session = Session {
            inner: Inner {
                session_id,
                signaling_state: SignalingState::Stable,
                connection_state: PeerConnectionState::New,
                ice_connection_state: IceConnectionState::New,
                ended: false,
            },
        };
        let config = PeerConnectionConfig {
            jitter_buffer_latency_ms: JITTER_BUFFER_LATENCY_MS,
            bundle_policy: BundlePolicy::MaxCompat,
        };
        let mut pipeline = "pipeline-".to_owned();
        pipeline.append(decimal(session_id).as_str());
        let mut actions: Vec<Action> = Vec::new();
        actions.push(Action::CreatePeerConnection { config, pipeline });
        actions.push(Action::StartPipeline);
        actions.push(Action::WatchBus);
        actions.push(Action::Subscribe { event: EngineSignal::IceCandidate });
        actions.push(Action::Subscribe { event: EngineSignal::DataChannel });
        actions.push(Action::Subscribe { event: EngineSignal::ConnectionStateChanged });
        actions.push(Action::Subscribe { event: EngineSignal::IceConnectionStateChanged });
        actions.push(Action::Subscribe { event: EngineSignal::SignalingStateChanged });
        assert(action_views(actions@) =~= startup_actions(session_id));
        (session, actions)
    }

    /// Stops the session. The first call asks for the teardown; the session
    /// is stopped from then on, and a further call asks for nothing.
    pub fn stop(&mut self) -> (actions: Vec<Action>)
        ensures
            final(self)@ == old(self)@.stopped(),
            action_views(actions@) == old(self)@.stop_actions(),
    {
        self.inner.end()
    }

    /// Takes the engine's reply to a request for an answer. An answer becomes
    /// the local description and goes to the peer in one `Answer` signal with
    /// this session's id; any other reply is `AnswerGenerationFailed`, and
    /// nothing is sent. A stopped session passes over every reply. The
    /// session stays as it was.
    pub fn on_local_answer(&mut self, reply: AnswerReply) -> (r: Result<
        Vec<Action>,
        NegotiationError,
    >)
        ensures
            final(self)@ == old(self)@,
            outcome_view(r) == old(self)@.local_answer_outcome(reply@),
    {
        if self.inner.ended {
            return Ok(no_actions());
        }
        let mut actions: Vec<Action> = Vec::new();
        match reply {
            AnswerReply::Answer { sdp } => {
                let description = sdp.clone();
                actions.push(Action::SetLocalDescription { kind: SdpKind::Answer, sdp });
                actions.push(
                    Action::Send {
                        signal: Signal::WebRtcAnswer {
                            data: WebRtcAnswerData {
                                session_id: self.inner.session_id,
                                webrtc_data: WebRtcData {
                                    data_type: Some("answer".to_owned()),
                                    sdp: description,
                                },
                            },
                        },
                    },
                );
                assert(action_views(actions@) =~= old(self)@.local_answer_actions(sdp@));
                Ok(actions)
            },
            _ => Err(NegotiationError::AnswerGenerationFailed),
        }
    }

    /// Takes an offer of the peer. `sdp_parses` says whether the media engine's
    /// parser accepts the offer's session description. If it does not, the
    /// offer is `MalformedOffer`, and nothing is asked of the engine or sent.
    /// Otherwise the offer becomes the remote description and the engine is
    /// asked for an answer, once; a stopped session asks for nothing. The
    /// session stays as it was either way.
    pub fn on_remote_offer(&mut self, offer: WebRtcData, sdp_parses: bool) -> (r: Result<
        Vec<Action>,
        NegotiationError,
    >)
        ensures
            final(self)@ == old(self)@,
            outcome_view(r) == old(self)@.remote_offer_outcome(offer.sdp@, sdp_parses),
            r is Ok <==> sdp_parses,
    {
        if !sdp_parses {
            return Err(NegotiationError::MalformedOffer);
        }
        let mut actions: Vec<Action> = Vec::new();
        if !self.inner.ended {
            actions.push(Action::SetRemoteDescription { kind: SdpKind::Offer, sdp: offer.sdp });
            actions.push(Action::CreateAnswer);
        }
        assert(action_views(actions@) =~= old(self)@.remote_offer_actions(offer.sdp@));
        Ok(actions)
    }

    /// Takes the peer's answer, as `on_remote_offer` takes an offer: one that
    /// does not parse is `MalformedAnswer`; one that does becomes the remote
    /// description, and nothing more follows.
    pub fn on_remote_answer(&mut self, answer: WebRtcData, sdp_parses: bool) -> (r: Result<
        Vec<Action>,
        NegotiationError,
    >)
        ensures
            final(self)@ == old(self)@,
            outcome_view(r) == old(self)@.remote_answer_outcome(answer.sdp@, sdp_parses),
            r is Ok <==> sdp_parses,
    {
        if !sdp_parses {
            return Err(NegotiationError::MalformedAnswer);
        }
        let mut actions: Vec<Action> = Vec::new();
        if !self.inner.ended {
            actions.push(Action::SetRemoteDescription { kind: SdpKind::Answer, sdp: answer.sdp });
        }
        assert(action_views(actions@) =~= old(self)@.remote_answer_actions(answer.sdp@));
        Ok(actions)
    }

    /// Takes an ICE candidate of the peer: it goes to the engine for its
    /// media line, and is dropped in silence where it names none.
    pub fn on_remote_ice_candidate(&mut self, ice_candidate_data: IceCandidateWebRtcData) -> (actions:
        Vec<Action>)
        ensures
            final(self)@ == old(self)@,
            action_views(actions@) == old(self)@.remote_candidate_actions(ice_candidate_data@),
            ice_candidate_data.line_index is None ==> actions@.len() == 0,
    {
        let IceCandidateWebRtcData { candidate, line_index, .. } = ice_candidate_data;
        let mut actions: Vec<Action> = Vec::new();
        if let Some(line_index) = line_index {
            if !self.inner.ended {
                actions.push(Action::AddIceCandidate { line_index, candidate });
            }
        }
        assert(action_views(actions@) =~= old(self)@.remote_candidate_actions(
            ice_candidate_data@,
        ));
        actions
    }

    /// Takes an ICE candidate that the engine found: it goes to the peer in
    /// one `IceCandidate` signal with this session's id.
    pub fn on_local_ice_candidate(&self, candidate: String, line_index: u32) -> (actions: Vec<
        Action,
    >)
        ensures
            action_views(actions@) == self@.local_candidate_actions(candidate@, line_index),
    {
        let mut actions: Vec<Action> = Vec::new();
        if !self.inner.ended {
            actions.push(
                Action::Send {
                    signal: Signal::IceCandidate {
                        data: IceCandidateData {
                            session_id: self.inner.session_id,
                            webrtc_data: IceCandidateWebRtcData {
                                candidate,
                                media_id: None,
                                line_index: Some(line_index),
                                username_fragment: None,
                            },
                        },
                    },
                },
            );
        }
        assert(action_views(actions@) =~= self@.local_candidate_actions(candidate@, line_index));
        actions
    }

    /// Records the peer connection state that the engine reports. `Failed`
    /// stops the session, as `stop` does. A stopped session records nothing.
    pub fn on_connection_state_changed(&mut self, state: PeerConnectionState) -> (actions: Vec<
        Action,
    >)
        ensures
            final(self)@ == old(self)@.connection_state_changed(state),
            action_views(actions@) == old(self)@.connection_state_actions(state),
    {
        if self.inner.ended {
            return no_actions();
        }
        self.inner.connection_state = state;
        if state == PeerConnectionState::Failed {
            self.stop()
        } else {
            no_actions()
        }
    }

    /// Records the ICE connection state that the engine reports.
    pub fn on_ice_connection_state_changed(&mut self, state: IceConnectionState)
        ensures
            final(self)@ == old(self)@.ice_connection_state_changed(state),
    {
        if !self.inner.ended {
            self.inner.ice_connection_state = state;
        }
    }

    /// Records the signaling state that the engine reports.
    pub fn on_signaling_state_changed(&mut self, state: SignalingState)
        ensures
            final(self)@ == old(self)@.signaling_state_changed(state),
    {
        if !self.inner.ended {
            self.inner.signaling_state = state;
        }
    }

    /// Takes a fault that the engine reports on its bus. The fault is
    /// reported and nothing else: it neither stops the session nor changes
    /// it.
    pub fn on_bus_error(&self, fault: &EngineFault) -> (report: String)
        ensures
            report@ == bus_error_report(self@.session_id, fault@),
    {
        let mut report = "[WebRTC Session ".to_owned();
        report.append(decimal(self.inner.session_id).as_str());
        report.append("] BUS ERROR from ");
        match &fault.source {
            Some(source) => report.append(source.as_str()),
            None => report.append("(unknown)"),
        }
        report.append(" - ");
        report.append(fault.error.as_str());
        report.append("\n  ");
        match &fault.debug {
            Some(debug) => report.append(debug.as_str()),
            None => report.append("no debug info"),
        }
        report
    }

    /// Takes an event of the engine to the operation that it belongs to. A
    /// data channel that the peer opens changes nothing. An engine that could
    /// not start is the end of the session: it is stopped, and nothing is
    /// tried again.
    pub fn on_engine_event(&mut self, event: EngineEvent) -> (r: Result<
        Vec<Action>,
        NegotiationError,
    >)
        ensures
            final(self)@ == old(self)@.after_event(event@),
            outcome_view(r) == old(self)@.event_outcome(event@),
    {
        match event {
            EngineEvent::LocalIceCandidate { candidate, line_index } => Ok(
                self.on_local_ice_candidate(candidate, line_index),
            ),
            EngineEvent::DataChannel { label } => Ok(no_actions()),
            EngineEvent::ConnectionState { connection } => Ok(
                self.on_connection_state_changed(connection),
            ),
            EngineEvent::IceConnectionState { ice } => {
                self.on_ice_connection_state_changed(ice);
                Ok(no_actions())
            },
            EngineEvent::SignalingState { signaling } => {
                self.on_signaling_state_changed(signaling);
                Ok(no_actions())
            },
            EngineEvent::LocalAnswer { reply } => self.on_local_answer(reply),
            EngineEvent::StartFailed => Ok(self.stop()),
        }
    }

    /// A reference to this session that does not keep it alive.
    pub fn downgrade(&self) -> (weak: SessionWeak)
        ensures
            weak.session_id == self@.session_id,
    {
        SessionWeak { session_id: self.inner.session_id }
    }

    /// The id of the negotiation: it never changes.
    pub fn session_id(&self) -> (id: u64)
        ensures
            id == self@.session_id,
    {
        self.inner.session_id
    }

    /// The signaling state that the engine reported last.
    pub fn signaling_state(&self) -> (state: SignalingState)
        ensures
            state == self@.signaling_state,
    {
        self.inner.signaling_state
    }

    /// The peer connection state that the engine reported last.
    pub fn connection_state(&self) -> (state: PeerConnectionState)
        ensures
            state == self@.connection_state,
    {
        self.inner.connection_state
    }

    /// The ICE connection state that the engine reported last.
    pub fn ice_connection_state(&self) -> (state: IceConnectionState)
        ensures
            state == self@.ice_connection_state,
    {
        self.inner.ice_connection_state
    }

    /// Whether the session has been stopped.
    pub fn is_ended(&self) -> (ended: bool)
        ensures
            ended == self@.ended,
    {
        self.inner.ended
    }
}

} // verus!
