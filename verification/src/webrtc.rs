//! The owner of the sessions: it takes the signals that arrive from the peer
//! and the events that the media engine reports to the session they are for.
//! A session is known by its id. The owner starts one with its own start,
//! and one more for each offer that carries an id that it has not seen.

use crate::session::action_views;
use crate::session::answer_requests;
use crate::session::answer_signal;
use crate::session::bus_error_report;
use crate::session::lemma_actions_of_both;
use crate::session::lemma_offer_is_answered_once;
use crate::session::lemma_startup_is_quiet;
use crate::session::no_actions;
use crate::session::outcome_view;
use crate::session::sent_signals;
use crate::session::startup_actions;
use crate::session::teardown_actions;
use crate::session::Action;
use crate::session::ActionView;
use crate::session::AnswerReplyView;
use crate::session::BusMessage;
use crate::session::BusMessageView;
use crate::session::BusWatch;
use crate::session::EngineEvent;
use crate::session::EngineEventView;
use crate::session::NegotiationError;
use crate::session::PeerConnectionState;
use crate::session::SdpKind;
use crate::session::Session;
use crate::session::SessionView;
use crate::session::SessionWeak;
use crate::signals::text_of;
use crate::signals::IceCandidateView;
use crate::signals::Signal;
use crate::signals::SignalView;
use crate::signals::WebRtcDataView;
use vstd::prelude::*;

verus! {

/// The id of the session that is started with its owner.
pub const FIRST_SESSION_ID: u64 = 0;

/// The owner of the sessions. It holds every session that it has started,
/// in the order in which they were started; a stopped session stays held,
/// and is found by no reference.
#[derive(Debug)]
pub struct WebRtc {
    sessions: Vec<Session>,
}

/// What a [`WebRtc`] holds.
pub ghost struct WebRtcView {
    pub sessions: Seq<SessionView>,
}

impl View for WebRtc {
    type V = WebRtcView;

    closed spec fn view(&self) -> WebRtcView {
        WebRtcView { sessions: self.sessions@.map_values(|session: Session| session@) }
    }
}

/// Where the first of `sessions` with the id `session_id` stands.
pub open spec fn first_with(sessions: Seq<SessionView>, session_id: u64) -> Option<int>
    decreases sessions.len(),
{
    if sessions.len() == 0 {
        None
    } else if sessions[0].session_id == session_id {
        Some(0)
    } else {
        match first_with(sessions.drop_first(), session_id) {
            Some(i) => Some(i + 1),
            None => None,
        }
    }
}

/// Where `first_with` finds a session, it has that id and none before it
/// has; where it finds none, no session has that id.
pub proof fn lemma_first_with(sessions: Seq<SessionView>, session_id: u64)
    ensures
        (match first_with(sessions, session_id) {
            Some(i) => {
                &&& 0 <= i < sessions.len()
                &&& sessions[i].session_id == session_id
                &&& forall|j: int| 0 <= j < i ==> (#[trigger] sessions[j]).session_id != session_id
            },
            None => forall|j: int|
                0 <= j < sessions.len() ==> (#[trigger] sessions[j]).session_id != session_id,
        }),
    decreases sessions.len(),
{
    if sessions.len() > 0 && sessions[0].session_id != session_id {
        let rest = sessions.drop_first();
        lemma_first_with(rest, session_id);
        assert forall|j: int| 0 <= j < sessions.len() implies #[trigger] sessions[j] == (if j == 0 {
            sessions[0]
        } else {
            rest[j - 1]
        }) by {}
    }
}

/// The first session with an id is where `first_with` finds it.
pub proof fn lemma_first_with_is(sessions: Seq<SessionView>, session_id: u64, i: int)
    requires
        0 <= i < sessions.len(),
        sessions[i].session_id == session_id,
        forall|j: int| 0 <= j < i ==> (#[trigger] sessions[j]).session_id != session_id,
    ensures
        first_with(sessions, session_id) == Some(i),
    decreases sessions.len(),
{
    if i > 0 {
        let rest = sessions.drop_first();
        assert(sessions[0].session_id != session_id);
        assert forall|j: int| 0 <= j < i - 1 implies (#[trigger] rest[j]).session_id
            != session_id by {
            assert(rest[j] == sessions[j + 1]);
        }
        assert(rest[i - 1] == sessions[i]);
        lemma_first_with_is(rest, session_id, i - 1);
    }
}

impl WebRtcView {
    /// An owner that has started the session `session_id` and no other.
    pub open spec fn started(session_id: u64) -> WebRtcView {
        WebRtcView { sessions: seq![SessionView::started(session_id)] }
    }

    /// Where the session `session_id` stands among the sessions, if the
    /// owner holds it.
    pub open spec fn position(self, session_id: u64) -> Option<int> {
        first_with(self.sessions, session_id)
    }

    /// The session `session_id`, if the owner holds it.
    pub open spec fn session(self, session_id: u64) -> Option<SessionView> {
        match self.position(session_id) {
            Some(i) => Some(self.sessions[i]),
            None => None,
        }
    }

    /// The owner with `session` in the place of the session of that id.
    pub open spec fn with_session(self, session: SessionView) -> WebRtcView {
        match self.position(session.session_id) {
            Some(i) => WebRtcView { sessions: self.sessions.update(i, session) },
            None => self,
        }
    }

    /// What a signal of the peer asks for, or the error that it amounts to.
    /// An offer or an answer whose session description does not parse is
    /// `MalformedOffer` or `MalformedAnswer`, whatever session it is for.
    /// Any other signal goes to the session whose id it carries. An offer
    /// for an id that the owner has not seen starts the session of that id
    /// first, so that every offer is answered under its own id. An answer or
    /// an ICE candidate for an id that the owner has not seen is passed over.
    pub open spec fn incoming_signal_outcome(self, signal: SignalView, sdp_parses: bool) -> Result<
        Seq<ActionView>,
        NegotiationError,
    > {
        match signal {
            SignalView::Offer { session_id, description } => {
                if !sdp_parses {
                    Err(NegotiationError::MalformedOffer)
                } else {
                    match self.session(session_id) {
                        Some(session) => Ok(session.remote_offer_actions(description.sdp)),
                        None => Ok(
                            startup_actions(session_id) + SessionView::started(
                                session_id,
                            ).remote_offer_actions(description.sdp),
                        ),
                    }
                }
            },
            SignalView::Answer { session_id, description } => {
                if !sdp_parses {
                    Err(NegotiationError::MalformedAnswer)
                } else {
                    match self.session(session_id) {
                        Some(session) => Ok(session.remote_answer_actions(description.sdp)),
                        None => Ok(Seq::empty()),
                    }
                }
            },
            SignalView::IceCandidate { session_id, candidate } => {
                match self.session(session_id) {
                    Some(session) => Ok(session.remote_candidate_actions(candidate)),
                    None => Ok(Seq::empty()),
                }
            },
        }
    }

    /// Whether `signal` starts a session: it is an offer that parses, for an
    /// id that the owner has not seen.
    pub open spec fn starts_session(self, signal: SignalView, sdp_parses: bool) -> bool {
        signal is Offer && sdp_parses && self.session(signal.session_id()) is None
    }

    /// The owner after a signal of the peer: it holds one session more where
    /// the signal started one, and is as it was otherwise.
    pub open spec fn after_incoming_signal(self, signal: SignalView, sdp_parses: bool) -> WebRtcView {
        if self.starts_session(signal, sdp_parses) {
            WebRtcView { sessions: self.sessions.push(SessionView::started(signal.session_id())) }
        } else {
            self
        }
    }

    /// The owner after an event of the engine that came with `weak`.
    pub open spec fn after_engine_event(self, weak: SessionWeak, event: EngineEventView) -> WebRtcView {
        if weak.finds(self) {
            self.with_session(self.session(weak.session_id).unwrap().after_event(event))
        } else {
            self
        }
    }

    /// What an event of the engine that came with `weak` asks for: nothing,
    /// where the reference finds no session.
    pub open spec fn engine_event_outcome(self, weak: SessionWeak, event: EngineEventView) -> Result<
        Seq<ActionView>,
        NegotiationError,
    > {
        if weak.finds(self) {
            self.session(weak.session_id).unwrap().event_outcome(event)
        } else {
            Ok(Seq::empty())
        }
    }

    /// Whether the bus is watched on after `message` came with `weak`: not
    /// after the end of the stream, and not after a fault for a session that
    /// is gone.
    pub open spec fn bus_watch(self, weak: SessionWeak, message: BusMessageView) -> BusWatch {
        match message {
            BusMessageView::Error(_) => if weak.finds(self) {
                BusWatch::Continue
            } else {
                BusWatch::Break
            },
            BusMessageView::Eos => BusWatch::Break,
            BusMessageView::Other => BusWatch::Continue,
        }
    }

    /// The report of `message`: that of a fault, for a session that is still
    /// found.
    pub open spec fn bus_report(self, weak: SessionWeak, message: BusMessageView) -> Option<
        Seq<char>,
    > {
        match message {
            BusMessageView::Error(fault) if weak.finds(self) => Some(
                bus_error_report(weak.session_id, fault),
            ),
            _ => None,
        }
    }

    /// What releasing the session `session_id` asks for.
    pub open spec fn release_actions(self, session_id: u64) -> Seq<ActionView> {
        match self.session(session_id) {
            Some(session) => session.stop_actions(),
            None => Seq::empty(),
        }
    }

    /// The owner after the session `session_id` was released: the session
    /// is stopped.
    pub open spec fn after_release(self, session_id: u64) -> WebRtcView {
        match self.session(session_id) {
            Some(session) => self.with_session(session.stopped()),
            None => self,
        }
    }
}

impl SessionWeak {
    /// Whether the reference still finds its session: the owner holds a
    /// session of that id, and it has not been stopped.
    pub open spec fn finds(self, owner: WebRtcView) -> bool {
        match owner.session(self.session_id) {
            Some(session) => !session.ended,
            None => false,
        }
    }

    /// The session that the reference names, as long as it runs.
    pub fn upgrade<'a>(&self, owner: &'a WebRtc) -> (r: Option<&'a Session>)
        ensures
            r is Some <==> self.finds(owner@),
            r matches Some(session) ==> owner@.session(self.session_id) == Some(session@),
    {
        match owner.session(self.session_id) {
            Some(session) => {
                if session.is_ended() {
                    None
                } else {
                    Some(session)
                }
            },
            None => None,
        }
    }
}

/// Whether the owner holds the session `session_id`, and it runs: a
/// reference to it finds it.
pub open spec fn weak_finds(owner: WebRtcView, session_id: u64) -> bool {
    (SessionWeak { session_id }).finds(owner)
}

/// The session that the owner holds under an id has that id.
pub proof fn lemma_session_has_its_id(owner: WebRtcView, session_id: u64)
    ensures
        owner.session(session_id) matches Some(session) ==> session.session_id == session_id,
{
    lemma_first_with(owner.sessions, session_id);
}

/// A session that is put in the place of the session of its id is the one
/// that the owner then holds under that id, and every other session is held
/// as it was.
pub proof fn lemma_with_session(owner: WebRtcView, session: SessionView, other: u64)
    requires
        owner.session(session.session_id) is Some,
    ensures
        owner.with_session(session).session(session.session_id) == Some(session),
        other != session.session_id ==> owner.with_session(session).session(other)
            == owner.session(other),
{
    let sessions = owner.sessions;
    let after = owner.with_session(session).sessions;
    lemma_first_with(sessions, session.session_id);
    let i = first_with(sessions, session.session_id).unwrap();
    assert forall|j: int| 0 <= j < i implies (#[trigger] after[j]).session_id
        != session.session_id by {
        assert(after[j] == sessions[j]);
    }
    lemma_first_with_is(after, session.session_id, i);
    if other != session.session_id {
        lemma_first_with(sessions, other);
        match first_with(sessions, other) {
            Some(k) => {
                assert forall|j: int| 0 <= j < k implies (#[trigger] after[j]).session_id
                    != other by {
                    if j != i {
                        assert(after[j] == sessions[j]);
                    }
                }
                assert(after[k] == sessions[k]);
                lemma_first_with_is(after, other, k);
            },
            None => {
                lemma_first_with(after, other);
                match first_with(after, other) {
                    Some(k) => {
                        if k != i {
                            assert(after[k] == sessions[k]);
                        }
                    },
                    None => {},
                }
            },
        }
    }
}

/// A session that is started for an id that the owner has not seen is the
/// one that the owner then holds under that id.
pub proof fn lemma_started_session_is_held(owner: WebRtcView, session_id: u64)
    requires
        owner.session(session_id) is None,
    ensures
        (WebRtcView { sessions: owner.sessions.push(SessionView::started(session_id)) }).session(
            session_id,
        ) == Some(SessionView::started(session_id)),
{
    let after = owner.sessions.push(SessionView::started(session_id));
    lemma_first_with(owner.sessions, session_id);
    assert forall|j: int| 0 <= j < owner.sessions.len() implies (#[trigger] after[j]).session_id
        != session_id by {
        assert(after[j] == owner.sessions[j]);
    }
    lemma_first_with_is(after, session_id, owner.sessions.len() as int);
}

/// Every offer is answered under its own id. An offer that parses asks the
/// engine for one answer and sends nothing yet, whether its session runs
/// already or is started for it; the answer that the engine then makes goes
/// out in exactly one signal, an `Answer` with the id of the offer. Only the
/// offer for a session that has been stopped is passed over. An offer that
/// does not parse is `MalformedOffer`, whatever id it carries.
pub proof fn lemma_answer_carries_the_offers_id(
    owner: WebRtcView,
    session_id: u64,
    offer: WebRtcDataView,
    answer: Seq<char>,
)
    ensures
        ({
            let signal = SignalView::Offer { session_id, description: offer };
            let asked = owner.incoming_signal_outcome(signal, true);
            let after = owner.after_incoming_signal(signal, true);
            let answered = after.engine_event_outcome(
                SessionWeak { session_id },
                EngineEventView::LocalAnswer { reply: AnswerReplyView::Answer { sdp: answer } },
            );
            let stopped = owner.session(session_id) is Some && owner.session(
                session_id,
            ).unwrap().ended;
            &&& owner.incoming_signal_outcome(signal, false) == Err::<
                Seq<ActionView>,
                NegotiationError,
            >(NegotiationError::MalformedOffer)
            &&& asked is Ok
            &&& sent_signals(asked.unwrap()) == Seq::<SignalView>::empty()
            &&& answered is Ok
            &&& if stopped {
                &&& answer_requests(asked.unwrap()) == 0
                &&& sent_signals(answered.unwrap()) == Seq::<SignalView>::empty()
            } else {
                &&& answer_requests(asked.unwrap()) == 1
                &&& sent_signals(answered.unwrap()) == seq![answer_signal(session_id, answer)]
            }
        }),
{
    reveal_with_fuel(answer_requests, 2);
    reveal_with_fuel(sent_signals, 2);
    lemma_session_has_its_id(owner, session_id);
    match owner.session(session_id) {
        Some(session) => {
            if !session.ended {
                lemma_offer_is_answered_once(session, offer.sdp, answer);
            }
        },
        None => {
            let session = SessionView::started(session_id);
            lemma_started_session_is_held(owner, session_id);
            lemma_offer_is_answered_once(session, offer.sdp, answer);
            lemma_startup_is_quiet(session_id);
            lemma_actions_of_both(
                startup_actions(session_id),
                session.remote_offer_actions(offer.sdp),
            );
        },
    }
}

/// An answer and an ICE candidate of the peer reach the engine: for the
/// running session of their id, an answer that parses becomes the remote
/// description, and a candidate with a line index is added for that line.
/// Neither sends anything to the peer.
pub proof fn lemma_answer_and_candidate_reach_the_engine(
    owner: WebRtcView,
    session_id: u64,
    description: WebRtcDataView,
    candidate: Seq<char>,
    line_index: u32,
)
    requires
        weak_finds(owner, session_id),
    ensures
        owner.incoming_signal_outcome(SignalView::Answer { session_id, description }, true) == Ok::<
            Seq<ActionView>,
            NegotiationError,
        >(seq![ActionView::SetRemoteDescription { kind: SdpKind::Answer, sdp: description.sdp }]),
        owner.incoming_signal_outcome(
            SignalView::IceCandidate {
                session_id,
                candidate: IceCandidateView {
                    candidate,
                    media_id: None,
                    line_index: Some(line_index),
                    username_fragment: None,
                },
            },
            true,
        ) == Ok::<Seq<ActionView>, NegotiationError>(
            seq![ActionView::AddIceCandidate { line_index, candidate }],
        ),
{
}

/// A peer connection that fails stops the session once: the event asks for
/// the teardown, after it no reference finds the session, and whatever the
/// engine reports for it from then on changes nothing and asks for nothing.
/// Every other session is held as it was.
pub proof fn lemma_failure_stops_the_session_once(
    owner: WebRtcView,
    weak: SessionWeak,
    later: EngineEventView,
    other: u64,
)
    requires
        weak.finds(owner),
    ensures
        ({
            let failed = EngineEventView::ConnectionState {
                connection: PeerConnectionState::Failed,
            };
            let after = owner.after_engine_event(weak, failed);
            &&& owner.engine_event_outcome(weak, failed) == Ok::<
                Seq<ActionView>,
                NegotiationError,
            >(teardown_actions())
            &&& !weak.finds(after)
            &&& after.after_engine_event(weak, later) == after
            &&& after.engine_event_outcome(weak, later) == Ok::<
                Seq<ActionView>,
                NegotiationError,
            >(Seq::empty())
            &&& after.release_actions(weak.session_id) == Seq::<ActionView>::empty()
            &&& other != weak.session_id ==> after.session(other) == owner.session(other)
        }),
{
    let failed = EngineEventView::ConnectionState { connection: PeerConnectionState::Failed };
    lemma_session_has_its_id(owner, weak.session_id);
    let session = owner.session(weak.session_id).unwrap();
    lemma_with_session(owner, session.after_event(failed), other);
}

impl WebRtc {
    /// Makes the owner and starts its first session, the one with id 0. The
    /// actions are those of `Session::start`.
    pub fn new() -> (r: (WebRtc, Vec<Action>))
        ensures
            r.0@ == WebRtcView::started(FIRST_SESSION_ID),
            action_views(r.1@) == startup_actions(FIRST_SESSION_ID),
    {
        WebRtc::with_session(FIRST_SESSION_ID)
    }

    /// Makes the owner and starts its first session under the id
    /// `session_id`. The actions are those of `Session::start`.
    pub fn with_session(session_id: u64) -> (r: (WebRtc, Vec<Action>))
        ensures
            r.0@ == WebRtcView::started(session_id),
            action_views(r.1@) == startup_actions(session_id),
    {
        let (session, actions) = Session::start(session_id);
        let mut sessions: Vec<Session> = Vec::new();
        sessions.push(session);
        let owner = WebRtc { sessions };
        assert(owner@.sessions =~= WebRtcView::started(session_id).sessions);
        (owner, actions)
    }

    /// Where the session `session_id` stands among the sessions.
    fn find(&self, session_id: u64) -> (r: Option<usize>)
        ensures
            (match r {
                Some(i) => i < self.sessions@.len() && self@.position(session_id) == Some(i as int),
                None => self@.position(session_id) is None,
            }),
    {
        let mut i: usize = 0;
        while i < self.sessions.len()
            invariant
                i <= self.sessions.len(),
                forall|j: int| 0 <= j < i ==> (#[trigger] self@.sessions[j]).session_id != session_id,
            decreases self.sessions.len() - i,
        {
            if self.sessions[i].session_id() == session_id {
                proof {
                    lemma_first_with_is(self@.sessions, session_id, i as int);
                }
                return Some(i);
            }
            i += 1;
        }
        proof {
            lemma_first_with(self@.sessions, session_id);
        }
        None
    }

    /// The session `session_id`, if the owner holds it.
    pub fn session(&self, session_id: u64) -> (r: Option<&Session>)
        ensures
            (match r {
                Some(session) => self@.session(session_id) == Some(session@),
                None => self@.session(session_id) is None,
            }),
    {
        match self.find(session_id) {
            Some(i) => Some(&self.sessions[i]),
            None => None,
        }
    }

    /// Takes a signal of the peer to the session whose id it carries, and
    /// starts that session first for an offer with an id that the owner has
    /// not seen. `sdp_parses` says whether the media engine's parser accepts
    /// the session description of an offer or an answer; it is not looked
    /// at for an ICE candidate.
    pub fn on_incoming_signal(&mut self, signal: Signal, sdp_parses: bool) -> (r: Result<
        Vec<Action>,
        NegotiationError,
    >)
        ensures
            final(self)@ == old(self)@.after_incoming_signal(signal@, sdp_parses),
            outcome_view(r) == old(self)@.incoming_signal_outcome(signal@, sdp_parses),
    {
        let found = self.find(signal.session_id());
        match signal {
            Signal::WebRtcOffer { data } => {
                if !sdp_parses {
                    return Err(NegotiationError::MalformedOffer);
                }
                match found {
                    Some(i) => {
                        let r = self.sessions[i].on_remote_offer(data.webrtc_data, true);
                        assert(self@.sessions =~= old(self)@.sessions);
                        r
                    },
                    None => {
                        let (mut session, mut actions) = Session::start(data.session_id);
                        let ghost started = actions@;
                        match session.on_remote_offer(data.webrtc_data, true) {
                            Ok(mut more) => {
                                let ghost asked = more@;
                                actions.append(&mut more);
                                self.sessions.push(session);
                                assert(self@.sessions =~= old(self)@.after_incoming_signal(
                                    signal@,
                                    sdp_parses,
                                ).sessions);
                                assert(action_views(actions@) =~= action_views(started)
                                    + action_views(asked));
                                Ok(actions)
                            },
                            Err(e) => Err(e),
                        }
                    },
                }
            },
            Signal::WebRtcAnswer { data } => {
                if !sdp_parses {
                    return Err(NegotiationError::MalformedAnswer);
                }
                match found {
                    Some(i) => {
                        let r = self.sessions[i].on_remote_answer(data.webrtc_data, true);
                        assert(self@.sessions =~= old(self)@.sessions);
                        r
                    },
                    None => Ok(no_actions()),
                }
            },
            Signal::IceCandidate { data } => {
                match found {
                    Some(i) => {
                        let actions = self.sessions[i].on_remote_ice_candidate(data.webrtc_data);
                        assert(self@.sessions =~= old(self)@.sessions);
                        Ok(actions)
                    },
                    None => Ok(no_actions()),
                }
            },
        }
    }

    /// Takes an event that the media engine reports for the session that
    /// `weak` names. Where that session is gone or stopped, nothing happens.
    pub fn on_engine_event(&mut self, weak: SessionWeak, event: EngineEvent) -> (r: Result<
        Vec<Action>,
        NegotiationError,
    >)
        ensures
            final(self)@ == old(self)@.after_engine_event(weak, event@),
            outcome_view(r) == old(self)@.engine_event_outcome(weak, event@),
    {
        match self.find(weak.session_id) {
            Some(i) => {
                if self.sessions[i].is_ended() {
                    Ok(no_actions())
                } else {
                    proof {
                        lemma_session_has_its_id(self@, weak.session_id);
                        crate::session::lemma_session_keeps_its_id(self@.sessions[i as int], event@);
                    }
                    let r = self.sessions[i].on_engine_event(event);
                    assert(self@.sessions =~= old(self)@.after_engine_event(weak, event@).sessions);
                    r
                }
            },
            None => Ok(no_actions()),
        }
    }

    /// Takes a message from the bus of the media engine, which came with
    /// `weak`. It says whether the bus is watched on, and gives the report
    /// of a fault. No message changes or stops a session.
    pub fn on_bus_message(&self, weak: SessionWeak, message: &BusMessage) -> (r: (
        BusWatch,
        Option<String>,
    ))
        ensures
            r.0 == self@.bus_watch(weak, message@),
            text_of(r.1) == self@.bus_report(weak, message@),
    {
        match message {
            BusMessage::Error(fault) => match weak.upgrade(self) {
                Some(session) => {
                    proof {
                        lemma_session_has_its_id(self@, weak.session_id);
                    }
                    (BusWatch::Continue, Some(session.on_bus_error(fault)))
                },
                None => (BusWatch::Break, None),
            },
            BusMessage::Eos => (BusWatch::Break, None),
            BusMessage::Other => (BusWatch::Continue, None),
        }
    }

    /// Lets go of the session `session_id`: it is stopped. If it still ran,
    /// the actions are its teardown.
    pub fn release(&mut self, session_id: u64) -> (actions: Vec<Action>)
        ensures
            final(self)@ == old(self)@.after_release(session_id),
            action_views(actions@) == old(self)@.release_actions(session_id),
    {
        match self.find(session_id) {
            Some(i) => {
                proof {
                    lemma_session_has_its_id(self@, session_id);
                }
                let actions = self.sessions[i].stop();
                assert(self@.sessions =~= old(self)@.after_release(session_id).sessions);
                actions
            },
            None => no_actions(),
        }
    }
}

} // verus!
