//! The signal messages that two peers exchange to set up a call.

use vstd::prelude::*;

verus! {

/// A session description as it travels in an offer or an answer.
#[derive(Clone, Debug, PartialEq, Eq)]
pub struct WebRtcData {
    /// The optional discriminator of the description (`offer`, `answer`).
    pub data_type: Option<String>,
    /// The session description, opaque to the signaling layer.
    pub sdp: String,
}

/// The payload of an offer.
#[derive(Clone, Debug, PartialEq, Eq)]
pub struct WebRtcOfferData {
    pub session_id: u64,
    pub webrtc_data: WebRtcData,
}

/// The payload of an answer.
#[derive(Clone, Debug, PartialEq, Eq)]
pub struct WebRtcAnswerData {
    pub session_id: u64,
    pub webrtc_data: WebRtcData,
}

/// One ICE candidate and the media section it belongs to.
#[derive(Clone, Debug, PartialEq, Eq)]
pub struct IceCandidateWebRtcData {
    /// The candidate line, opaque to the signaling layer.
    pub candidate: String,
    pub media_id: Option<String>,
    /// The index of the media section that the candidate is for.
    pub line_index: Option<u32>,
    pub username_fragment: Option<String>,
}

/// The payload of an ICE candidate message.
#[derive(Clone, Debug, PartialEq, Eq)]
pub struct IceCandidateData {
    pub session_id: u64,
    pub webrtc_data: IceCandidateWebRtcData,
}

/// A signal message: an offer, an answer or an ICE candidate, each for one
/// negotiation, which `session_id` identifies.
#[derive(Clone, Debug, PartialEq, Eq)]
pub enum Signal {
    WebRtcOffer { data: WebRtcOfferData },
    WebRtcAnswer { data: WebRtcAnswerData },
    IceCandidate { data: IceCandidateData },
}

/// The text of an optional string.
pub open spec fn text_of(s: Option<String>) -> Option<Seq<char>> {
    match s {
        Some(s) => Some(s@),
        None => None,
    }
}

/// What a [`WebRtcData`] holds.
pub ghost struct WebRtcDataView {
    pub data_type: Option<Seq<char>>,
    pub sdp: Seq<char>,
}

/// What an [`IceCandidateWebRtcData`] holds.
pub ghost struct IceCandidateView {
    pub candidate: Seq<char>,
    pub media_id: Option<Seq<char>>,
    pub line_index: Option<u32>,
    pub username_fragment: Option<Seq<char>>,
}

/// What a [`Signal`] holds.
pub ghost enum SignalView {
    Offer { session_id: u64, description: WebRtcDataView },
    Answer { session_id: u64, description: WebRtcDataView },
    IceCandidate { session_id: u64, candidate: IceCandidateView },
}

impl View for WebRtcData {
    type V = WebRtcDataView;

    open spec fn view(&self) -> WebRtcDataView {
        WebRtcDataView { data_type: text_of(self.data_type), sdp: self.sdp@ }
    }
}

impl View for IceCandidateWebRtcData {
    type V = IceCandidateView;

    open spec fn view(&self) -> IceCandidateView {
        IceCandidateView {
            candidate: self.candidate@,
            media_id: text_of(self.media_id),
            line_index: self.line_index,
            username_fragment: text_of(self.username_fragment),
        }
    }
}

impl View for Signal {
    type V = SignalView;

    open spec fn view(&self) -> SignalView {
        match self {
            Signal::WebRtcOffer { data } => SignalView::Offer {
                session_id: data.session_id,
                description: data.webrtc_data@,
            },
            Signal::WebRtcAnswer { data } => SignalView::Answer {
                session_id: data.session_id,
                description: data.webrtc_data@,
            },
            Signal::IceCandidate { data } => SignalView::IceCandidate {
                session_id: data.session_id,
                candidate: data.webrtc_data@,
            },
        }
    }
}

impl SignalView {
    /// The negotiation that the message belongs to.
    pub open spec fn session_id(self) -> u64 {
        match self {
            SignalView::Offer { session_id, .. } => session_id,
            SignalView::Answer { session_id, .. } => session_id,
            SignalView::IceCandidate { session_id, .. } => session_id,
        }
    }
}

impl Signal {
    /// The negotiation that the message belongs to.
    pub open spec fn spec_session_id(&self) -> u64 {
        self@.session_id()
    }

    /// The negotiation that the message belongs to.
    #[verifier::when_used_as_spec(spec_session_id)]
    pub fn session_id(&self) -> (id: u64)
        ensures
            id == self.spec_session_id(),
    {
        match self {
            Signal::WebRtcOffer { data } => data.session_id,
            Signal::WebRtcAnswer { data } => data.session_id,
            Signal::IceCandidate { data } => data.session_id,
        }
    }
}

} // verus!
