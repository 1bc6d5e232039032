//! The signal channel adapter: between the text frames of the relay and the
//! signals of the negotiation engine.

use crate::relay::Frame;
use crate::relay::FrameView;
use crate::signals::Signal;
use crate::signals::SignalView;
use crate::wire::decoded;
use crate::wire::encoded;
use crate::wire::DecodeError;
use vstd::prelude::*;

verus! {

/// What becomes of a frame that arrived from the relay.
#[derive(Clone, Debug, PartialEq, Eq)]
pub enum Inbound {
    /// The frame was a signal: it goes to the negotiation engine.
    Deliver(Signal),
    /// The frame was no text: it is passed over.
    Ignore,
    /// The frame was text, but no signal: the connection fails.
    Fail(DecodeError),
}

/// What an [`Inbound`] holds.
pub ghost enum InboundView {
    Deliver(SignalView),
    Ignore,
    Fail(DecodeError),
}

impl View for Inbound {
    type V = InboundView;

    open spec fn view(&self) -> InboundView {
        match self {
            Inbound::Deliver(signal) => InboundView::Deliver(signal@),
            Inbound::Ignore => InboundView::Ignore,
            Inbound::Fail(e) => InboundView::Fail(*e),
        }
    }
}

/// What becomes of a frame.
pub open spec fn inbound(frame: FrameView) -> InboundView {
    match frame {
        FrameView::Text(text) => match decoded(text) {
            Ok(signal) => InboundView::Deliver(signal),
            Err(e) => InboundView::Fail(e),
        },
        FrameView::Other => InboundView::Ignore,
    }
}

/// Takes a frame that arrived from the relay: a text frame is decoded, and
/// fails the connection if it is no signal; any other frame is passed over.
pub fn on_frame(frame: &Frame) -> (r: Inbound)
    ensures
        r@ == inbound(frame@),
{
    match frame {
        Frame::Text(text) => match Signal::decode(text.as_str()) {
            Ok(signal) => Inbound::Deliver(signal),
            Err(e) => Inbound::Fail(e),
        },
        Frame::Other => Inbound::Ignore,
    }
}

/// The frame that a signal of the negotiation engine goes to the relay as.
pub fn on_outbound(signal: &Signal) -> (frame: Frame)
    ensures
        frame@ == FrameView::Text(encoded(signal@)),
{
    Frame::Text(signal.encode())
}

} // verus!
