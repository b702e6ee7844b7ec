//! Session descriptions checked by the WebRTC stack before they are handed on.

use vstd::prelude::*;
use webrtc::peer_connection::sdp::session_description::RTCSessionDescription;

verus! {

/// Whether a session description is an offer or an answer.
#[derive(Clone, Copy, Debug, PartialEq, Eq, Structural)]
pub enum SdpKind {
    Offer,
    Answer,
}

/// A session description whose SDP text the WebRTC stack accepted.
#[derive(Clone, Debug, PartialEq, Eq)]
pub struct SessionDescription {
    pub kind: SdpKind,
    pub sdp: String,
}

/// The error text with which `RTCSessionDescription::offer` refuses the SDP
/// text `sdp`, or `None` when it accepts it.
pub uninterp spec fn offer_sdp_rejection(sdp: Seq<char>) -> Option<Seq<char>>;

/// The error text with which `RTCSessionDescription::answer` refuses the SDP
/// text `sdp`, or `None` when it accepts it.
pub uninterp spec fn answer_sdp_rejection(sdp: Seq<char>) -> Option<Seq<char>>;

/// Calls `webrtc`'s `RTCSessionDescription::offer`, which parses `sdp` as an
/// SDP session description; the claim is that whether it fails, and the
/// displayed text of its error, are those named by `offer_sdp_rejection`
/// for `sdp`, a function of the text alone (the parse reads nothing else).
#[verifier::external_body]
pub(crate) fn check_offer_sdp(sdp: &String) -> (rejection: Option<String>)
    ensures
        rejection.deep_view() == offer_sdp_rejection(sdp@),
{
    match RTCSessionDescription::offer(sdp.clone()) {
        Ok(_) => None,
        Err(e) => Some(e.to_string()),
    }
}

/// Calls `webrtc`'s `RTCSessionDescription::answer`, which parses `sdp` as an
/// SDP session description; the claim is that whether it fails, and the
/// displayed text of its error, are those named by `answer_sdp_rejection`
/// for `sdp`, a function of the text alone.
#[verifier::external_body]
pub(crate) fn check_answer_sdp(sdp: &String) -> (rejection: Option<String>)
    ensures
        rejection.deep_view() == answer_sdp_rejection(sdp@),
{
    match RTCSessionDescription::answer(sdp.clone()) {
        Ok(_) => None,
        Err(e) => Some(e.to_string()),
    }
}

} // verus!
