//! The message envelope: the tagged union exchanged between the native side
//! and the hosted page, and the errors the bridge can report.

use vstd::prelude::*;

verus! {

/// A message emitted by the hosted page and queued for the next tick.
///
/// The normalized parameter value travels as the text of the JSON number it
/// arrived in, so that the host can hand it to its parameter machinery
/// unchanged; this crate never interprets it numerically.
#[derive(Clone, Debug, PartialEq, Eq)]
pub enum Message {
    /// The page is ready; the native side owes it one size report.
    Init,
    /// The page asks the native side to resize the editor.
    Resize { width: u32, height: u32 },
    /// The page requests a normalized parameter change.
    SetParameter { id: String, value_text: String },
}

/// A message the native side sends into the page.
#[derive(Clone, Debug, PartialEq, Eq)]
pub enum Outbound {
    /// Reply to `Message::Init`: the editor's current size.
    SetSize { width: u32, height: u32 },
    /// An out-of-band parameter change (host automation) reported to the
    /// page. Its `value_text` must be the text of a JSON number — the
    /// well-formedness that `wire::outbound_wf` states and
    /// `wire::check_json_number` decides.
    ParamChange { param: String, value_text: String, text: String },
}

/// One discrete parameter edit gesture that the host must perform:
/// begin, set to the normalized value, end.
#[derive(Clone, Debug, PartialEq, Eq)]
pub struct ParamEdit {
    pub id: String,
    pub value_text: String,
}

/// What the inbound sink does with a payload that is not a well-formed
/// message of the protocol. A malformed payload means the native side and
/// the page bootstrap disagree, so the reference policy treats it as fatal;
/// a deployment may instead choose to drop such payloads and keep running.
#[derive(Clone, Copy, Debug, PartialEq, Eq, Structural)]
pub enum MalformedPolicy {
    /// The reference policy: surface `MalformedInboundMessage`.
    Fatal,
    /// Drop the payload and keep the queue as it was.
    Discard,
}

/// Everything that can go wrong in the bridge.
#[derive(Clone, Copy, Debug, PartialEq, Eq, Structural)]
pub enum EditorError {
    /// The native widget could not be created; the spawn fails as a whole.
    ViewConstructionFailed,
    /// An operation needed a live adapter outside the spawn window.
    NoActiveView,
    /// An outbound payload could not be encoded.
    SerializationError,
    /// An inbound payload was not a well-formed message of the protocol.
    MalformedInboundMessage,
    /// A requested asset does not exist under the configured root.
    AssetNotFound,
}

impl EditorError {
    /// A short description, for hosts that log errors.
    pub fn describe(&self) -> (r: &'static str)
        ensures
            r@.len() > 0,
    {
        proof {
            reveal_strlit("view construction failed");
            reveal_strlit("no active view");
            reveal_strlit("serialization error");
            reveal_strlit("malformed inbound message");
            reveal_strlit("asset not found");
        }
        match self {
            EditorError::ViewConstructionFailed => "view construction failed",
            EditorError::NoActiveView => "no active view",
            EditorError::SerializationError => "serialization error",
            EditorError::MalformedInboundMessage => "malformed inbound message",
            EditorError::AssetNotFound => "asset not found",
        }
    }
}

} // verus!
