//! The JSON boundary. Payloads cross the bridge as JSON documents; the
//! generic JSON work is done by `serde_json` behind the trusted items here,
//! and everything this crate decides about a payload — which message it is,
//! what happens to the queue, what a malformed payload does — is verified
//! on the plain values those items hand back.

use vstd::prelude::*;
use vstd::string::*;

use crate::context::WindowHandler;
use crate::msg::{EditorError, MalformedPolicy, Message};
use crate::wire::intake_script;

verus! {

#[verifier::external_type_specification]
#[verifier::external_body]
pub struct ExValue(serde_json::Value);

/// The compact JSON text of one document. Rendering a document is a
/// function of the document alone.
pub uninterp spec fn json_text_of(v: serde_json::Value) -> Seq<char>;

/// Relies on `serde_json::to_string` on a `Value`: the document's compact
/// JSON text. It cannot fail for a `Value` — object keys are strings and
/// its numbers are finite — and the text depends on the document alone.
#[verifier::external_body]
fn json_to_text(v: &serde_json::Value) -> (r: Option<String>)
    ensures
        r is Some,
        r matches Some(t) ==> t@ == json_text_of(*v),
{
    serde_json::to_string(v).ok()
}

/// What the inbound sink reads out of one payload before any of this
/// crate's rules apply: the discriminator and the fields the protocol's
/// messages use, each as the plain value `serde_json` reports for it.
#[derive(Clone, Debug, PartialEq, Eq)]
pub struct InboundFields {
    pub tag: String,
    pub width: Option<u64>,
    pub height: Option<u64>,
    pub id: Option<String>,
    pub value_text: Option<String>,
}

/// The fields one payload text carries: `None` when the text is not one
/// JSON document whose `type` field is a string. Parsing and field access
/// decide from the text alone.
pub uninterp spec fn inbound_fields_of(s: Seq<char>) -> Option<InboundFields>;

/// Relies on `serde_json::from_str::<Value>` (one document or an error,
/// decided by the text alone; its recursion limit turns deep nesting into
/// an error, not a crash), on `Value::get` and `Value::as_str` /
/// `Value::as_u64` for the fields, and on the `Display` of
/// `serde_json::Number` for the number's own text.
#[verifier::external_body]
fn read_inbound_fields(raw: &str) -> (r: Option<InboundFields>)
    ensures
        r == inbound_fields_of(raw@),
{
    let v: serde_json::Value = serde_json::from_str(raw).ok()?;
    let tag = v.get("type")?.as_str()?.to_owned();
    let width = v.get("width").and_then(serde_json::Value::as_u64);
    let height = v.get("height").and_then(serde_json::Value::as_u64);
    let id = match v.get("id") {
        Some(i) => i.as_str().map(str::to_owned),
        None => None,
    };
    let value_text = match v.get("value") {
        Some(serde_json::Value::Number(n)) => Some(n.to_string()),
        _ => None,
    };
    Some(InboundFields { tag, width, height, id, value_text })
}

/// The fields name a message of the protocol: `init` needs nothing more;
/// `set_size` needs a width and a height that fit the size type;
/// `set_param` needs a parameter name and a numeric value; `set_gain` is
/// the parameter request of pages with a single parameter and needs only
/// the value.
pub open spec fn fields_classify_ok(f: InboundFields) -> bool {
    ||| f.tag@ == "init"@
    ||| (f.tag@ == "set_size"@ && (f.width matches Some(w) && w <= u32::MAX) && (
    f.height matches Some(h)
        && h <= u32::MAX
    ))
    ||| (f.tag@ == "set_param"@ && f.id is Some && f.value_text is Some)
    ||| (f.tag@ == "set_gain"@ && f.value_text is Some)
}

/// The message the fields name, when they name one: `set_gain` goes to
/// the parameter named `gain`; the other tags carry their fields over
/// unchanged.
pub open spec fn is_message_of(f: InboundFields, m: Message) -> bool {
    if f.tag@ == "init"@ {
        m == Message::Init
    } else if f.tag@ == "set_size"@ {
        f.width matches Some(w) && w <= u32::MAX && (f.height matches Some(h) && h <= u32::MAX
            && m == (Message::Resize { width: w as u32, height: h as u32 }))
    } else if f.tag@ == "set_param"@ {
        f.id matches Some(i) && (f.value_text matches Some(v) && m == (Message::SetParameter {
            id: i,
            value_text: v,
        }))
    } else if f.tag@ == "set_gain"@ {
        f.value_text matches Some(v) && (m matches Message::SetParameter {
            id: gi,
            value_text: gv,
        } && gi@ == "gain"@ && gv == v)
    } else {
        false
    }
}

/// Classifies one payload's fields, exactly: fields that name a message
/// yield that message, everything else is malformed.
pub fn classify_message(fields: InboundFields) -> (r: Result<Message, EditorError>)
    ensures
        fields_classify_ok(fields) ==> (r matches Ok(m) && is_message_of(fields, m)),
        !fields_classify_ok(fields) ==> r == Err::<Message, EditorError>(
            EditorError::MalformedInboundMessage,
        ),
{
    proof {
        reveal_strlit("init");
        reveal_strlit("set_size");
        reveal_strlit("set_param");
        reveal_strlit("set_gain");
        assert("init"@.len() == 4 && "set_size"@.len() == 8 && "set_param"@.len() == 9
            && "set_gain"@.len() == 8);
        assert("set_size"@[4] == 's' && "set_gain"@[4] == 'g');
    }
    let InboundFields { tag, width, height, id, value_text } = fields;
    if tag == String::from_str("init") {
        Ok(Message::Init)
    } else if tag == String::from_str("set_size") {
        match (width, height) {
            (Some(w), Some(h)) => {
                if w <= u32::MAX as u64 && h <= u32::MAX as u64 {
                    Ok(Message::Resize { width: w as u32, height: h as u32 })
                } else {
                    Err(EditorError::MalformedInboundMessage)
                }
            },
            _ => Err(EditorError::MalformedInboundMessage),
        }
    } else if tag == String::from_str("set_param") {
        match (id, value_text) {
            (Some(i), Some(v)) => Ok(Message::SetParameter { id: i, value_text: v }),
            _ => Err(EditorError::MalformedInboundMessage),
        }
    } else if tag == String::from_str("set_gain") {
        match value_text {
            Some(v) => Ok(Message::SetParameter { id: String::from_str("gain"), value_text: v }),
            None => Err(EditorError::MalformedInboundMessage),
        }
    } else {
        Err(EditorError::MalformedInboundMessage)
    }
}

/// Reads one payload text as a message of the protocol: the fields the
/// text carries, classified exactly; a text that carries no fields, or
/// fields that name no message, is malformed.
pub fn message_from_raw(raw: &str) -> (r: Result<Message, EditorError>)
    ensures
        match inbound_fields_of(raw@) {
            None => r == Err::<Message, EditorError>(EditorError::MalformedInboundMessage),
            Some(f) => {
                &&& fields_classify_ok(f) ==> (r matches Ok(m) && is_message_of(f, m))
                &&& !fields_classify_ok(f) ==> r == Err::<Message, EditorError>(
                    EditorError::MalformedInboundMessage,
                )
            },
        },
{
    match read_inbound_fields(raw) {
        Some(fields) => classify_message(fields),
        None => Err(EditorError::MalformedInboundMessage),
    }
}

impl WindowHandler {
    /// The inbound sink: one payload arrived from the page. Its fields are
    /// read, classified, and the named message is queued at the tail, in
    /// emission order — a valid payload is never dropped. A payload that
    /// carries no message follows the malformed policy — fatal by
    /// reference, or silently discarded — and never grows the queue.
    /// Nothing but the queue ever changes.
    pub fn handle_ipc(&mut self, raw: &str, policy: MalformedPolicy) -> (r: Result<
        (),
        EditorError,
    >)
        ensures
            old(self).same_but_queue(*final(self)),
            match inbound_fields_of(raw@) {
                None => {
                    &&& *final(self) == *old(self)
                    &&& (policy == MalformedPolicy::Fatal ==> r == Err::<(), EditorError>(
                        EditorError::MalformedInboundMessage,
                    ))
                    &&& (policy == MalformedPolicy::Discard ==> r == Ok::<(), EditorError>(()))
                },
                Some(f) => {
                    &&& fields_classify_ok(f) ==> (r == Ok::<(), EditorError>(()) && (exists|
                        m: Message,
                    |
                        is_message_of(f, m) && final(self).queue@ == old(self).queue@.push(m)))
                    &&& !fields_classify_ok(f) ==> {
                        &&& *final(self) == *old(self)
                        &&& (policy == MalformedPolicy::Fatal ==> r == Err::<(), EditorError>(
                            EditorError::MalformedInboundMessage,
                        ))
                        &&& (policy == MalformedPolicy::Discard ==> r == Ok::<(), EditorError>(()))
                    }
                },
            },
    {
        match message_from_raw(raw) {
            Ok(m) => {
                self.push_inbound(m);
                Ok(())
            },
            Err(_) => match policy {
                MalformedPolicy::Fatal => Err(EditorError::MalformedInboundMessage),
                MalformedPolicy::Discard => Ok(()),
            },
        }
    }

    /// Serializes one JSON document and sends it into the live page: the
    /// intake call with exactly the document's text is queued once. Fails
    /// `NoActiveView` outside the spawn window, and never panics, whatever
    /// the state. Encoding one of these documents cannot fail; the
    /// `SerializationError` arm stays so that a broken encoder would
    /// surface as the taxonomy's recoverable error, not a crash.
    pub fn send_json(&mut self, json: &serde_json::Value) -> (r: Result<(), EditorError>)
        ensures
            !old(self).is_live() ==> {
                &&& r == Err::<(), EditorError>(EditorError::NoActiveView)
                &&& *final(self) == *old(self)
            },
            old(self).is_live() ==> {
                &&& r == Ok::<(), EditorError>(())
                &&& old(self).same_but_scripts(*final(self))
                &&& final(self).scripts_deep() == old(self).scripts_deep().push(
                    intake_script(json_text_of(*json)),
                )
            },
    {
        if !self.live() {
            return Err(EditorError::NoActiveView);
        }
        match json_to_text(json) {
            Some(text) => self.send_text(text.as_str()),
            None => Err(EditorError::SerializationError),
        }
    }
}

} // verus!
