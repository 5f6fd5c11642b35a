//! Inbound frames: the message types of the protocol and the decoding of a
//! text frame into a typed message.

use crate::json::{lemma_array_view, parse, parsed, trees, Json, JsonTree};
use vstd::prelude::*;

verus! {

/// The type of a message, given on the wire by a tag from 0 to 8.
#[derive(Clone, Copy, Debug, PartialEq, Eq, Structural)]
pub enum MessageType {
    /// 0: the server greets the client.
    Welcome,
    /// 1: the client declares a prefix.
    Prefix,
    /// 2: a call of a function of the other side.
    Call,
    /// 3: the result of a call.
    CallResult,
    /// 4: the failure of a call.
    CallError,
    /// 5: the client subscribes to a topic.
    Subscribe,
    /// 6: the client leaves a topic.
    Unsubscribe,
    /// 7: the client publishes to a topic.
    Publish,
    /// 8: the server sends an event.
    Event,
}

/// The largest tag of a message type.
pub const MAX_TAG: u64 = 8;

impl MessageType {
    /// The tag that stands for this type on the wire.
    pub open spec fn tag(self) -> u64 {
        match self {
            MessageType::Welcome => 0,
            MessageType::Prefix => 1,
            MessageType::Call => 2,
            MessageType::CallResult => 3,
            MessageType::CallError => 4,
            MessageType::Subscribe => 5,
            MessageType::Unsubscribe => 6,
            MessageType::Publish => 7,
            MessageType::Event => 8,
        }
    }

    /// The type for a tag. A tag above 8 stands for no type and is read as
    /// [`MessageType::Welcome`].
    pub open spec fn of_tag(tag: u64) -> MessageType {
        if tag == 1 {
            MessageType::Prefix
        } else if tag == 2 {
            MessageType::Call
        } else if tag == 3 {
            MessageType::CallResult
        } else if tag == 4 {
            MessageType::CallError
        } else if tag == 5 {
            MessageType::Subscribe
        } else if tag == 6 {
            MessageType::Unsubscribe
        } else if tag == 7 {
            MessageType::Publish
        } else if tag == 8 {
            MessageType::Event
        } else {
            MessageType::Welcome
        }
    }

    /// The type for a tag. A tag above 8 stands for no type and yields
    /// [`MessageType::Welcome`].
    pub fn from_u64(value: u64) -> (kind: MessageType)
        ensures
            kind == MessageType::of_tag(value),
            value <= MAX_TAG ==> kind.tag() == value,
    {
        match value {
            0 => MessageType::Welcome,
            1 => MessageType::Prefix,
            2 => MessageType::Call,
            3 => MessageType::CallResult,
            4 => MessageType::CallError,
            5 => MessageType::Subscribe,
            6 => MessageType::Unsubscribe,
            7 => MessageType::Publish,
            8 => MessageType::Event,
            _ => MessageType::Welcome,
        }
    }

    /// The tag that stands for this type on the wire.
    pub fn code(self) -> (tag: u64)
        ensures
            tag == self.tag(),
            tag <= MAX_TAG,
    {
        match self {
            MessageType::Welcome => 0,
            MessageType::Prefix => 1,
            MessageType::Call => 2,
            MessageType::CallResult => 3,
            MessageType::CallError => 4,
            MessageType::Subscribe => 5,
            MessageType::Unsubscribe => 6,
            MessageType::Publish => 7,
            MessageType::Event => 8,
        }
    }
}

/// Why a frame is no message.
#[derive(Clone, Copy, Debug, PartialEq, Eq, Structural)]
pub enum DecodeError {
    /// The frame is not one JSON document.
    MalformedJson,
    /// The document is not an array.
    NotAnArray,
    /// The array has fewer than two or more than six elements.
    WrongArity,
    /// The first element is not an integer from 0 to 8.
    InvalidTag,
}

/// The fewest elements of a message.
pub const MIN_ARITY: usize = 2;

/// The most elements of a message.
pub const MAX_ARITY: usize = 6;

/// A message as a mathematical value: its type and all elements of its array,
/// the tag included.
pub struct MessageView {
    pub kind: MessageType,
    pub elements: Seq<JsonTree>,
}

/// The tag that `first` gives, where it is an integer from 0 to 8.
pub open spec fn tag_of(first: JsonTree) -> Option<u64> {
    match first {
        JsonTree::Number(n) => match n.unsigned {
            Some(tag) => if tag <= MAX_TAG {
                Some(tag)
            } else {
                None
            },
            None => None,
        },
        _ => None,
    }
}

/// `elements` are the elements of a message of type `kind`.
pub open spec fn valid_elements(kind: MessageType, elements: Seq<JsonTree>) -> bool {
    &&& MIN_ARITY <= elements.len() <= MAX_ARITY
    &&& tag_of(elements[0]) == Some(kind.tag())
}

/// The message that a document stands for, or why it is none.
pub open spec fn classify(document: JsonTree) -> Result<MessageView, DecodeError> {
    match document {
        JsonTree::Array(elements) => if !(MIN_ARITY <= elements.len() <= MAX_ARITY) {
            Err(DecodeError::WrongArity)
        } else {
            match tag_of(elements[0]) {
                Some(tag) => Ok(MessageView { kind: MessageType::of_tag(tag), elements }),
                None => Err(DecodeError::InvalidTag),
            }
        },
        _ => Err(DecodeError::NotAnArray),
    }
}

/// The message that the outcome of parsing a frame stands for, or why it is
/// none.
pub open spec fn decode(outcome: Option<JsonTree>) -> Result<MessageView, DecodeError> {
    match outcome {
        Some(document) => classify(document),
        None => Err(DecodeError::MalformedJson),
    }
}

/// A decoded message: an array of two to six JSON values whose first element
/// is the tag of its type.
#[derive(Debug, PartialEq, Eq)]
pub struct Message {
    kind: MessageType,
    elements: Vec<Json>,
}

impl View for Message {
    type V = MessageView;

    closed spec fn view(&self) -> MessageView {
        MessageView { kind: self.kind, elements: trees(self.elements@) }
    }
}

impl Message {
    #[verifier::type_invariant]
    spec fn well_formed(self) -> bool {
        valid_elements(self.kind, trees(self.elements@))
    }

    /// Reads a document as a message.
    ///
    /// Succeeds exactly on an array of two to six elements whose first is an
    /// integer from 0 to 8; otherwise says which of these failed first.
    pub fn from_json(document: Json) -> (r: Result<Message, DecodeError>)
        ensures
            match r {
                Ok(message) => classify(document@) == Ok::<MessageView, DecodeError>(message@),
                Err(e) => classify(document@) == Err::<MessageView, DecodeError>(e),
            },
    {
        match document {
            Json::Array(elements) => {
                proof {
                    lemma_array_view(elements);
                }
                if elements.len() < MIN_ARITY || elements.len() > MAX_ARITY {
                    return Err(DecodeError::WrongArity);
                }
                let tag = match elements[0].as_number() {
                    Some(n) => match n.unsigned {
                        Some(tag) => tag,
                        None => {
                            return Err(DecodeError::InvalidTag);
                        },
                    },
                    None => {
                        return Err(DecodeError::InvalidTag);
                    },
                };
                if tag > MAX_TAG {
                    return Err(DecodeError::InvalidTag);
                }
                Ok(Message { kind: MessageType::from_u64(tag), elements })
            },
            _ => Err(DecodeError::NotAnArray),
        }
    }

    /// The type of the message.
    pub fn kind(&self) -> (kind: MessageType)
        ensures
            kind == self@.kind,
    {
        self.kind
    }

    /// All elements of the message, the tag included.
    pub fn elements(&self) -> (elements: &Vec<Json>)
        ensures
            trees(elements@) == self@.elements,
            valid_elements(self@.kind, self@.elements),
    {
        proof {
            use_type_invariant(self);
        }
        &self.elements
    }
}

/// Decodes an inbound text frame.
///
/// The frame is parsed as JSON and read as a message: see [`decode`] for the
/// outcome on each frame.
pub fn parse_msg(frame: &[u8]) -> (r: Result<Message, DecodeError>)
    ensures
        match r {
            Ok(message) => decode(parsed(frame@)) == Ok::<MessageView, DecodeError>(message@),
            Err(e) => decode(parsed(frame@)) == Err::<MessageView, DecodeError>(e),
        },
{
    match parse(frame) {
        Some(document) => Message::from_json(document),
        None => Err(DecodeError::MalformedJson),
    }
}

} // verus!
