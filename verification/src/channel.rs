//! What hub and spoke tell each other, and what happens to a channel between them.
use vstd::prelude::*;

verus! {

/// How long one attempt of the hub to open a channel may take.
pub const OPEN_TIMEOUT_SECS: u64 = 3;

/// How long hub and spoke wait before they try again to reach each other.
pub const RETRY_PAUSE_SECS: u64 = 3;

/// The characters of an error text, where there is one.
pub open spec fn in_words(text: Option<&'static str>) -> Option<Seq<char>> {
    match text {
        Some(s) => Some(s@),
        None => None,
    }
}

/// A message over a channel.
#[derive(Debug, PartialEq, Eq)]
pub enum ChannelMessage {
    /// The spoke opens a control channel, and names the port of its service.
    Control { service_port: u16 },
    /// The spoke opens a data channel.
    Data,
    /// The hub acknowledges that a channel is open.
    Ack,
    /// The hub tells the spoke to open a data channel.
    Accept,
    /// The hub wants to see whether the spoke may connect.
    Challenge { payload: Vec<u8> },
    /// The spoke answers a challenge.
    Answer(Vec<u8>),
}

/// The content of a [`ChannelMessage`].
pub enum Content {
    Control { service_port: u16 },
    Data,
    Ack,
    Accept,
    Challenge { payload: Seq<u8> },
    Answer(Seq<u8>),
}

impl View for ChannelMessage {
    type V = Content;

    open spec fn view(&self) -> Content {
        match *self {
            ChannelMessage::Control { service_port } => Content::Control { service_port },
            ChannelMessage::Data => Content::Data,
            ChannelMessage::Ack => Content::Ack,
            ChannelMessage::Accept => Content::Accept,
            ChannelMessage::Challenge { payload } => Content::Challenge { payload: payload@ },
            ChannelMessage::Answer(code) => Content::Answer(code@),
        }
    }
}

/// A copy of some bytes.
pub(crate) fn copy_bytes(bytes: &Vec<u8>) -> (r: Vec<u8>)
    ensures
        r@ == bytes@,
{
    let r = bytes.clone();
    assert(r@ =~= bytes@);
    r
}

impl Clone for ChannelMessage {
    fn clone(&self) -> (r: ChannelMessage)
        ensures
            r@ == self@,
    {
        match self {
            ChannelMessage::Control { service_port } => ChannelMessage::Control {
                service_port: *service_port,
            },
            ChannelMessage::Data => ChannelMessage::Data,
            ChannelMessage::Ack => ChannelMessage::Ack,
            ChannelMessage::Accept => ChannelMessage::Accept,
            ChannelMessage::Challenge { payload } => ChannelMessage::Challenge {
                payload: copy_bytes(payload),
            },
            ChannelMessage::Answer(code) => ChannelMessage::Answer(copy_bytes(code)),
        }
    }
}

/// What came of the action that a state asked for. An event that cannot come of that action leaves
/// the state as it is.
#[derive(Debug, PartialEq, Eq)]
pub enum Event {
    /// The action was performed: something was bound, accepted, connected, sent, waited for.
    Done,
    /// The action failed.
    Failed,
    /// A message was received.
    Received(ChannelMessage),
    /// A message was waited for, and the channel has ended.
    Closed,
    /// The time for opening the channel is over.
    TimedOut,
}

/// The content of a message leaves nothing of it out: messages of the same content are of the same
/// kind, and hold the same port or the same bytes. A copy of a message has the same content.
pub proof fn content_is_all_of_a_message(
    message: ChannelMessage,
    other: ChannelMessage,
    copy: ChannelMessage,
)
    requires
        call_ensures(ChannelMessage::clone, (&message,), copy),
    ensures
        message@ == other@ <==> match (message, other) {
            (
                ChannelMessage::Control { service_port: a },
                ChannelMessage::Control { service_port: b },
            ) => a == b,
            (ChannelMessage::Data, ChannelMessage::Data) => true,
            (ChannelMessage::Ack, ChannelMessage::Ack) => true,
            (ChannelMessage::Accept, ChannelMessage::Accept) => true,
            (
                ChannelMessage::Challenge { payload: a },
                ChannelMessage::Challenge { payload: b },
            ) => a@ == b@,
            (ChannelMessage::Answer(a), ChannelMessage::Answer(b)) => a@ == b@,
            _ => false,
        },
        message matches ChannelMessage::Control { service_port } ==> message@ == (
        Content::Control { service_port }),
        message matches ChannelMessage::Challenge { payload } ==> message@ == (Content::Challenge {
            payload: payload@,
        }),
        message matches ChannelMessage::Answer(code) ==> message@ == Content::Answer(code@),
        message is Data ==> message@ is Data,
        message is Ack ==> message@ is Ack,
        message is Accept ==> message@ is Accept,
        copy@ == message@,
{
}

} // verus!
