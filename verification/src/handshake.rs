//! One-byte messages, and a stream that is framed into them.
use bytes::BytesMut;
use vstd::prelude::*;
use vstd::std_specs::convert::{FromSpecImpl, TryFromSpecImpl};

use crate::buffer::{buffer_of, buffered, empty_buffer, get_u8, remaining};

verus! {

/// A message that is its own frame: one byte on the wire, the one that `u8::from` gives.
#[derive(Debug, Clone, Copy, PartialEq, Eq, Structural)]
pub enum Message {
    /// Used by spoke to open a control channel
    Control,
    /// Used by spoke to open a data channel
    Data,
    /// Used by hub to acknowledge a message sent by the spoke
    Ack,
    /// Used by hub to tell the spoke to open a data channel
    Accept,
}

/// The byte is no message.
#[derive(Debug, Clone, Copy, PartialEq, Eq, Structural)]
pub struct DecodeError;

impl DecodeError {
    /// The error in words.
    pub fn text(&self) -> (s: &'static str)
        ensures
            s@ == "DecodeError"@,
    {
        "DecodeError"
    }
}

/// The byte that stands for a message on the wire.
pub open spec fn tag(message: Message) -> u8 {
    match message {
        Message::Control => 1,
        Message::Data => 2,
        Message::Ack => 3,
        Message::Accept => 4,
    }
}

/// The message that a byte stands for.
pub open spec fn untag(byte: u8) -> Result<Message, DecodeError> {
    match byte {
        1 => Ok(Message::Control),
        2 => Ok(Message::Data),
        3 => Ok(Message::Ack),
        4 => Ok(Message::Accept),
        _ => Err(DecodeError),
    }
}

/// A message is read back from the byte that it is written as.
pub proof fn untag_inverts_tag(message: Message)
    ensures
        untag(tag(message)) == Ok::<Message, DecodeError>(message),
{
}

/// A byte that is read as a message is the byte that the message is written as.
pub proof fn tag_inverts_untag(byte: u8)
    ensures
        untag(byte) matches Ok(m) ==> tag(m) == byte,
{
}

/// The bytes of the wire: `Control` is one, `Data` two, `Ack` three, `Accept` four, and no other
/// byte stands for a message.
pub proof fn bytes_of_the_wire(message: Message, byte: u8)
    ensures
        tag(message) == byte <==> {
            ||| message is Control && byte == 1
            ||| message is Data && byte == 2
            ||| message is Ack && byte == 3
            ||| message is Accept && byte == 4
        },
        untag(byte) == Ok::<Message, DecodeError>(message) <==> tag(message) == byte,
        untag(byte) is Err <==> byte < 1 || byte > 4,
{
}

impl TryFrom<u8> for Message {
    type Error = DecodeError;

    fn try_from(message: u8) -> (r: Result<Message, DecodeError>) {
        match message {
            1 => Ok(Message::Control),
            2 => Ok(Message::Data),
            3 => Ok(Message::Ack),
            4 => Ok(Message::Accept),
            _ => Err(DecodeError),
        }
    }
}

impl TryFromSpecImpl<u8> for Message {
    open spec fn obeys_try_from_spec() -> bool {
        true
    }

    open spec fn try_from_spec(v: u8) -> Result<Message, DecodeError> {
        untag(v)
    }
}

impl From<Message> for u8 {
    fn from(message: Message) -> (r: u8) {
        match message {
            Message::Control => 1,
            Message::Data => 2,
            Message::Ack => 3,
            Message::Accept => 4,
        }
    }
}

impl FromSpecImpl<Message> for u8 {
    open spec fn obeys_from_spec() -> bool {
        true
    }

    open spec fn from_spec(v: Message) -> u8 {
        tag(v)
    }
}

impl Message {
    /// Whether the buffer holds a whole frame.
    pub fn check(buf: &BytesMut) -> (r: bool)
        ensures
            r <==> buffered(*buf).len() >= 1,
    {
        remaining(buf) >= 1
    }

    /// Takes one frame out of the buffer. Nothing is taken, and `None` returned, while the buffer
    /// holds no whole frame. A frame that is no message is taken as well.
    pub fn decode(buf: &mut BytesMut) -> (r: Result<Option<Message>, DecodeError>)
        ensures
            buffered(*old(buf)).len() == 0 ==> {
                &&& r == Ok::<Option<Message>, DecodeError>(None)
                &&& buffered(*final(buf)).len() == 0
            },
            buffered(*old(buf)).len() > 0 ==> {
                &&& r == match untag(buffered(*old(buf))[0]) {
                    Ok(m) => Ok::<Option<Message>, DecodeError>(Some(m)),
                    Err(e) => Err(e),
                }
                &&& buffered(*final(buf)) == buffered(*old(buf)).drop_first()
            },
    {
        if !Message::check(buf) {
            return Ok(None);
        }
        match Message::try_from(get_u8(buf)) {
            Ok(message) => Ok(Some(message)),
            Err(_) => Err(DecodeError),
        }
    }
}

/// `std::io::Error`, carried from a failed read to the caller.
#[verifier::external_type_specification]
#[verifier::external_body]
pub struct ExIoError(std::io::Error);

/// Why no message could be read from a framed stream.
#[derive(Debug)]
pub enum FramedError {
    /// The stream could not be read.
    Io(std::io::Error),
    /// A frame is no message.
    Decode(DecodeError),
    /// The stream has ended.
    Incomplete,
}

impl FramedError {
    /// The error in words.
    pub fn text(&self) -> (s: &'static str)
        ensures
            s@ == match *self {
                FramedError::Io(_) => "read IO error"@,
                FramedError::Decode(_) => "invalid message"@,
                FramedError::Incomplete => "input incomplete"@,
            },
    {
        match self {
            FramedError::Io(_) => "read IO error",
            FramedError::Decode(_) => "invalid message",
            FramedError::Incomplete => "input incomplete",
        }
    }
}

impl From<std::io::Error> for FramedError {
    fn from(error: std::io::Error) -> (r: FramedError) {
        FramedError::Io(error)
    }
}

impl FromSpecImpl<std::io::Error> for FramedError {
    open spec fn obeys_from_spec() -> bool {
        true
    }

    open spec fn from_spec(v: std::io::Error) -> FramedError {
        FramedError::Io(v)
    }
}

impl From<DecodeError> for FramedError {
    fn from(error: DecodeError) -> (r: FramedError) {
        FramedError::Decode(error)
    }
}

impl FromSpecImpl<DecodeError> for FramedError {
    open spec fn obeys_from_spec() -> bool {
        true
    }

    open spec fn from_spec(v: DecodeError) -> FramedError {
        FramedError::Decode(v)
    }
}

/// What happens to a reader of frames.
pub enum ReadEvent {
    /// The next message is wanted.
    Start,
    /// The stream was read, and gave these bytes; none, where it has ended.
    Read(Vec<u8>),
    /// The stream could not be read.
    Failed(std::io::Error),
}

/// What a reader of frames comes to.
pub enum ReadStep {
    /// The stream has to be read first.
    Wait,
    /// The next message, or why there is none.
    Ready(Result<Message, FramedError>),
}

/// What the byte of one frame is read as.
pub open spec fn frame(byte: u8) -> Result<Message, FramedError> {
    match untag(byte) {
        Ok(m) => Ok(m),
        Err(e) => Err(FramedError::Decode(e)),
    }
}

/// What reading the first frame of `pending` comes to, and the bytes that are left after it.
pub open spec fn poll(pending: Seq<u8>) -> (ReadStep, Seq<u8>) {
    if pending.len() == 0 {
        (ReadStep::Wait, pending)
    } else {
        (ReadStep::Ready(frame(pending[0])), pending.drop_first())
    }
}

/// What an event comes to for a reader that holds `pending`, and the bytes that it holds then.
pub open spec fn read_next(pending: Seq<u8>, event: ReadEvent) -> (ReadStep, Seq<u8>) {
    match event {
        ReadEvent::Start => poll(pending),
        ReadEvent::Read(bytes) => if bytes@.len() == 0 {
            (ReadStep::Ready(Err(FramedError::Incomplete)), pending)
        } else {
            poll(pending + bytes@)
        },
        ReadEvent::Failed(error) => (ReadStep::Ready(Err(FramedError::Io(error))), pending),
    }
}

/// A stream, and the bytes that were read from it ahead of the messages asked for.
pub struct Framed<I> {
    pub io: I,
    pub buffer: BytesMut,
}

impl<I> Framed<I> {
    /// Frames a stream of which nothing has been read.
    pub fn new(io: I) -> (r: Framed<I>)
        ensures
            r.io == io,
            buffered(r.buffer) == Seq::<u8>::empty(),
    {
        Framed { io, buffer: empty_buffer() }
    }

    /// Works towards the next message: it begins with [`ReadEvent::Start`], and while the step is
    /// [`ReadStep::Wait`] the caller reads from `io` and reports what that gave. The stream is
    /// read only when no byte is left of what was read before.
    pub fn read_frame(&mut self, event: ReadEvent) -> (step: ReadStep)
        requires
            event is Read ==> buffered(old(self).buffer).len() == 0,
        ensures
            final(self).io == old(self).io,
            (step, buffered(final(self).buffer)) == read_next(buffered(old(self).buffer), event),
    {
        match event {
            ReadEvent::Start => {},
            ReadEvent::Read(bytes) => {
                if bytes.len() == 0 {
                    return ReadStep::Ready(Err(FramedError::Incomplete));
                }
                proof {
                    assert(buffered(self.buffer) + bytes@ =~= bytes@);
                }
                self.buffer = buffer_of(bytes.as_slice());
            },
            ReadEvent::Failed(error) => {
                return ReadStep::Ready(Err(FramedError::from(error)));
            },
        }
        match Message::decode(&mut self.buffer) {
            Ok(Some(message)) => ReadStep::Ready(Ok(message)),
            Ok(None) => ReadStep::Wait,
            Err(error) => ReadStep::Ready(Err(FramedError::from(error))),
        }
    }

    /// The frame of a message: the byte to write to `io`.
    pub fn write_frame(&self, message: Message) -> (byte: u8)
        ensures
            byte == tag(message),
    {
        u8::from(message)
    }

    /// Gives back the stream, and the bytes that were read from it and not yet asked for.
    pub fn into_parts(self) -> (r: (I, BytesMut))
        ensures
            r == (self.io, self.buffer),
    {
        (self.io, self.buffer)
    }
}

/// The bytes that writing these messages one after the other puts on the wire.
pub open spec fn written(messages: Seq<Message>) -> Seq<u8> {
    messages.map_values(|m: Message| tag(m))
}

/// What the chunks give when they are read one after the other.
pub open spec fn joined(chunks: Seq<Vec<u8>>) -> Seq<u8>
    decreases chunks.len(),
{
    if chunks.len() == 0 {
        Seq::empty()
    } else {
        chunks[0]@ + joined(chunks.drop_first())
    }
}

/// What a reader that holds `pending` returns, one message after the other, when the stream gives
/// it these chunks, until it waits for a chunk that does not come.
pub open spec fn read_all(pending: Seq<u8>, chunks: Seq<Vec<u8>>) -> Seq<
    Result<Message, FramedError>,
>
    decreases chunks.len(), pending.len(),
{
    match read_next(pending, ReadEvent::Start) {
        (ReadStep::Ready(r), rest) => if pending.len() > 0 {
            seq![r] + read_all(rest, chunks)
        } else {
            Seq::empty()
        },
        (ReadStep::Wait, _) => if chunks.len() == 0 {
            Seq::empty()
        } else {
            match read_next(pending, ReadEvent::Read(chunks[0])) {
                (ReadStep::Ready(r), rest) => seq![r] + read_all(rest, chunks.drop_first()),
                (ReadStep::Wait, rest) => Seq::empty(),
            }
        },
    }
}

/// However the stream is cut into chunks, each of its bytes is read as one frame, in the order of
/// the stream, and a frame that is no message does not keep the following ones from being read.
pub proof fn reading_ignores_chunks(pending: Seq<u8>, chunks: Seq<Vec<u8>>)
    requires
        forall|i: int| 0 <= i < chunks.len() ==> (#[trigger] chunks[i])@.len() > 0,
    ensures
        read_all(pending, chunks) == (pending + joined(chunks)).map_values(|b: u8| frame(b)),
    decreases chunks.len(), pending.len(),
{
    let f = |b: u8| frame(b);
    let rest = chunks.drop_first();
    if pending.len() > 0 {
        reading_ignores_chunks(pending.drop_first(), chunks);
        assert(seq![f(pending[0])] + (pending.drop_first() + joined(chunks)).map_values(f)
            =~= (pending + joined(chunks)).map_values(f));
    } else if chunks.len() > 0 {
        let chunk = chunks[0]@;
        assert(pending + chunk =~= chunk);
        assert forall|i: int| 0 <= i < rest.len() implies (#[trigger] rest[i])@.len() > 0 by {
            assert(chunks[i + 1]@.len() > 0);
        }
        reading_ignores_chunks(chunk.drop_first(), rest);
        assert(seq![f(chunk[0])] + (chunk.drop_first() + joined(rest)).map_values(f)
            =~= (pending + joined(chunks)).map_values(f));
    } else {
        assert((pending + joined(chunks)).map_values(f) =~= Seq::empty());
    }
}

/// Messages that one side writes are read by the other side, all of them and in order, however the
/// stream is cut into chunks on the way.
pub proof fn reading_gives_back_what_was_written(messages: Seq<Message>, chunks: Seq<Vec<u8>>)
    requires
        forall|i: int| 0 <= i < chunks.len() ==> (#[trigger] chunks[i])@.len() > 0,
        joined(chunks) == written(messages),
    ensures
        read_all(Seq::empty(), chunks) == messages.map_values(
            |m: Message| Ok::<Message, FramedError>(m),
        ),
{
    reading_ignores_chunks(Seq::empty(), chunks);
    assert(Seq::<u8>::empty() + joined(chunks) =~= written(messages));
    assert(written(messages).map_values(|b: u8| frame(b)) =~= messages.map_values(
        |m: Message| Ok::<Message, FramedError>(m),
    ));
}

/// What reading comes to. While the reader holds bytes, the first of them is taken, and is the
/// next message, or no message; while it holds none, the stream has to be read. What the stream
/// gives is read as if it had been held before, after what was. A stream that has ended, or cannot
/// be read, gives an error that says so, and no byte is lost.
pub proof fn reading_takes_the_first_byte(pending: Seq<u8>, bytes: Vec<u8>, error: std::io::Error)
    ensures
        pending.len() == 0 ==> read_next(pending, ReadEvent::Start) == (ReadStep::Wait, pending),
        pending.len() > 0 ==> ({
            let (step, rest) = read_next(pending, ReadEvent::Start);
            &&& rest == pending.subrange(1, pending.len() as int)
            &&& step matches ReadStep::Ready(result)
            &&& match pending[0] {
                1 => result == Ok::<Message, FramedError>(Message::Control),
                2 => result == Ok::<Message, FramedError>(Message::Data),
                3 => result == Ok::<Message, FramedError>(Message::Ack),
                4 => result == Ok::<Message, FramedError>(Message::Accept),
                _ => result == Err::<Message, FramedError>(FramedError::Decode(DecodeError)),
            }
        }),
        bytes@.len() > 0 ==> read_next(pending, ReadEvent::Read(bytes)) == read_next(
            pending + bytes@,
            ReadEvent::Start,
        ),
        bytes@.len() == 0 ==> read_next(pending, ReadEvent::Read(bytes)) == (
            ReadStep::Ready(Err(FramedError::Incomplete)),
            pending,
        ),
        read_next(pending, ReadEvent::Failed(error)) == (
            ReadStep::Ready(Err(FramedError::Io(error))),
            pending,
        ),
{
}

/// A stream that is framed is kept, with no byte read from it yet.
pub proof fn new_framed_stream_is_empty<I>(io: I, framed: Framed<I>)
    requires
        call_ensures(Framed::<I>::new, (io,), framed),
    ensures
        framed.io == io,
        buffered(framed.buffer).len() == 0,
{
}

/// A framed stream writes each message as its byte, and gives back the stream together with the
/// bytes that it holds, whatever these are.
pub proof fn framed_stream_is_given_back<I>(
    framed: Framed<I>,
    message: Message,
    byte: u8,
    parts: (I, BytesMut),
)
    requires
        call_ensures(Framed::<I>::write_frame, (&framed, message), byte),
        call_ensures(Framed::<I>::into_parts, (framed,), parts),
    ensures
        untag(byte) == Ok::<Message, DecodeError>(message),
        parts.0 == framed.io,
        buffered(parts.1) == buffered(framed.buffer),
        parts.1 == framed.buffer,
{
}

/// A framed stream is read as its bytes are, and the stream itself is not touched. It can be asked
/// for a message, and told of a stream that cannot be read, at any time; and of bytes when it
/// holds none.
pub proof fn framed_stream_is_read<I>(framed: &mut Framed<I>, event: ReadEvent, step: ReadStep)
    requires
        call_ensures(Framed::<I>::read_frame, (framed, event), step),
    ensures
        final(framed).io == old(framed).io,
        step == read_next(buffered(old(framed).buffer), event).0,
        buffered(final(framed).buffer) == read_next(buffered(old(framed).buffer), event).1,
        !(event is Read) || buffered(old(framed).buffer).len() == 0 ==> call_requires(
            Framed::<I>::read_frame,
            (framed, event),
        ),
{
}

/// A message is decoded from a buffer as it is read from a stream: the first byte is taken, and
/// only where there is none, nothing.
pub proof fn buffer_is_decoded(
    buf: &mut BytesMut,
    whole: bool,
    result: Result<Option<Message>, DecodeError>,
)
    requires
        call_ensures(Message::check, (&*buf,), whole),
        call_ensures(Message::decode, (buf,), result),
    ensures
        whole <==> buffered(*old(buf)).len() > 0,
        !whole ==> result == Ok::<Option<Message>, DecodeError>(None) && buffered(*final(buf))
            == buffered(*old(buf)),
        whole ==> buffered(*final(buf)) == buffered(*old(buf)).subrange(
            1,
            buffered(*old(buf)).len() as int,
        ),
        whole ==> match read_next(buffered(*old(buf)), ReadEvent::Start).0 {
            ReadStep::Ready(Ok(message)) => result == Ok::<Option<Message>, DecodeError>(
                Some(message),
            ),
            ReadStep::Ready(Err(_)) => result == Err::<Option<Message>, DecodeError>(DecodeError),
            ReadStep::Wait => false,
        },
{
}

/// Each error of a reader has its own words.
pub proof fn reading_errors_in_words(
    error: FramedError,
    text: &'static str,
    decode_error: DecodeError,
    decode_text: &'static str,
)
    requires
        call_ensures(FramedError::text, (&error,), text),
        call_ensures(DecodeError::text, (&decode_error,), decode_text),
    ensures
        error is Io ==> text@ == "read IO error"@,
        error is Decode ==> text@ == "invalid message"@,
        error is Incomplete ==> text@ == "input incomplete"@,
        decode_text@ == "DecodeError"@,
{
}

} // verus!
