use bytes::{Buf, BytesMut};
use hub::handshake::{DecodeError, Framed, FramedError, Message, ReadEvent, ReadStep};
use tokio::io::{AsyncRead, AsyncReadExt, AsyncWrite, AsyncWriteExt};

fn ready(step: ReadStep) -> Result<Message, FramedError> {
    match step {
        ReadStep::Ready(result) => result,
        ReadStep::Wait => panic!("the stream has to be read first"),
    }
}

/// Reads one message from a stream that gives these bytes and then nothing more.
fn read_frame(framed: &mut Framed<Vec<u8>>) -> Result<Message, FramedError> {
    match framed.read_frame(ReadEvent::Start) {
        ReadStep::Ready(result) => result,
        ReadStep::Wait => {
            let bytes = std::mem::take(&mut framed.io);
            ready(framed.read_frame(ReadEvent::Read(bytes)))
        }
    }
}

/// Reads one message from an asynchronous stream.
async fn read_frame_from<I: AsyncRead + Unpin>(
    framed: &mut Framed<I>,
) -> Result<Message, FramedError> {
    let mut event = ReadEvent::Start;
    loop {
        match framed.read_frame(event) {
            ReadStep::Ready(result) => return result,
            ReadStep::Wait => {
                let mut bytes = Vec::new();
                event = match framed.io.read_buf(&mut bytes).await {
                    Ok(_) => ReadEvent::Read(bytes),
                    Err(error) => ReadEvent::Failed(error),
                };
            }
        }
    }
}

/// Writes one message to an asynchronous stream.
async fn write_frame_to<I: AsyncWrite + Unpin>(
    framed: &mut Framed<I>,
    message: Message,
) -> std::io::Result<()> {
    let byte = framed.write_frame(message);
    framed.io.write_u8(byte).await
}

#[test]
fn test_codec() {
    let runtime = tokio::runtime::Builder::new_current_thread().build().unwrap();
    runtime.block_on(async {
        let (client, mut server) = tokio::io::duplex(64);

        // write invalid data
        server.write_u8(233).await.unwrap();

        // frame both stream
        let (mut client, mut server) = (Framed::new(client), Framed::new(server));

        assert!(read_frame_from(&mut client).await.is_err());

        // normal data
        write_frame_to(&mut server, Message::Ack).await.unwrap();
        assert_eq!(read_frame_from(&mut client).await.unwrap(), Message::Ack);
    });
}

#[test]
fn invalid_byte_in_the_same_chunk_is_skipped() {
    let mut client = Framed::new(vec![233, 3, 0, 4]);
    assert!(matches!(read_frame(&mut client), Err(FramedError::Decode(DecodeError))));
    assert_eq!(read_frame(&mut client).unwrap(), Message::Ack);
    assert!(matches!(read_frame(&mut client), Err(FramedError::Decode(DecodeError))));
    assert_eq!(read_frame(&mut client).unwrap(), Message::Accept);
    assert!(matches!(read_frame(&mut client), Err(FramedError::Incomplete)));
}

#[test]
fn bytes_and_messages_stand_for_each_other() {
    let pairs = [
        (1u8, Message::Control),
        (2, Message::Data),
        (3, Message::Ack),
        (4, Message::Accept),
    ];
    for (byte, message) in pairs {
        assert_eq!(Message::try_from(byte), Ok(message));
        assert_eq!(u8::from(message), byte);
    }
    assert_eq!(Message::try_from(0), Err(DecodeError));
    for byte in 5..=255u8 {
        assert_eq!(Message::try_from(byte), Err(DecodeError));
    }
}

#[test]
fn decode_takes_one_byte_at_a_time() {
    let mut buf = BytesMut::new();
    assert!(!Message::check(&buf));
    assert_eq!(Message::decode(&mut buf), Ok(None));
    buf.extend_from_slice(&[2, 9, 1]);
    assert!(Message::check(&buf));
    assert_eq!(Message::decode(&mut buf), Ok(Some(Message::Data)));
    assert_eq!(buf.remaining(), 2);
    assert_eq!(Message::decode(&mut buf), Err(DecodeError));
    assert_eq!(buf.remaining(), 1);
    assert_eq!(Message::decode(&mut buf), Ok(Some(Message::Control)));
    assert_eq!(Message::decode(&mut buf), Ok(None));
}

#[test]
fn messages_come_back_however_the_stream_is_cut() {
    let messages = [Message::Control, Message::Ack, Message::Data, Message::Accept, Message::Ack];
    let writer = Framed::new(());
    let mut wire = Vec::new();
    for message in messages {
        wire.push(writer.write_frame(message));
    }
    assert_eq!(wire, vec![1, 3, 2, 4, 3]);
    for size in 1..=wire.len() {
        let mut reader = Framed::new(());
        let mut chunks = wire.chunks(size);
        let mut read = Vec::new();
        while read.len() < messages.len() {
            match reader.read_frame(ReadEvent::Start) {
                ReadStep::Ready(result) => read.push(result.unwrap()),
                ReadStep::Wait => {
                    let chunk = chunks.next().unwrap().to_vec();
                    read.push(ready(reader.read_frame(ReadEvent::Read(chunk))).unwrap());
                }
            }
        }
        assert_eq!(read, messages);
    }
}

#[test]
fn end_and_failure_of_the_stream_are_told_apart() {
    let mut framed = Framed::new(());
    assert!(matches!(framed.read_frame(ReadEvent::Start), ReadStep::Wait));
    let end = ready(framed.read_frame(ReadEvent::Read(Vec::new()))).unwrap_err();
    assert!(matches!(end, FramedError::Incomplete));
    assert_eq!(end.text(), "input incomplete");
    let broken = std::io::Error::from(std::io::ErrorKind::ConnectionReset);
    let failed = ready(framed.read_frame(ReadEvent::Failed(broken))).unwrap_err();
    assert_eq!(failed.text(), "read IO error");
    match failed {
        FramedError::Io(error) => assert_eq!(error.kind(), std::io::ErrorKind::ConnectionReset),
        _ => panic!("wrong error"),
    }
    let invalid = FramedError::from(DecodeError);
    assert_eq!(invalid.text(), "invalid message");
    assert_eq!(DecodeError.text(), "DecodeError");
}

#[test]
fn parts_hold_what_was_read_ahead() {
    let mut framed = Framed::new(7u8);
    let first = ready(framed.read_frame(ReadEvent::Read(vec![3, 4, 5])));
    assert_eq!(first.unwrap(), Message::Ack);
    let (io, buffer) = framed.into_parts();
    assert_eq!(io, 7);
    assert_eq!(&buffer[..], &[4, 5]);
}
