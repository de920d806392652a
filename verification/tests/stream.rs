use bytes::{Bytes, BytesMut};
use hydrabadger::framing::MAX_FRAME_LEN;
use hydrabadger::stream::{
    PollAction, PollEvent, SendMsgAction, SendMsgEvent, StartSendAction, StartSendEvent,
};
use hydrabadger::{
    Async, AsyncSink, Error, IoError, Uid, WireMessage, WireMessageKind, WireMessages,
};
use std::io;

type Txn = Vec<u8>;
type Stream = WireMessages<Txn>;

fn encoded(payload: &[u8]) -> Vec<u8> {
    let mut dst = BytesMut::new();
    Stream::new().encode(Bytes::from(payload), &mut dst).unwrap();
    dst.to_vec()
}

fn broken_pipe() -> io::Error {
    io::Error::new(io::ErrorKind::BrokenPipe, "gone")
}

fn is_broken_pipe(err: &Error) -> bool {
    matches!(err, Error::Io(IoError::Stream(err)) if err.kind() == io::ErrorKind::BrokenPipe)
}

fn serde_error() -> bincode::Error {
    Box::new(bincode::ErrorKind::SizeLimit)
}

fn goodbye() -> WireMessage<Txn> {
    WireMessage::from(WireMessageKind::Goodbye)
}

#[test]
fn frame_is_length_and_payload() {
    assert_eq!(encoded(b"abc"), vec![0, 0, 0, 3, 97, 98, 99]);
    assert_eq!(encoded(b""), vec![0, 0, 0, 0]);
    let long = vec![7; 0x01_02_03];
    let frame = encoded(&long);
    assert_eq!(&frame[..4], &[0, 1, 2, 3]);
    assert_eq!(&frame[4..], &long[..]);
}

#[test]
fn frames_are_added_behind_each_other() {
    let mut dst = BytesMut::new();
    let mut stream = Stream::new();
    stream.encode(Bytes::from(vec![1]), &mut dst).unwrap();
    stream.encode(Bytes::from(vec![2, 3]), &mut dst).unwrap();
    assert_eq!(dst.to_vec(), vec![0, 0, 0, 1, 1, 0, 0, 0, 2, 2, 3]);
}

#[test]
fn longest_payload_is_sent_and_read() {
    assert_eq!(MAX_FRAME_LEN, 8 * 1024 * 1024);
    let payload = vec![5; MAX_FRAME_LEN];
    let frame = encoded(&payload);
    assert_eq!(&frame[..4], &[0, 0x80, 0, 0]);
    let mut src = BytesMut::from(frame);
    let taken = Stream::new().decode(&mut src).unwrap().unwrap();
    assert!(taken.to_vec() == payload);
    assert!(src.is_empty());
}

#[test]
fn oversized_payload_is_not_sent() {
    let mut dst = BytesMut::from(vec![1, 2]);
    let payload = Bytes::from(vec![5; MAX_FRAME_LEN + 1]);
    let err = Stream::new().encode(payload, &mut dst).unwrap_err();
    assert_eq!(err.kind(), io::ErrorKind::InvalidInput);
    assert_eq!(dst.to_vec(), vec![1, 2]);
}

#[test]
fn oversized_frame_is_refused_at_its_head() {
    let mut src = BytesMut::from(vec![0, 0x80, 0, 1]);
    let err = Stream::new().decode(&mut src).unwrap_err();
    assert_eq!(err.kind(), io::ErrorKind::InvalidData);
    assert_eq!(src.to_vec(), vec![0, 0x80, 0, 1]);
}

#[test]
fn payloads_are_read_in_order() {
    let mut src = BytesMut::from(vec![0, 0, 0, 2, 8, 9, 0, 0, 0, 0, 0, 0, 0, 1, 7, 0, 0]);
    let mut stream = Stream::new();
    assert_eq!(stream.decode(&mut src).unwrap().unwrap().to_vec(), vec![8, 9]);
    assert_eq!(stream.decode(&mut src).unwrap().unwrap().to_vec(), vec![]);
    assert_eq!(stream.decode(&mut src).unwrap().unwrap().to_vec(), vec![7]);
    assert!(stream.decode(&mut src).unwrap().is_none());
    assert_eq!(src.to_vec(), vec![0, 0]);
}

#[test]
fn arrival_in_single_bytes_makes_no_difference() {
    let bytes = vec![0, 0, 0, 3, 1, 2, 3, 0, 0, 0, 1, 4];
    let mut stream = Stream::new();
    let mut src = BytesMut::new();
    let mut taken = Vec::new();
    for byte in bytes {
        src.extend_from_slice(&[byte]);
        if let Some(payload) = stream.decode(&mut src).unwrap() {
            taken.push(payload.to_vec());
        }
    }
    assert_eq!(taken, vec![vec![1, 2, 3], vec![4]]);
    assert!(src.is_empty());
}

#[test]
fn head_of_a_partial_frame_leaves_the_buffer() {
    let mut stream = Stream::new();
    let mut src = BytesMut::from(vec![0, 0, 0, 2, 5]);
    assert!(stream.decode(&mut src).unwrap().is_none());
    assert_eq!(src.to_vec(), vec![5]);
    let mut dst = BytesMut::new();
    stream.encode(Bytes::from(vec![1]), &mut dst).unwrap();
    src.extend_from_slice(&[6, 0]);
    assert_eq!(stream.decode(&mut src).unwrap().unwrap().to_vec(), vec![5, 6]);
    assert_eq!(src.to_vec(), vec![0]);
}

#[test]
fn polled_frame_is_deserialized() {
    let event = PollEvent::Polled(Ok(Async::Ready(Some(BytesMut::from(vec![1, 2, 3])))));
    match Stream::poll(event) {
        PollAction::Deserialize(bytes) => assert_eq!(&bytes[..], &[1, 2, 3]),
        _ => panic!("another action"),
    }
}

#[test]
fn deserialized_message_is_returned() {
    let uid = Uid::new();
    let msg = WireMessage::transaction(uid, vec![1]);
    match Stream::poll(PollEvent::Deserialized(Ok(msg))) {
        PollAction::Return(Ok(Async::Ready(Some(msg)))) => match msg.into_kind() {
            WireMessageKind::Transaction(u, txn) => assert!(u == uid && txn == vec![1]),
            _ => panic!("another message"),
        },
        _ => panic!("another action"),
    }
}

#[test]
fn bytes_that_are_no_message_are_a_serde_error() {
    match Stream::poll(PollEvent::Deserialized(Err(serde_error()))) {
        PollAction::Return(Err(Error::Serde(err))) => {
            assert!(matches!(*err, bincode::ErrorKind::SizeLimit))
        }
        _ => panic!("another action"),
    }
}

#[test]
fn end_and_wait_and_error_are_passed_on() {
    assert!(matches!(
        Stream::poll(PollEvent::Polled(Ok(Async::Ready(None)))),
        PollAction::Return(Ok(Async::Ready(None)))
    ));
    assert!(matches!(
        Stream::poll(PollEvent::Polled(Ok(Async::NotReady))),
        PollAction::Return(Ok(Async::NotReady))
    ));
    match Stream::poll(PollEvent::Polled(Err(broken_pipe()))) {
        PollAction::Return(Err(err)) => assert!(is_broken_pipe(&err)),
        _ => panic!("another action"),
    }
}

#[test]
fn serialized_message_is_offered() {
    let event = StartSendEvent::Serialized(goodbye(), Ok(vec![1, 2, 3]));
    match Stream::start_send(event) {
        StartSendAction::Offer(item, payload) => {
            assert!(matches!(item.kind(), WireMessageKind::Goodbye));
            assert_eq!(&payload[..], &[1, 2, 3]);
        }
        _ => panic!("another action"),
    }
}

#[test]
fn message_that_cannot_be_serialized_is_an_io_error() {
    match Stream::start_send(StartSendEvent::Serialized(goodbye(), Err(serde_error()))) {
        StartSendAction::Return(Err(Error::Io(IoError::Other(err)))) => {
            assert!(matches!(*err, bincode::ErrorKind::SizeLimit))
        }
        _ => panic!("another action"),
    }
}

#[test]
fn refused_message_comes_back() {
    let uid = Uid::new();
    let item = WireMessage::transaction(uid, vec![4]);
    let refused = Ok(AsyncSink::NotReady(Bytes::from(vec![9])));
    match Stream::start_send(StartSendEvent::Offered(item, refused)) {
        StartSendAction::Return(Ok(AsyncSink::NotReady(item))) => match item.into_kind() {
            WireMessageKind::Transaction(u, txn) => assert!(u == uid && txn == vec![4]),
            _ => panic!("another message"),
        },
        _ => panic!("another action"),
    }
}

#[test]
fn accepted_message_is_reported() {
    assert!(matches!(
        Stream::start_send(StartSendEvent::Offered(goodbye(), Ok(AsyncSink::Ready))),
        StartSendAction::Return(Ok(AsyncSink::Ready))
    ));
    match Stream::start_send(StartSendEvent::Offered(goodbye(), Err(broken_pipe()))) {
        StartSendAction::Return(Err(err)) => assert!(is_broken_pipe(&err)),
        _ => panic!("another action"),
    }
}

#[test]
fn offered_message_is_flushed() {
    assert!(matches!(
        Stream::send_msg(SendMsgEvent::Started(Ok(AsyncSink::Ready))),
        SendMsgAction::PollComplete
    ));
    assert!(matches!(
        Stream::send_msg(SendMsgEvent::Started(Ok(AsyncSink::NotReady(goodbye())))),
        SendMsgAction::PollComplete
    ));
    match Stream::send_msg(SendMsgEvent::Started(Err(Error::from(broken_pipe())))) {
        SendMsgAction::Return(Err(err)) => assert!(is_broken_pipe(&err)),
        _ => panic!("another action"),
    }
}

#[test]
fn message_is_sent_once_the_flush_is_under_way() {
    assert!(matches!(
        Stream::send_msg(SendMsgEvent::Flushed(Ok(Async::Ready(())))),
        SendMsgAction::Return(Ok(()))
    ));
    assert!(matches!(
        Stream::send_msg(SendMsgEvent::Flushed(Ok(Async::NotReady))),
        SendMsgAction::Return(Ok(()))
    ));
    match Stream::send_msg(SendMsgEvent::Flushed(Err(Error::Serde(serde_error())))) {
        SendMsgAction::Return(Err(Error::Serde(_))) => {}
        _ => panic!("another action"),
    }
}

#[test]
fn flush_and_close_pass_their_outcome_on() {
    assert!(matches!(Stream::poll_complete(Ok(Async::Ready(()))), Ok(Async::Ready(()))));
    assert!(matches!(Stream::poll_complete(Ok(Async::NotReady)), Ok(Async::NotReady)));
    assert!(is_broken_pipe(&Stream::poll_complete(Err(broken_pipe())).err().unwrap()));
    assert!(matches!(Stream::close(Ok(Async::Ready(()))), Ok(Async::Ready(()))));
    assert!(matches!(Stream::close(Ok(Async::NotReady)), Ok(Async::NotReady)));
    assert!(is_broken_pipe(&Stream::close(Err(broken_pipe())).err().unwrap()));
}

#[test]
fn payload_reaches_the_other_side() {
    let serialized = vec![3, 1, 4, 1, 5];
    let payload = match Stream::start_send(StartSendEvent::Serialized(
        goodbye(),
        Ok(serialized.clone()),
    )) {
        StartSendAction::Offer(_, payload) => payload,
        _ => panic!("another action"),
    };
    let mut bytes = BytesMut::new();
    Stream::new().encode(payload, &mut bytes).unwrap();
    bytes.extend_from_slice(&[0, 0]);
    let taken = Stream::new().decode(&mut bytes).unwrap();
    match Stream::poll(PollEvent::Polled(Ok(Async::Ready(taken)))) {
        PollAction::Deserialize(received) => assert_eq!(&received[..], &serialized[..]),
        _ => panic!("another action"),
    }
    assert_eq!(bytes.to_vec(), vec![0, 0]);
}

#[test]
fn what_is_sent_is_taken_in_order() {
    let sent: Vec<Vec<u8>> = (0..40).map(|n| vec![n as u8; n * n]).collect();
    let mut written = BytesMut::new();
    let mut writer = Stream::new();
    for payload in &sent {
        writer.encode(Bytes::from(&payload[..]), &mut written).unwrap();
    }
    for size in vec![1, 3, 4, 5, 1000, 100_000] {
        let mut reader = Stream::new();
        let mut src = BytesMut::new();
        let mut taken: Vec<Vec<u8>> = Vec::new();
        for piece in written.chunks(size) {
            src.extend_from_slice(piece);
            while let Some(payload) = reader.decode(&mut src).unwrap() {
                taken.push(payload.to_vec());
            }
            assert_eq!(taken[..], sent[..taken.len()]);
        }
        assert_eq!(taken, sent);
        assert!(src.is_empty());
    }
}
