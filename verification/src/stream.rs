//! A stream/sink of wire messages connected to a socket.
//!
//! Reading from and writing to the socket, and turning messages into bytes and
//! back, is the caller's work. What is done with the outcome is decided here:
//! each decision takes an event and says what comes next.
use crate::framing;
use crate::framing::{Front, HEAD_LEN, MAX_FRAME_LEN};
use crate::outside;
use crate::wire::WireMessage;
use bytes::{Bytes, BytesMut};
use std::marker::PhantomData;
use tokio::codec::LengthDelimitedCodec;
use vstd::prelude::*;

verus! {

/// `tokio::codec::LengthDelimitedCodec`, which puts frames on a stream and
/// takes them off it.
#[verifier::external_type_specification]
#[verifier::external_body]
pub struct ExLengthDelimitedCodec(LengthDelimitedCodec);

/// The bytes of a stream that a codec has taken out of the buffer and not
/// delivered yet: nothing, or the head of the frame that it waits for.
pub uninterp spec fn held(codec: LengthDelimitedCodec) -> Seq<u8>;

/// Whether a codec has the layout and the limit that
/// `LengthDelimitedCodec::new` gives: a head of four bytes, most significant
/// first, that counts the payload alone, and payloads of at most 8 MiB.
pub uninterp spec fn standard(codec: LengthDelimitedCodec) -> bool;

/// `tokio::codec::LengthDelimitedCodec::new`: a codec with the default
/// configuration that has taken nothing from its stream yet.
pub assume_specification[ LengthDelimitedCodec::new ]() -> (codec: LengthDelimitedCodec)
    ensures
        standard(codec),
        held(codec) == Seq::<u8>::empty(),
;

/// Calls `encode` of `LengthDelimitedCodec`.
///
/// Trusted: a payload of at most 8 MiB is added to `dst` as a frame, a longer
/// one is an error and leaves `dst` as it was. What the codec holds of the
/// stream that it reads stays the same. The kind of the error, `InvalidInput`,
/// is left unsaid: an error is passed on unopened.
#[verifier::external_body]
fn codec_encode(codec: &mut LengthDelimitedCodec, payload: Bytes, dst: &mut BytesMut) -> (r: Result<
    (),
    std::io::Error,
>)
    requires
        standard(*old(codec)),
    ensures
        standard(*final(codec)),
        held(*final(codec)) == held(*old(codec)),
        r is Ok <==> framing::fits(outside::content(payload)),
        outside::buffered(*final(dst)) == (if framing::fits(outside::content(payload)) {
            outside::buffered(*old(dst)) + framing::frame(outside::content(payload))
        } else {
            outside::buffered(*old(dst))
        }),
{
    tokio::codec::Encoder::encode(codec, payload, dst)
}

/// Calls `decode` of `LengthDelimitedCodec`.
///
/// Trusted: the bytes that the codec holds, followed by those in `src`, are
/// the stream. A whole frame at its front is taken off and its payload handed
/// out. The head of a frame that has not arrived in full is moved from `src`
/// into the codec, and nothing is handed out. A frame of more than 8 MiB is an
/// error that leaves everything as it was; its kind, `InvalidData`, is left
/// unsaid.
#[verifier::external_body]
fn codec_decode(codec: &mut LengthDelimitedCodec, src: &mut BytesMut) -> (r: Result<
    Option<BytesMut>,
    std::io::Error,
>)
    requires
        standard(*old(codec)),
    ensures
        standard(*final(codec)),
        decoded(
            held(*old(codec)),
            outside::buffered(*old(src)),
            held(*final(codec)),
            outside::buffered(*final(src)),
            r,
        ),
{
    tokio::codec::Decoder::decode(codec, src)
}

/// How one attempt to read a frame ends, on a stream of which `held` and
/// `buffer` have arrived and are not delivered.
pub open spec fn decoded(
    held: Seq<u8>,
    buffer: Seq<u8>,
    new_held: Seq<u8>,
    new_buffer: Seq<u8>,
    r: Result<Option<BytesMut>, std::io::Error>,
) -> bool {
    let stream = held + buffer;
    match framing::front(stream) {
        Front::Whole(payload, rest) => {
            &&& r matches Ok(Some(taken))
            &&& outside::buffered(taken) == payload
            &&& new_held == Seq::<u8>::empty()
            &&& new_buffer == rest
        },
        Front::Incomplete => {
            &&& r matches Ok(None)
            &&& new_held == (if stream.len() < HEAD_LEN {
                Seq::<u8>::empty()
            } else {
                stream.take(HEAD_LEN as int)
            })
            &&& new_held + new_buffer == stream
        },
        Front::TooLong => {
            &&& r is Err
            &&& new_held == held
            &&& new_buffer == buffer
        },
    }
}

/// Whether a value is there already.
pub enum Async<T> {
    Ready(T),
    NotReady,
}

/// Whether an item was accepted; one that was not comes back.
pub enum AsyncSink<T> {
    Ready,
    NotReady(T),
}

/// An input or output error.
pub enum IoError {
    /// An error of the socket or of the framing.
    Stream(std::io::Error),
    /// An error of the kind `Other`, whose cause is that a message could not
    /// be serialized.
    Other(bincode::Error),
}

/// What can go wrong on a stream of wire messages.
pub enum Error {
    Io(IoError),
    /// The bytes of a frame are no message.
    Serde(bincode::Error),
}

impl From<std::io::Error> for Error {
    fn from(err: std::io::Error) -> (error: Error)
        ensures
            error == Error::Io(IoError::Stream(err)),
    {
        Error::Io(IoError::Stream(err))
    }
}

impl vstd::std_specs::convert::FromSpecImpl<std::io::Error> for Error {
    open spec fn obeys_from_spec() -> bool {
        true
    }

    open spec fn from_spec(err: std::io::Error) -> Error {
        Error::Io(IoError::Stream(err))
    }
}

/// What has happened while the stream is polled for a message.
pub enum PollEvent<T> {
    /// The framed socket was polled.
    Polled(Result<Async<Option<BytesMut>>, std::io::Error>),
    /// The bytes of a frame were deserialized.
    Deserialized(Result<WireMessage<T>, bincode::Error>),
}

/// What polling the stream does next.
pub enum PollAction<T> {
    /// Deserialize these bytes.
    Deserialize(Bytes),
    /// Return this.
    Return(Result<Async<Option<WireMessage<T>>>, Error>),
}

/// What has happened while a message is offered to the sink.
pub enum StartSendEvent<T> {
    /// This message was serialized.
    Serialized(WireMessage<T>, Result<Vec<u8>, bincode::Error>),
    /// The bytes of this message were offered to the framed socket.
    Offered(WireMessage<T>, Result<AsyncSink<Bytes>, std::io::Error>),
}

/// What offering a message does next.
pub enum StartSendAction<T> {
    /// Offer the bytes of this message to the framed socket.
    Offer(WireMessage<T>, Bytes),
    /// Return this.
    Return(Result<AsyncSink<WireMessage<T>>, Error>),
}

/// What has happened while a message is sent.
pub enum SendMsgEvent<T> {
    /// The message was offered to the sink.
    Started(Result<AsyncSink<WireMessage<T>>, Error>),
    /// The sink was flushed.
    Flushed(Result<Async<()>, Error>),
}

/// What sending a message does next.
pub enum SendMsgAction {
    /// Flush the sink.
    PollComplete,
    /// Return this.
    Return(Result<(), Error>),
}

/// Whether `action` is what follows `event` when a stream is polled: the bytes
/// of a frame are deserialized, and the message in them is returned. The end
/// of the stream and the lack of a frame are passed on, and so are errors.
pub open spec fn poll_answers<T>(event: PollEvent<T>, action: PollAction<T>) -> bool {
    match event {
        PollEvent::Polled(Ok(Async::Ready(Some(taken)))) => {
            &&& action matches PollAction::Deserialize(bytes)
            &&& outside::content(bytes) == outside::buffered(taken)
        },
        PollEvent::Polled(Ok(Async::Ready(None))) => action == PollAction::<T>::Return(
            Ok(Async::Ready(None)),
        ),
        PollEvent::Polled(Ok(Async::NotReady)) => action == PollAction::<T>::Return(
            Ok(Async::NotReady),
        ),
        PollEvent::Polled(Err(err)) => action == PollAction::<T>::Return(
            Err(Error::Io(IoError::Stream(err))),
        ),
        PollEvent::Deserialized(Ok(msg)) => action == PollAction::Return(
            Ok(Async::Ready(Some(msg))),
        ),
        PollEvent::Deserialized(Err(err)) => action == PollAction::<T>::Return(
            Err(Error::Serde(err)),
        ),
    }
}

/// Whether `action` is what follows `event` when a message is offered: its
/// bytes are offered to the framed socket, and if they are not accepted the
/// message comes back. That it could not be serialized is an input or output
/// error like those of the socket.
pub open spec fn start_send_answers<T>(event: StartSendEvent<T>, action: StartSendAction<T>) -> bool {
    match event {
        StartSendEvent::Serialized(item, Ok(serialized)) => {
            &&& action matches StartSendAction::Offer(offered, bytes)
            &&& offered == item
            &&& outside::content(bytes) == serialized@
        },
        StartSendEvent::Serialized(_, Err(err)) => action == StartSendAction::<T>::Return(
            Err(Error::Io(IoError::Other(err))),
        ),
        StartSendEvent::Offered(_, Ok(AsyncSink::Ready)) => action
            == StartSendAction::<T>::Return(Ok(AsyncSink::Ready)),
        StartSendEvent::Offered(item, Ok(AsyncSink::NotReady(_))) => action
            == StartSendAction::Return(Ok(AsyncSink::NotReady(item))),
        StartSendEvent::Offered(_, Err(err)) => action == StartSendAction::<T>::Return(
            Err(Error::Io(IoError::Stream(err))),
        ),
    }
}

/// Whether `action` is what follows `event` when a message is sent: the sink
/// is flushed once the message was offered, accepted or not, and the flush
/// need not be complete.
pub open spec fn send_msg_answers<T>(event: SendMsgEvent<T>, action: SendMsgAction) -> bool {
    match event {
        SendMsgEvent::Started(Ok(_)) => action == SendMsgAction::PollComplete,
        SendMsgEvent::Started(Err(err)) => action == SendMsgAction::Return(Err(err)),
        SendMsgEvent::Flushed(Ok(_)) => action == SendMsgAction::Return(Ok(())),
        SendMsgEvent::Flushed(Err(err)) => action == SendMsgAction::Return(Err(err)),
    }
}

/// What a flush of the framed socket is to the caller of the sink.
pub open spec fn flush_outcome(flushed: Result<Async<()>, std::io::Error>) -> Result<
    Async<()>,
    Error,
> {
    match flushed {
        Ok(progress) => Ok(progress),
        Err(err) => Err(Error::Io(IoError::Stream(err))),
    }
}

/// A stream/sink of `WireMessage`s connected to a socket.
#[derive(Debug)]
pub struct WireMessages<T> {
    codec: LengthDelimitedCodec,
    _t: PhantomData<T>,
}

impl<T> WireMessages<T> {
    /// Whether the frames are laid out as `framing` describes, and what is
    /// pending is nothing or the head of a frame that will be accepted.
    pub closed spec fn well_formed(&self) -> bool {
        &&& standard(self.codec)
        &&& held(self.codec).len() > 0 ==> {
            &&& held(self.codec).len() == HEAD_LEN
            &&& framing::head_value(held(self.codec)) <= MAX_FRAME_LEN
        }
    }

    /// The bytes that were taken from the socket's buffer and not delivered
    /// yet.
    pub closed spec fn pending(&self) -> Seq<u8> {
        held(self.codec)
    }

    /// Returns a stream on which nothing has been sent or received.
    pub fn new() -> (messages: WireMessages<T>)
        ensures
            messages.well_formed(),
            messages.pending() == Seq::<u8>::empty(),
    {
        WireMessages { codec: LengthDelimitedCodec::new(), _t: PhantomData }
    }

    /// Adds the frame of `payload` to the bytes that wait to be written to the
    /// socket.
    pub fn encode(&mut self, payload: Bytes, dst: &mut BytesMut) -> (r: Result<(), std::io::Error>)
        requires
            old(self).well_formed(),
        ensures
            final(self).well_formed(),
            final(self).pending() == old(self).pending(),
            r is Ok <==> framing::fits(outside::content(payload)),
            r is Ok ==> outside::buffered(*final(dst)) == outside::buffered(*old(dst))
                + framing::frame(outside::content(payload)),
            r is Err ==> outside::buffered(*final(dst)) == outside::buffered(*old(dst)),
    {
        codec_encode(&mut self.codec, payload, dst)
    }

    /// Takes the next payload out of the bytes that were read from the socket,
    /// if it is there in full.
    pub fn decode(&mut self, src: &mut BytesMut) -> (r: Result<Option<BytesMut>, std::io::Error>)
        requires
            old(self).well_formed(),
        ensures
            final(self).well_formed(),
            decoded(
                old(self).pending(),
                outside::buffered(*old(src)),
                final(self).pending(),
                outside::buffered(*final(src)),
                r,
            ),
    {
        codec_decode(&mut self.codec, src)
    }

    /// Decides what comes next when the stream is polled for a message.
    pub fn poll(event: PollEvent<T>) -> (action: PollAction<T>)
        ensures
            poll_answers(event, action),
    {
        match event {
            PollEvent::Polled(Ok(Async::Ready(Some(taken)))) => PollAction::Deserialize(
                taken.freeze(),
            ),
            PollEvent::Polled(Ok(Async::Ready(None))) => PollAction::Return(
                Ok(Async::Ready(None)),
            ),
            PollEvent::Polled(Ok(Async::NotReady)) => PollAction::Return(Ok(Async::NotReady)),
            PollEvent::Polled(Err(err)) => PollAction::Return(Err(Error::from(err))),
            PollEvent::Deserialized(Ok(msg)) => PollAction::Return(Ok(Async::Ready(Some(msg)))),
            PollEvent::Deserialized(Err(err)) => PollAction::Return(Err(Error::Serde(err))),
        }
    }

    /// Decides what comes next when a message is offered to the sink.
    pub fn start_send(event: StartSendEvent<T>) -> (action: StartSendAction<T>)
        ensures
            start_send_answers(event, action),
    {
        match event {
            StartSendEvent::Serialized(item, Ok(bytes)) => {
                let mut serialized = BytesMut::new();
                serialized.extend_from_slice(bytes.as_slice());
                proof {
                    assert(Seq::<u8>::empty() + bytes@ =~= bytes@);
                }
                StartSendAction::Offer(item, serialized.freeze())
            },
            StartSendEvent::Serialized(_, Err(err)) => StartSendAction::Return(
                Err(Error::Io(IoError::Other(err))),
            ),
            StartSendEvent::Offered(item, Ok(async_sink)) => match async_sink {
                AsyncSink::Ready => StartSendAction::Return(Ok(AsyncSink::Ready)),
                AsyncSink::NotReady(_) => StartSendAction::Return(Ok(AsyncSink::NotReady(item))),
            },
            StartSendEvent::Offered(_, Err(err)) => StartSendAction::Return(
                Err(Error::Io(IoError::Stream(err))),
            ),
        }
    }

    /// Decides what comes next when a message is offered and flushed.
    pub fn send_msg(event: SendMsgEvent<T>) -> (action: SendMsgAction)
        ensures
            send_msg_answers(event, action),
    {
        match event {
            SendMsgEvent::Started(Ok(_)) => SendMsgAction::PollComplete,
            SendMsgEvent::Started(Err(err)) => SendMsgAction::Return(Err(err)),
            SendMsgEvent::Flushed(Ok(_)) => SendMsgAction::Return(Ok(())),
            SendMsgEvent::Flushed(Err(err)) => SendMsgAction::Return(Err(err)),
        }
    }

    /// The outcome of flushing the sink, given that of the framed socket.
    pub fn poll_complete(flushed: Result<Async<()>, std::io::Error>) -> (outcome: Result<
        Async<()>,
        Error,
    >)
        ensures
            outcome == flush_outcome(flushed),
    {
        match flushed {
            Ok(progress) => Ok(progress),
            Err(err) => Err(Error::from(err)),
        }
    }

    /// The outcome of closing the sink, given that of the framed socket.
    pub fn close(closed: Result<Async<()>, std::io::Error>) -> (outcome: Result<Async<()>, Error>)
        ensures
            outcome == flush_outcome(closed),
    {
        match closed {
            Ok(progress) => Ok(progress),
            Err(err) => Err(Error::from(err)),
        }
    }
}

/// What is pending is nothing, or the head of a frame that is short enough.
pub proof fn law_pending_is_a_head<T>(messages: WireMessages<T>)
    requires
        messages.well_formed(),
    ensures
        messages.pending().len() == 0 || {
            &&& messages.pending().len() == HEAD_LEN
            &&& framing::head_value(messages.pending()) <= MAX_FRAME_LEN
        },
{
}

/// Each attempt to read a frame delivers the first of the payloads that the
/// stream holds and leaves the others, in their order. When nothing is handed
/// out there is nothing to deliver, and every byte is kept for later.
pub proof fn law_decode_delivers_in_order(
    held: Seq<u8>,
    buffer: Seq<u8>,
    new_held: Seq<u8>,
    new_buffer: Seq<u8>,
    r: Result<Option<BytesMut>, std::io::Error>,
)
    requires
        decoded(held, buffer, new_held, new_buffer, r),
    ensures
        r matches Ok(Some(taken)) ==> framing::delivered(held + buffer) == seq![
            outside::buffered(taken),
        ] + framing::delivered(new_held + new_buffer),
        !(r matches Ok(Some(_))) ==> {
            &&& framing::delivered(held + buffer) == Seq::<Seq<u8>>::empty()
            &&& new_held + new_buffer == held + buffer
        },
{
    assert(Seq::<u8>::empty() + new_buffer =~= new_buffer);
}

/// A reader accounts for every byte that has come, whatever the attempt to
/// read a frame brings: each payload that is handed out is added to those that
/// were taken.
pub proof fn law_decode_stays_accounted(
    arrived: Seq<u8>,
    taken: Seq<Seq<u8>>,
    held: Seq<u8>,
    buffer: Seq<u8>,
    new_held: Seq<u8>,
    new_buffer: Seq<u8>,
    r: Result<Option<BytesMut>, std::io::Error>,
)
    requires
        framing::accounted(arrived, taken, held + buffer),
        decoded(held, buffer, new_held, new_buffer, r),
    ensures
        framing::accounted(
            arrived,
            match r {
                Ok(Some(payload)) => taken.push(outside::buffered(payload)),
                _ => taken,
            },
            new_held + new_buffer,
        ),
{
    framing::law_taking_stays_accounted(arrived, taken, held + buffer);
    assert(Seq::<u8>::empty() + new_buffer =~= new_buffer);
}

/// The bytes into which one side serializes a message are those that the other
/// side deserializes, if they are not too many for a frame. What follows them
/// on the stream stays there.
pub proof fn law_payload_reaches_the_other_side<T>(
    item: WireMessage<T>,
    serialized: Vec<u8>,
    sent: StartSendAction<T>,
    held: Seq<u8>,
    buffer: Seq<u8>,
    rest: Seq<u8>,
    new_held: Seq<u8>,
    new_buffer: Seq<u8>,
    taken: Result<Option<BytesMut>, std::io::Error>,
    received: PollAction<T>,
)
    requires
        start_send_answers(StartSendEvent::Serialized(item, Ok(serialized)), sent),
        framing::fits(serialized@),
        sent matches StartSendAction::Offer(_, payload) ==> held + buffer == framing::frame(
            outside::content(payload),
        ) + rest,
        decoded(held, buffer, new_held, new_buffer, taken),
        taken matches Ok(Some(payload)) ==> poll_answers(
            PollEvent::Polled(Ok(Async::Ready(Some(payload)))),
            received,
        ),
    ensures
        received matches PollAction::Deserialize(bytes) && outside::content(bytes) == serialized@,
        new_held + new_buffer == rest,
{
    framing::law_frame_read_back(serialized@, rest);
    assert(Seq::<u8>::empty() + new_buffer =~= new_buffer);
}

/// The stream hands out exactly the messages that were deserialized, of
/// whatever kind: each of them, unchanged, and no other.
pub proof fn law_poll_hands_out_what_was_deserialized<T>(
    event: PollEvent<T>,
    action: PollAction<T>,
    msg: WireMessage<T>,
)
    requires
        call_ensures(WireMessages::<T>::poll, (event,), action),
    ensures
        action == PollAction::Return(Ok(Async::Ready(Some(msg)))) <==> event
            == PollEvent::Deserialized(Ok(msg)),
{
}

/// The stream ends only when the framed socket has ended, and makes its reader
/// wait only when the framed socket had nothing to give.
pub proof fn law_poll_ends_and_waits_with_the_socket<T>(event: PollEvent<T>, action: PollAction<T>)
    requires
        call_ensures(WireMessages::<T>::poll, (event,), action),
    ensures
        action == PollAction::<T>::Return(Ok(Async::Ready(None))) <==> event == PollEvent::<
            T,
        >::Polled(Ok(Async::Ready(None))),
        action == PollAction::<T>::Return(Ok(Async::NotReady)) <==> event == PollEvent::<T>::Polled(
            Ok(Async::NotReady),
        ),
{
}

/// Each failure of the socket and each failure to deserialize is reported, as
/// what it is, and the stream reports no other failure.
pub proof fn law_poll_reports_each_failure<T>(
    event: PollEvent<T>,
    action: PollAction<T>,
    io: std::io::Error,
    serde: bincode::Error,
)
    requires
        call_ensures(WireMessages::<T>::poll, (event,), action),
    ensures
        action == PollAction::<T>::Return(Err(Error::Io(IoError::Stream(io)))) <==> event
            == PollEvent::<T>::Polled(Err(io)),
        action == PollAction::<T>::Return(Err(Error::Serde(serde))) <==> event == PollEvent::<
            T,
        >::Deserialized(Err(serde)),
        action != PollAction::<T>::Return(Err(Error::Io(IoError::Other(serde)))),
{
}

/// Exactly the frames that the socket gives are deserialized, with all their
/// bytes.
pub proof fn law_poll_deserializes_each_frame<T>(event: PollEvent<T>, action: PollAction<T>)
    requires
        call_ensures(WireMessages::<T>::poll, (event,), action),
    ensures
        action is Deserialize <==> (event matches PollEvent::Polled(Ok(Async::Ready(Some(_))))),
        action is Deserialize ==> outside::content(action->Deserialize_0) == outside::buffered(
            event->Polled_0->Ok_0->Ready_0->Some_0,
        ),
{
}

/// A message is reported as accepted exactly when the framed socket accepted
/// its bytes.
pub proof fn law_accepted_exactly_when_the_socket_accepts<T>(
    event: StartSendEvent<T>,
    action: StartSendAction<T>,
)
    requires
        call_ensures(WireMessages::<T>::start_send, (event,), action),
    ensures
        action == StartSendAction::<T>::Return(Ok(AsyncSink::Ready)) <==> (event
            matches StartSendEvent::Offered(_, Ok(AsyncSink::Ready))),
{
}

/// A message comes back exactly when the framed socket refused its bytes, and
/// the one that comes back is the one that was offered: no refused message is
/// lost, and none is exchanged for another.
pub proof fn law_refused_message_comes_back<T>(
    event: StartSendEvent<T>,
    action: StartSendAction<T>,
    item: WireMessage<T>,
)
    requires
        call_ensures(WireMessages::<T>::start_send, (event,), action),
    ensures
        action == StartSendAction::Return(Ok(AsyncSink::NotReady(item))) <==> (event
            matches StartSendEvent::Offered(offered, Ok(AsyncSink::NotReady(_))) && offered
            == item),
{
}

/// Exactly the messages that could be serialized are offered to the framed
/// socket, each with the bytes into which it was serialized.
pub proof fn law_serialized_message_is_offered<T>(
    event: StartSendEvent<T>,
    action: StartSendAction<T>,
)
    requires
        call_ensures(WireMessages::<T>::start_send, (event,), action),
    ensures
        action is Offer <==> (event matches StartSendEvent::Serialized(_, Ok(_))),
        action is Offer ==> {
            &&& action->Offer_0 == event->Serialized_0
            &&& outside::content(action->Offer_1) == event->Serialized_1->Ok_0@
        },
{
}

/// Each failure to serialize and each failure of the socket is reported, as
/// what it is, and offering a message reports no other failure.
pub proof fn law_start_send_reports_each_failure<T>(
    event: StartSendEvent<T>,
    action: StartSendAction<T>,
    io: std::io::Error,
    serde: bincode::Error,
)
    requires
        call_ensures(WireMessages::<T>::start_send, (event,), action),
    ensures
        action == StartSendAction::<T>::Return(Err(Error::Io(IoError::Stream(io)))) <==> (event
            matches StartSendEvent::Offered(_, Err(err)) && err == io),
        action == StartSendAction::<T>::Return(Err(Error::Io(IoError::Other(serde)))) <==> (event
            matches StartSendEvent::Serialized(_, Err(err)) && err == serde),
        action != StartSendAction::<T>::Return(Err(Error::Serde(serde))),
{
}

/// One message on its way into the sink.
pub struct Attempt<T> {
    pub item: WireMessage<T>,
    /// What the message was serialized into.
    pub serialized: Vec<u8>,
    /// What `start_send` did with it.
    pub offer: StartSendAction<T>,
    /// What the framed socket said to the offer.
    pub outcome: Result<AsyncSink<Bytes>, std::io::Error>,
    /// What `start_send` said in the end.
    pub answer: StartSendAction<T>,
}

/// Whether an attempt went as two calls of `start_send` can go.
pub open spec fn attempted<T>(attempt: Attempt<T>) -> bool {
    &&& call_ensures(
        WireMessages::<T>::start_send,
        (StartSendEvent::Serialized(attempt.item, Ok(attempt.serialized)),),
        attempt.offer,
    )
    &&& attempt.offer matches StartSendAction::Offer(item, _) ==> call_ensures(
        WireMessages::<T>::start_send,
        (StartSendEvent::Offered(item, attempt.outcome),),
        attempt.answer,
    )
}

/// The payloads that the framed socket accepted, in their order.
pub open spec fn payloads_taken_over<T>(attempts: Seq<Attempt<T>>) -> Seq<Seq<u8>>
    decreases attempts.len(),
{
    if attempts.len() == 0 {
        seq![]
    } else {
        let before = payloads_taken_over(attempts.drop_last());
        match (attempts.last().offer, attempts.last().outcome) {
            (StartSendAction::Offer(_, payload), Ok(AsyncSink::Ready)) => before.push(
                outside::content(payload),
            ),
            _ => before,
        }
    }
}

/// The serialized forms of the messages that were reported as accepted, in
/// their order.
pub open spec fn reported_accepted<T>(attempts: Seq<Attempt<T>>) -> Seq<Seq<u8>>
    decreases attempts.len(),
{
    if attempts.len() == 0 {
        seq![]
    } else {
        let before = reported_accepted(attempts.drop_last());
        if attempts.last().answer == StartSendAction::<T>::Return(Ok(AsyncSink::Ready)) {
            before.push(attempts.last().serialized@)
        } else {
            before
        }
    }
}

/// Over any history, what the framed socket has taken over is what was
/// reported as accepted: each message once, in order, and nothing else. Where
/// a message was refused it came back, the one that went in.
pub proof fn law_accepted_messages_are_taken_over_once<T>(attempts: Seq<Attempt<T>>)
    requires
        forall|i: int| 0 <= i < attempts.len() ==> attempted(#[trigger] attempts[i]),
    ensures
        payloads_taken_over(attempts) == reported_accepted(attempts),
        forall|i: int|
            0 <= i < attempts.len() && (attempts[i].outcome matches Ok(AsyncSink::NotReady(_)))
                ==> (#[trigger] attempts[i]).answer == StartSendAction::Return(
                Ok(AsyncSink::NotReady(attempts[i].item)),
            ),
    decreases attempts.len(),
{
    if attempts.len() > 0 {
        let before = attempts.drop_last();
        assert forall|i: int| 0 <= i < before.len() implies attempted(#[trigger] before[i]) by {
            assert(attempted(attempts[i]));
        }
        law_accepted_messages_are_taken_over_once(before);
        let last = attempts.last();
        assert(attempted(attempts[attempts.len() - 1]));
        law_serialized_message_is_offered(
            StartSendEvent::Serialized(last.item, Ok(last.serialized)),
            last.offer,
        );
        law_accepted_exactly_when_the_socket_accepts(
            StartSendEvent::Offered(last.item, last.outcome),
            last.answer,
        );
        assert forall|i: int|
            0 <= i < attempts.len() && (attempts[i].outcome matches Ok(
                AsyncSink::NotReady(_),
            )) implies (#[trigger] attempts[i]).answer == StartSendAction::Return(
            Ok(AsyncSink::NotReady(attempts[i].item)),
        ) by {
            if i < before.len() {
                assert(before[i] == attempts[i]);
            }
        }
    }
}

/// Sending succeeds exactly when offering the message and flushing the sink
/// both did. Whatever fails, with whatever error, is what sending fails with.
pub proof fn law_sending_succeeds_only_as_a_whole<T>(
    started: Result<AsyncSink<WireMessage<T>>, Error>,
    first: SendMsgAction,
    flushed: Result<Async<()>, Error>,
    second: SendMsgAction,
    err: Error,
)
    requires
        call_ensures(WireMessages::<T>::send_msg, (SendMsgEvent::Started(started),), first),
        call_ensures(WireMessages::<T>::send_msg, (SendMsgEvent::Flushed(flushed),), second),
    ensures
        first == SendMsgAction::PollComplete <==> started is Ok,
        first == SendMsgAction::Return(Err(err)) <==> started == Err::<
            AsyncSink<WireMessage<T>>,
            Error,
        >(err),
        first != SendMsgAction::Return(Ok(())),
        second == SendMsgAction::Return(Ok(())) <==> flushed is Ok,
        second == SendMsgAction::Return(Err(err)) <==> flushed == Err::<Async<()>, Error>(err),
        second != SendMsgAction::PollComplete,
{
}

/// A flush of the sink, and its closing, is as far as that of the framed
/// socket, and fails exactly when that failed, with the same error.
pub proof fn law_flush_and_close_follow_the_socket<T>(
    socket: Result<Async<()>, std::io::Error>,
    flushed: Result<Async<()>, Error>,
    closed: Result<Async<()>, Error>,
    progress: Async<()>,
    io: std::io::Error,
)
    requires
        call_ensures(WireMessages::<T>::poll_complete, (socket,), flushed),
        call_ensures(WireMessages::<T>::close, (socket,), closed),
    ensures
        flushed == Ok::<Async<()>, Error>(progress) <==> socket == Ok::<
            Async<()>,
            std::io::Error,
        >(progress),
        closed == Ok::<Async<()>, Error>(progress) <==> socket == Ok::<
            Async<()>,
            std::io::Error,
        >(progress),
        flushed == Err::<Async<()>, Error>(Error::Io(IoError::Stream(io))) <==> socket == Err::<
            Async<()>,
            std::io::Error,
        >(io),
        closed == Err::<Async<()>, Error>(Error::Io(IoError::Stream(io))) <==> socket == Err::<
            Async<()>,
            std::io::Error,
        >(io),
{
}

/// A failure of the socket becomes an input or output error that holds it, and
/// is not confused with a failure to serialize or deserialize.
pub proof fn law_socket_failure_is_kept(io: std::io::Error, error: Error)
    requires
        call_ensures(<Error as From<std::io::Error>>::from, (io,), error),
    ensures
        error matches Error::Io(IoError::Stream(kept)) && kept == io,
{
}

/// A new stream has nothing pending.
pub proof fn law_new_stream_is_empty<T>(messages: WireMessages<T>)
    requires
        call_ensures(WireMessages::<T>::new, (), messages),
    ensures
        messages.well_formed(),
        messages.pending().len() == 0,
{
}

/// A payload is written if and only if it has at most 8 MiB, and then behind
/// what was there already: four bytes that count it, most significant first,
/// and the payload. One that is too long leaves everything as it was.
pub proof fn law_payload_is_written_behind_its_length<T>(
    messages: &mut WireMessages<T>,
    payload: Bytes,
    dst: &mut BytesMut,
    r: Result<(), std::io::Error>,
)
    requires
        old(messages).well_formed(),
        call_ensures(WireMessages::<T>::encode, (messages, payload, dst), r),
    ensures
        r is Ok <==> outside::content(payload).len() <= 8 * 1024 * 1024,
        ({
            let bytes = outside::content(payload);
            let (before, after) = (outside::buffered(*old(dst)), outside::buffered(*final(dst)));
            let n = before.len() as int;
            &&& r is Ok ==> {
                &&& after.len() == n + 4 + bytes.len()
                &&& after.take(n) == before
                &&& after[n] * 0x100_0000 + after[n + 1] * 0x1_0000 + after[n + 2] * 0x100 + after[n
                    + 3] == bytes.len()
                &&& after.skip(n + 4) == bytes
            }
            &&& r is Err ==> after == before
        }),
        final(messages).pending() == old(messages).pending(),
{
    let bytes = outside::content(payload);
    let (before, after) = (outside::buffered(*old(dst)), outside::buffered(*final(dst)));
    let n = before.len() as int;
    if r is Ok {
        framing::law_head_counts_the_payload(bytes);
        assert(after.take(n) =~= before);
        assert(after.skip(n + 4) =~= framing::frame(bytes).skip(4));
        assert(after[n] == framing::frame(bytes)[0]);
        assert(after[n + 1] == framing::frame(bytes)[1]);
        assert(after[n + 2] == framing::frame(bytes)[2]);
        assert(after[n + 3] == framing::frame(bytes)[3]);
    }
}

/// Where the frame of a payload stands at the front of the stream, that payload
/// is taken off, and what follows stays. As long as the frame is not there in
/// full nothing is taken off, and nothing is lost.
pub proof fn law_frame_is_taken_off_whole<T>(
    messages: &mut WireMessages<T>,
    src: &mut BytesMut,
    r: Result<Option<BytesMut>, std::io::Error>,
    payload: Seq<u8>,
    rest: Seq<u8>,
    arrived: int,
)
    requires
        old(messages).well_formed(),
        call_ensures(WireMessages::<T>::decode, (messages, src), r),
        payload.len() <= 8 * 1024 * 1024,
        0 <= arrived < framing::frame(payload).len(),
    ensures
        old(messages).pending() + outside::buffered(*old(src)) == framing::frame(payload) + rest
            ==> {
            &&& r matches Ok(Some(taken)) && outside::buffered(taken) == payload
            &&& final(messages).pending() + outside::buffered(*final(src)) == rest
        },
        old(messages).pending() + outside::buffered(*old(src)) == framing::frame(payload).take(
            arrived,
        ) ==> {
            &&& r matches Ok(None)
            &&& final(messages).pending() + outside::buffered(*final(src)) == old(
                messages,
            ).pending() + outside::buffered(*old(src))
        },
        final(messages).well_formed(),
{
    framing::law_frame_read_back(payload, rest);
    framing::law_partial_frame_waits(payload, arrived);
    let after = outside::buffered(*final(src));
    assert(Seq::<u8>::empty() + after =~= after);
}

/// Nothing is handed out but what stands at the front of the stream, and what
/// is not handed out stays. An attempt fails exactly when the front announces
/// a payload of more than 8 MiB.
pub proof fn law_decode_neither_invents_nor_loses<T>(
    messages: &mut WireMessages<T>,
    src: &mut BytesMut,
    r: Result<Option<BytesMut>, std::io::Error>,
)
    requires
        old(messages).well_formed(),
        call_ensures(WireMessages::<T>::decode, (messages, src), r),
    ensures
        ({
            let stream = old(messages).pending() + outside::buffered(*old(src));
            let left = final(messages).pending() + outside::buffered(*final(src));
            &&& r matches Ok(Some(taken)) ==> stream == framing::frame(outside::buffered(taken))
                + left
            &&& !(r matches Ok(Some(_))) ==> left == stream
            &&& r is Err <==> stream.len() >= 4 && stream[0] * 0x100_0000 + stream[1] * 0x1_0000
                + stream[2] * 0x100 + stream[3] > 8 * 1024 * 1024
        }),
{
    let stream = old(messages).pending() + outside::buffered(*old(src));
    let after = outside::buffered(*final(src));
    framing::law_front_is_a_frame(stream);
    assert(Seq::<u8>::empty() + after =~= after);
}

/// A message that one side sends is the message that the other side receives,
/// of whatever kind it is, if it fits a frame and if deserializing undoes
/// serializing. The sender is told that it was accepted.
pub proof fn law_message_reaches_the_other_side<T>(
    item: WireMessage<T>,
    serialized: Vec<u8>,
    reading: spec_fn(Seq<u8>) -> Result<WireMessage<T>, bincode::Error>,
    offer: StartSendAction<T>,
    writer: &mut WireMessages<T>,
    payload: Bytes,
    written: &mut BytesMut,
    write: Result<(), std::io::Error>,
    answer: StartSendAction<T>,
    reader: &mut WireMessages<T>,
    src: &mut BytesMut,
    taken: Result<Option<BytesMut>, std::io::Error>,
    rest: Seq<u8>,
    polled: PollAction<T>,
    received: PollAction<T>,
)
    requires
        serialized@.len() <= 8 * 1024 * 1024,
        reading(serialized@) == Ok::<WireMessage<T>, bincode::Error>(item),
        call_ensures(
            WireMessages::<T>::start_send,
            (StartSendEvent::Serialized(item, Ok(serialized)),),
            offer,
        ),
        offer matches StartSendAction::Offer(_, offered) ==> payload == offered,
        old(writer).well_formed(),
        outside::buffered(*old(written)).len() == 0,
        call_ensures(WireMessages::<T>::encode, (writer, payload, written), write),
        call_ensures(
            WireMessages::<T>::start_send,
            (StartSendEvent::Offered(item, Ok(AsyncSink::Ready)),),
            answer,
        ),
        old(reader).well_formed(),
        old(reader).pending() + outside::buffered(*old(src)) == outside::buffered(*final(written))
            + rest,
        call_ensures(WireMessages::<T>::decode, (reader, src), taken),
        taken matches Ok(frame) ==> call_ensures(
            WireMessages::<T>::poll,
            (PollEvent::Polled(Ok(Async::Ready(frame))),),
            polled,
        ),
        polled matches PollAction::Deserialize(bytes) ==> call_ensures(
            WireMessages::<T>::poll,
            (PollEvent::Deserialized(reading(outside::content(bytes))),),
            received,
        ),
    ensures
        write is Ok,
        answer == StartSendAction::<T>::Return(Ok(AsyncSink::Ready)),
        received == PollAction::Return(Ok(Async::Ready(Some(item)))),
        final(reader).pending() + outside::buffered(*final(src)) == rest,
{
    let empty = outside::buffered(*old(written));
    assert(empty + framing::frame(serialized@) =~= framing::frame(serialized@));
    framing::law_frame_read_back(serialized@, rest);
    let after = outside::buffered(*final(src));
    assert(Seq::<u8>::empty() + after =~= after);
}

}
