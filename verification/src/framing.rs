//! How payloads are laid out on a stream of bytes.
//!
//! Each payload travels as a frame: its length in four bytes, most significant
//! first, and then the payload itself.
use vstd::prelude::*;

verus! {

/// The number of bytes in front of a payload.
pub const HEAD_LEN: usize = 4;

/// The length of the longest payload that is sent or accepted: 8 MiB.
pub const MAX_FRAME_LEN: usize = 8_388_608;

/// The four bytes of `n`, most significant first.
pub open spec fn big_endian(n: nat) -> Seq<u8> {
    seq![
        (n / 16_777_216 % 256) as u8,
        (n / 65_536 % 256) as u8,
        (n / 256 % 256) as u8,
        (n % 256) as u8,
    ]
}

/// The number whose four bytes `head` starts with.
pub open spec fn head_value(head: Seq<u8>) -> nat {
    (head[0] * 16_777_216 + head[1] * 65_536 + head[2] * 256 + head[3]) as nat
}

/// A payload with its length in front.
pub open spec fn frame(payload: Seq<u8>) -> Seq<u8> {
    big_endian(payload.len()) + payload
}

/// What stands at the front of a stream.
pub enum Front {
    /// The frame at the front is not there in full.
    Incomplete,
    /// The frame at the front is longer than is accepted.
    TooLong,
    /// A whole frame, and what follows it.
    Whole(Seq<u8>, Seq<u8>),
}

/// Reads the front of a stream.
pub open spec fn front(stream: Seq<u8>) -> Front {
    if stream.len() < HEAD_LEN {
        Front::Incomplete
    } else if head_value(stream) > MAX_FRAME_LEN {
        Front::TooLong
    } else if stream.len() < HEAD_LEN + head_value(stream) {
        Front::Incomplete
    } else {
        Front::Whole(
            stream.subrange(HEAD_LEN as int, HEAD_LEN + head_value(stream)),
            stream.skip(HEAD_LEN + head_value(stream)),
        )
    }
}

/// All payloads that a stream delivers, in the order of their frames.
pub open spec fn delivered(stream: Seq<u8>) -> Seq<Seq<u8>>
    decreases stream.len(),
{
    match front(stream) {
        Front::Whole(payload, rest) => seq![payload] + delivered(rest),
        _ => seq![],
    }
}

/// What is left of a stream once its whole frames are delivered.
pub open spec fn left_over(stream: Seq<u8>) -> Seq<u8>
    decreases stream.len(),
{
    match front(stream) {
        Front::Whole(_, rest) => left_over(rest),
        _ => stream,
    }
}

/// The frames of several payloads, one after the other.
pub open spec fn frames(payloads: Seq<Seq<u8>>) -> Seq<u8>
    decreases payloads.len(),
{
    if payloads.len() == 0 {
        seq![]
    } else {
        frame(payloads[0]) + frames(payloads.drop_first())
    }
}

/// Whether a payload is short enough to be sent.
pub open spec fn fits(payload: Seq<u8>) -> bool {
    payload.len() <= MAX_FRAME_LEN
}

/// Whether every payload is short enough to be sent.
pub open spec fn all_fit(payloads: Seq<Seq<u8>>) -> bool {
    forall|i: int| 0 <= i < payloads.len() ==> fits(#[trigger] payloads[i])
}

/// A frame at the front of a stream gives back its payload, and nothing of
/// what follows is touched.
pub proof fn law_frame_read_back(payload: Seq<u8>, rest: Seq<u8>)
    requires
        fits(payload),
    ensures
        front(frame(payload) + rest) == Front::Whole(payload, rest),
{
    let stream = frame(payload) + rest;
    assert(stream.take(4) =~= big_endian(payload.len()));
    assert(stream.subrange(4, 4 + payload.len() as int) =~= payload);
    assert(stream.skip(4 + payload.len() as int) =~= rest);
}

/// A frame is four bytes longer than its payload and ends with it. The four
/// bytes in front, the most significant first, count the payload.
pub proof fn law_head_counts_the_payload(payload: Seq<u8>)
    requires
        payload.len() < 0x1_0000_0000,
    ensures
        frame(payload).len() == payload.len() + 4,
        frame(payload).skip(4) == payload,
        frame(payload)[0] * 0x100_0000 + frame(payload)[1] * 0x1_0000 + frame(payload)[2] * 0x100
            + frame(payload)[3] == payload.len(),
{
    assert(frame(payload).skip(4) =~= payload);
}

/// A payload that is too long is refused by the reader as soon as its head has
/// come, whatever follows, if its length can be written in a head at all.
pub proof fn law_oversized_frame_refused(payload: Seq<u8>, rest: Seq<u8>)
    requires
        !fits(payload),
        payload.len() < 0x1_0000_0000,
    ensures
        front(big_endian(payload.len()) + rest) == Front::TooLong,
{
}

/// A whole frame at the front of a stream is the frame of the payload that is
/// delivered: a stream can be read in one way only.
pub proof fn law_front_is_a_frame(stream: Seq<u8>)
    ensures
        front(stream) matches Front::Whole(payload, rest) ==> {
            &&& fits(payload)
            &&& stream == frame(payload) + rest
        },
{
    if let Front::Whole(payload, rest) = front(stream) {
        assert(big_endian(head_value(stream)) =~= stream.take(4));
        assert(stream =~= frame(payload) + rest);
    }
}

/// Payloads come out whole and in the order in which they were sent, and what
/// follows them on the stream is read as if it stood alone.
pub proof fn law_frames_delivered_in_order(payloads: Seq<Seq<u8>>, rest: Seq<u8>)
    requires
        all_fit(payloads),
    ensures
        delivered(frames(payloads) + rest) == payloads + delivered(rest),
        left_over(frames(payloads) + rest) == left_over(rest),
    decreases payloads.len(),
{
    if payloads.len() == 0 {
        assert(frames(payloads) + rest =~= rest);
        assert(payloads + delivered(rest) =~= delivered(rest));
    } else {
        let others = payloads.drop_first();
        law_frames_delivered_in_order(others, rest);
        assert(frames(payloads) + rest =~= frame(payloads[0]) + (frames(others) + rest));
        law_frame_read_back(payloads[0], frames(others) + rest);
        assert(payloads + delivered(rest) =~= seq![payloads[0]] + (others + delivered(rest)));
    }
}

/// It makes no difference in which pieces a stream arrives: reading what has
/// come so far, and then what is left over together with what comes later,
/// delivers the same payloads as reading everything at once.
pub proof fn law_arrival_in_pieces(first: Seq<u8>, later: Seq<u8>)
    ensures
        delivered(first + later) == delivered(first) + delivered(left_over(first) + later),
        left_over(first + later) == left_over(left_over(first) + later),
    decreases first.len(),
{
    if let Front::Whole(payload, rest) = front(first) {
        law_front_is_a_frame(first);
        assert(first + later =~= frame(payload) + (rest + later));
        law_frame_read_back(payload, rest + later);
        law_arrival_in_pieces(rest, later);
        assert(seq![payload] + (delivered(rest) + delivered(left_over(rest) + later)) =~= (
        seq![payload] + delivered(rest)) + delivered(left_over(rest) + later));
    } else {
        assert(delivered(first) + delivered(first + later) =~= delivered(first + later));
    }
}

/// As long as a frame has not arrived in full it delivers nothing and is no
/// error.
pub proof fn law_partial_frame_waits(payload: Seq<u8>, arrived: int)
    requires
        fits(payload),
        0 <= arrived < frame(payload).len(),
    ensures
        front(frame(payload).take(arrived)) == Front::Incomplete,
{
    law_frame_read_back(payload, seq![]);
    assert(frame(payload) + Seq::<u8>::empty() =~= frame(payload));
}

/// Whether a reader to which the bytes `arrived` have come accounts for all of
/// them: the payloads `taken` were handed out, and `waiting` is still to be
/// read.
pub open spec fn accounted(arrived: Seq<u8>, taken: Seq<Seq<u8>>, waiting: Seq<u8>) -> bool {
    &&& all_fit(taken)
    &&& arrived == frames(taken) + waiting
}

/// A writer that adds one more frame has written the frames of one more
/// payload.
pub proof fn law_writing_adds_a_payload(payloads: Seq<Seq<u8>>, payload: Seq<u8>)
    ensures
        frames(payloads.push(payload)) == frames(payloads) + frame(payload),
    decreases payloads.len(),
{
    let more = payloads.push(payload);
    if payloads.len() == 0 {
        assert(frames(more.drop_first()) == Seq::<u8>::empty());
        assert(frames(more) =~= frames(payloads) + frame(payload));
    } else {
        law_writing_adds_a_payload(payloads.drop_first(), payload);
        assert(more.drop_first() =~= payloads.drop_first().push(payload));
        assert(frame(payloads[0]) + (frames(payloads.drop_first()) + frame(payload)) =~= (frame(
            payloads[0],
        ) + frames(payloads.drop_first())) + frame(payload));
    }
}

/// A reader to which nothing has come accounts for it.
pub proof fn law_reading_starts_accounted()
    ensures
        accounted(Seq::empty(), Seq::empty(), Seq::empty()),
{
}

/// A reader to which more bytes come goes on accounting for all of them.
pub proof fn law_arrival_stays_accounted(
    arrived: Seq<u8>,
    taken: Seq<Seq<u8>>,
    waiting: Seq<u8>,
    more: Seq<u8>,
)
    requires
        accounted(arrived, taken, waiting),
    ensures
        accounted(arrived + more, taken, waiting + more),
{
    assert(arrived + more =~= frames(taken) + (waiting + more));
}

/// A reader that takes the frame at the front goes on accounting for all
/// bytes.
pub proof fn law_taking_stays_accounted(arrived: Seq<u8>, taken: Seq<Seq<u8>>, waiting: Seq<u8>)
    requires
        accounted(arrived, taken, waiting),
    ensures
        front(waiting) matches Front::Whole(payload, rest) ==> accounted(
            arrived,
            taken.push(payload),
            rest,
        ),
{
    if let Front::Whole(payload, rest) = front(waiting) {
        law_front_is_a_frame(waiting);
        law_writing_adds_a_payload(taken, payload);
        assert(arrived =~= frames(taken.push(payload)) + rest);
    }
}

/// Nothing is invented, lost, repeated or put out of order: of the payloads
/// that one side has sent, or is about to, the other side has always taken the
/// first ones.
pub proof fn law_taken_payloads_were_sent(
    sent: Seq<Seq<u8>>,
    arrived: Seq<u8>,
    under_way: Seq<u8>,
    taken: Seq<Seq<u8>>,
    waiting: Seq<u8>,
)
    requires
        all_fit(sent),
        frames(sent) == arrived + under_way,
        accounted(arrived, taken, waiting),
    ensures
        taken.len() <= sent.len(),
        taken == sent.take(taken.len() as int),
{
    law_frames_delivered_in_order(sent, Seq::empty());
    law_frames_delivered_in_order(taken, waiting + under_way);
    assert(frames(sent) + Seq::<u8>::empty() =~= frames(taken) + (waiting + under_way));
    assert(sent + delivered(Seq::empty()) =~= sent);
    assert((taken + delivered(waiting + under_way)).take(taken.len() as int) =~= taken);
}

/// Once all bytes have come and there is no whole frame left to take, all
/// payloads have been taken and no byte is left.
pub proof fn law_all_payloads_are_taken(
    sent: Seq<Seq<u8>>,
    taken: Seq<Seq<u8>>,
    waiting: Seq<u8>,
)
    requires
        all_fit(sent),
        accounted(frames(sent), taken, waiting),
        !(front(waiting) is Whole),
    ensures
        taken == sent,
        waiting == Seq::<u8>::empty(),
{
    law_frames_delivered_in_order(sent, Seq::empty());
    law_frames_delivered_in_order(taken, waiting);
    assert(frames(sent) + Seq::<u8>::empty() =~= frames(sent));
    assert(sent + delivered(Seq::empty()) =~= sent);
    assert(taken + delivered(waiting) =~= taken);
    assert(left_over(Seq::<u8>::empty()) == Seq::<u8>::empty());
}

}
