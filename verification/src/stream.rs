//! A connection's input as a stream of messages: what a reader makes of the bytes
//! that came so far, however they were cut into pieces.

use std::collections::VecDeque;

use vstd::prelude::*;

use crate::input::{
    input_message, message_is_its_own_bytes, missing_bytes_are_needed, read_input,
    refusal_is_final, refused_length, something_is_missing,
    can_be_sent, input_round_trip, sent_input, EmbedInput, EmbedInputView, Producer,
};
use crate::wire::ReadError;

verus! {

/// What a reader gets out of bytes.
pub struct Stream {
    /// The whole messages, in order.
    pub messages: Seq<EmbedInputView>,
    /// How many bytes are read: those of the messages, and what is read of one that is
    /// refused behind them.
    pub consumed: int,
    /// Why reading stopped behind them.
    pub ended: ReadError,
}

/// The first message of `bytes` and its length.
#[verifier::opaque]
pub open spec fn first_message(bytes: Seq<u8>, producer: Producer) -> Result<
    (EmbedInputView, int),
    ReadError,
> {
    input_message(bytes, producer)
}

/// What is read of a first message that is refused.
#[verifier::opaque]
pub open spec fn first_refused(bytes: Seq<u8>, producer: Producer) -> int {
    refused_length(bytes, producer)
}

/// The messages at the front of `bytes`, up to the first that is refused or not
/// all there.
pub open spec fn stream(bytes: Seq<u8>, producer: Producer) -> Stream
    decreases bytes.len(),
{
    match first_message(bytes, producer) {
        Ok((message, length)) => if 0 < length <= bytes.len() {
            let rest = stream(bytes.skip(length), producer);
            Stream {
                messages: seq![message] + rest.messages,
                consumed: length + rest.consumed,
                ended: rest.ended,
            }
        } else {
            Stream { messages: seq![], consumed: 0, ended: ReadError::BadMagic }
        },
        Err(error) => Stream {
            messages: seq![],
            consumed: first_refused(bytes, producer),
            ended: error,
        },
    }
}

proof fn first_fits(bytes: Seq<u8>, producer: Producer)
    requires
        first_message(bytes, producer) is Ok,
    ensures
        1 <= first_message(bytes, producer)->Ok_0.1 <= bytes.len(),
{
    reveal(first_message);
    message_is_its_own_bytes(bytes, bytes, producer);
}

proof fn first_is_its_own(a: Seq<u8>, b: Seq<u8>, producer: Producer)
    requires
        first_message(a, producer) is Ok,
        first_message(a, producer)->Ok_0.1 <= b.len(),
        b.take(first_message(a, producer)->Ok_0.1) == a.take(first_message(a, producer)->Ok_0.1),
    ensures
        first_message(b, producer) == first_message(a, producer),
{
    reveal(first_message);
    message_is_its_own_bytes(a, b, producer);
}

proof fn first_refusal_is_final(bytes: Seq<u8>, more: Seq<u8>, producer: Producer)
    requires
        first_message(bytes, producer) is Err,
        first_message(bytes, producer)->Err_0 !is UnexpectedEof,
    ensures
        first_message(bytes + more, producer) == first_message(bytes, producer),
        first_refused(bytes + more, producer) == first_refused(bytes, producer),
{
    reveal(first_message);
    reveal(first_refused);
    refusal_is_final(bytes, more, producer);
}

proof fn first_refused_fits(bytes: Seq<u8>, producer: Producer)
    requires
        first_message(bytes, producer) is Err,
    ensures
        0 <= first_refused(bytes, producer) <= bytes.len(),
        first_message(bytes, producer)->Err_0 is UnexpectedEof ==> first_refused(bytes, producer)
            == 0,
{
    reveal(first_message);
    reveal(first_refused);
    if first_message(bytes, producer)->Err_0 !is UnexpectedEof {
        refusal_is_final(bytes, seq![], producer);
    }
}

fn read_first(reader: &mut &[u8], producer: Producer) -> (result: Result<EmbedInput, ReadError>)
    ensures
        match first_message(old(reader)@, producer) {
            Ok((view, length)) => {
                &&& result matches Ok(input) && input@ == view
                &&& final(reader)@ == old(reader)@.skip(length)
            },
            Err(error) => {
                &&& result == Err::<EmbedInput, ReadError>(error)
                &&& final(reader)@ == old(reader)@.skip(first_refused(old(reader)@, producer))
            },
        },
{
    proof {
        reveal(first_message);
        reveal(first_refused);
    }
    read_input(reader, producer)
}

/// What queued inputs say.
pub open spec fn views(inputs: Seq<EmbedInput>) -> Seq<EmbedInputView> {
    inputs.map_values(|input: EmbedInput| input@)
}

/// A reader stays within its bytes.
pub proof fn stream_stays_within(bytes: Seq<u8>, producer: Producer)
    ensures
        0 <= stream(bytes, producer).consumed <= bytes.len(),
    decreases bytes.len(),
{
    if first_message(bytes, producer) is Ok {
        let length = first_message(bytes, producer)->Ok_0.1;
        first_fits(bytes, producer);
        stream_stays_within(bytes.skip(length), producer);
    } else {
        first_refused_fits(bytes, producer);
    }
}

/// Queues every whole message that came so far, and moves the reader past them and past
/// what was read of one that is refused. Says why there is no further one: with the end
/// of the bytes inside a message, how many of its bytes are still to come.
pub fn read_messages(
    reader: &mut &[u8],
    producer: Producer,
    queue: &mut VecDeque<EmbedInput>,
) -> (ended: ReadError)
    ensures
        views(final(queue)@) == views(old(queue)@) + stream(old(reader)@, producer).messages,
        final(reader)@ == old(reader)@.skip(stream(old(reader)@, producer).consumed),
        ended == stream(old(reader)@, producer).ended,
{
    let ghost start = reader@;
    let ghost queued = views(queue@);
    proof {
        stream_stays_within(start, producer);
    }
    loop
        invariant
            start == old(reader)@,
            queued == views(old(queue)@),
            0 <= stream(reader@, producer).consumed <= reader@.len() <= start.len(),
            reader@ == start.skip(start.len() - reader@.len()),
            stream(start, producer).consumed == start.len() - reader@.len() + stream(
                reader@,
                producer,
            ).consumed,
            stream(start, producer).ended == stream(reader@, producer).ended,
            queued + stream(start, producer).messages == views(queue@) + stream(
                reader@,
                producer,
            ).messages,
        decreases reader@.len(),
    {
        let ghost before = reader@;
        let ghost held = views(queue@);
        match read_first(reader, producer) {
            Ok(input) => {
                let ghost length = first_message(before, producer)->Ok_0.1;
                proof {
                    first_fits(before, producer);
                    stream_stays_within(reader@, producer);
                    assert(reader@ =~= start.skip(start.len() - reader@.len()));
                }
                queue.push_back(input);
                proof {
                    assert(views(queue@) =~= held + seq![input@]);
                    assert(held + (seq![input@] + stream(reader@, producer).messages) =~= (held
                        + seq![input@]) + stream(reader@, producer).messages);
                }
            },
            Err(error) => {
                proof {
                    assert(views(queue@) + stream(before, producer).messages =~= views(queue@));
                    assert(reader@ =~= start.skip(stream(start, producer).consumed));
                }
                return error;
            },
        }
    }
}

/// It does not matter where a stream is cut: reading what came first, and then
/// what it left over together with the rest, gives the messages of the whole, and
/// ends as the whole does.
pub proof fn cutting_changes_nothing(first: Seq<u8>, rest: Seq<u8>, producer: Producer)
    requires
        stream(first, producer).ended is UnexpectedEof,
    ensures
        ({
            let left = first.skip(stream(first, producer).consumed);
            let then = stream(left + rest, producer);
            let whole = stream(first + rest, producer);
            &&& whole.messages == stream(first, producer).messages + then.messages
            &&& whole.consumed == stream(first, producer).consumed + then.consumed
            &&& whole.ended == then.ended
        }),
    decreases first.len(),
{
    stream_stays_within(first, producer);
    let whole = first + rest;
    if first_message(first, producer) is Ok {
        let length = first_message(first, producer)->Ok_0.1;
        first_fits(first, producer);
        assert(whole.take(length) =~= first.take(length));
        first_is_its_own(first, whole, producer);
        assert(whole.skip(length) =~= first.skip(length) + rest);
        cutting_changes_nothing(first.skip(length), rest, producer);
        let later = stream(first.skip(length), producer);
        stream_stays_within(first.skip(length), producer);
        assert(first.skip(length).skip(later.consumed) =~= first.skip(length + later.consumed));
        let left = first.skip(stream(first, producer).consumed);
        let then = stream(left + rest, producer);
        let message = first_message(first, producer)->Ok_0.0;
        assert(seq![message] + (later.messages + then.messages) =~= (seq![message]
            + later.messages) + then.messages);
    } else {
        first_refused_fits(first, producer);
        assert(first.skip(0) =~= first);
        assert(Seq::<EmbedInputView>::empty() + stream(whole, producer).messages =~= stream(
            whole,
            producer,
        ).messages);
    }
}

/// A stream that broke off stays broken: nothing that comes later is read.
pub proof fn nothing_follows_a_refusal(first: Seq<u8>, rest: Seq<u8>, producer: Producer)
    requires
        stream(first, producer).ended !is UnexpectedEof,
    ensures
        stream(first + rest, producer) == stream(first, producer),
    decreases first.len(),
{
    let whole = first + rest;
    if first_message(first, producer) is Ok {
        let length = first_message(first, producer)->Ok_0.1;
        first_fits(first, producer);
        assert(whole.take(length) =~= first.take(length));
        first_is_its_own(first, whole, producer);
        assert(whole.skip(length) =~= first.skip(length) + rest);
        nothing_follows_a_refusal(first.skip(length), rest, producer);
    } else {
        first_refusal_is_final(first, rest, producer);
    }
}

proof fn first_missing_are_needed(bytes: Seq<u8>, more: Seq<u8>, producer: Producer)
    ensures
        first_message(bytes, producer) matches Err(ReadError::UnexpectedEof { missing }) ==> missing
            > 0 && (more.len() < missing ==> first_message(bytes + more, producer) is Err),
{
    reveal(first_message);
    something_is_missing(bytes, producer);
    if let Err(ReadError::UnexpectedEof { missing }) = input_message(bytes, producer) {
        if more.len() < missing {
            missing_bytes_are_needed(bytes, more, producer);
        }
    }
}

/// A message that is cut short is incomplete, and what is said to be missing is never
/// nothing and never more than was cut off: a reader that waits for it reads no byte of the
/// next message.
#[verifier::rlimit(50)]
pub proof fn a_cut_message_is_incomplete(whole: Seq<u8>, cut: int, producer: Producer)
    requires
        first_message(whole, producer) is Ok,
        first_message(whole, producer)->Ok_0.1 == whole.len(),
        0 <= cut < whole.len(),
    ensures
        first_message(whole.take(cut), producer) matches Err(
            ReadError::UnexpectedEof { missing },
        ) && 0 < missing <= whole.len() - cut,
{
    let part = whole.take(cut);
    let left = whole.skip(cut);
    assert(part + left =~= whole);
    first_missing_are_needed(part, left, producer);
    match first_message(part, producer) {
        Ok((_, length)) => {
            first_fits(part, producer);
            assert(whole.take(length) =~= part.take(length));
            first_is_its_own(part, whole, producer);
        },
        Err(ReadError::UnexpectedEof { .. }) => {},
        Err(_) => {
            first_refusal_is_final(part, left, producer);
        },
    }
}

/// Messages that a consumer sends one after the other.
pub open spec fn sent_one_after_the_other(messages: Seq<(EmbedInputView, u8)>) -> Seq<u8>
    decreases messages.len(),
{
    if messages.len() == 0 {
        seq![]
    } else {
        sent_input(messages[0].0, messages[0].1) + sent_one_after_the_other(messages.skip(1))
    }
}

/// A reader gets every message that a consumer sends, in the order in which they were sent,
/// and then waits for the next.
#[verifier::rlimit(50)]
pub proof fn messages_arrive_in_order(messages: Seq<(EmbedInputView, u8)>, producer: Producer)
    requires
        forall|i: int|
            0 <= i < messages.len() ==> #[trigger] can_be_sent(
                messages[i].0,
                messages[i].1,
                producer,
            ),
    ensures
        ({
            let read = stream(sent_one_after_the_other(messages), producer);
            &&& read.messages == messages.map_values(|message: (EmbedInputView, u8)| message.0)
            &&& read.consumed == sent_one_after_the_other(messages).len()
            &&& read.ended == ReadError::UnexpectedEof { missing: 1 }
        }),
    decreases messages.len(),
{
    let bytes = sent_one_after_the_other(messages);
    let views = messages.map_values(|message: (EmbedInputView, u8)| message.0);
    if messages.len() == 0 {
        reveal(first_message);
        reveal(first_refused);
        assert(stream(bytes, producer).messages =~= views);
    } else {
        let later = messages.skip(1);
        let rest = sent_one_after_the_other(later);
        let sent = sent_input(messages[0].0, messages[0].1);
        assert(can_be_sent(messages[0].0, messages[0].1, producer));
        input_round_trip(messages[0].0, messages[0].1, rest, producer);
        assert(first_message(bytes, producer) == Ok::<(EmbedInputView, int), ReadError>(
            (messages[0].0, sent.len() as int),
        )) by {
            reveal(first_message);
        }
        first_fits(bytes, producer);
        assert(bytes.skip(sent.len() as int) =~= rest);
        assert forall|i: int| 0 <= i < later.len() implies #[trigger] can_be_sent(
            later[i].0,
            later[i].1,
            producer,
        ) by {
            assert(can_be_sent(messages[i + 1].0, messages[i + 1].1, producer));
        }
        messages_arrive_in_order(later, producer);
        assert(stream(bytes, producer).messages =~= views);
    }
}

} // verus!
