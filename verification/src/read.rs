//! How the read side of a UDP stream hands datagrams out: as a stream of bytes,
//! cut to the reader's buffer, or one whole datagram at a time.

use crate::datagram::{
    bytes_len, bytes_of, bytes_split_off, bytes_split_to, filled, read_capacity, read_clear,
    read_put, read_room,
};
use crate::delivery::{
    a_read_hands_out_all_that_fits, data_is_cut_where_the_room_ends, head, tail, Call, Inbox,
};
use crate::error::{ErrorKind, NetError};
use crate::timeout::{duration_debug, timeout_error, timeout_message, Duration};
use bytes::Bytes;
use tokio::io::ReadBuf;
use vstd::prelude::*;

verus! {

/// The answer of something that may not be ready yet.
#[derive(Debug)]
pub enum Polled<T> {
    Ready(T),
    Pending,
}

/// What a reader does next.
#[derive(Debug)]
pub enum ReadStep {
    /// The read ends in this error.
    Fail(NetError),
    /// The read is done: bytes were put into the buffer, and the idle timer
    /// starts anew.
    Delivered,
    /// A datagram has to come in first.
    AwaitDatagram,
}

/// The rest of a datagram that did not fit into the buffer of the last read.
pub open spec fn leftover(remaining: Option<Bytes>) -> Option<Seq<u8>> {
    match remaining {
        Some(b) => Some(bytes_of(b)),
        None => None,
    }
}

/// A datagram is only left over where some of it still has to be read.
pub open spec fn leftover_wf(remaining: Option<Bytes>) -> bool {
    leftover(remaining) matches Some(rest) ==> rest.len() > 0
}

/// The inbox of a stream with this rest of a datagram and these behind it.
pub open spec fn inbox(remaining: Option<Bytes>, waiting: Seq<Seq<u8>>) -> Inbox {
    Inbox { leftover: leftover(remaining), waiting }
}

/// A read into a buffer with so much room turns the first inbox into the second
/// and hands out these bytes.
pub open spec fn reads(before: Inbox, room: nat, output: Seq<u8>, after: Inbox) -> bool {
    before.output(Call::Read(room)) == output && before.after(Call::Read(room)) == after
}

/// A call for a whole datagram turns the first inbox into the second and hands
/// out this datagram.
pub open spec fn receives(before: Inbox, output: Seq<u8>, after: Inbox) -> bool {
    before.output(Call::Receive) == output && before.after(Call::Receive) == after
}

/// Without the first datagram that waits, those behind it are left.
proof fn lemma_behind_the_first(first: Seq<u8>)
    ensures
        forall|behind: Seq<Seq<u8>>| #[trigger]
            inbox(None, seq![first] + behind).waiting.drop_first() == behind,
{
    assert forall|behind: Seq<Seq<u8>>| #[trigger]
        inbox(None, seq![first] + behind).waiting.drop_first() == behind by {
        assert((seq![first] + behind).drop_first() =~= behind);
    }
}

/// The right end of a whole read: the timeout where the idle timer ran out, what
/// is left over of a datagram, and otherwise what the channel answers.
pub open spec fn read_end(
    step: ReadStep,
    remaining: Option<Bytes>,
    timer_fired: bool,
    timeout: nat,
    incoming: Polled<Option<Bytes>>,
) -> bool {
    if timer_fired {
        step matches ReadStep::Fail(e) && e.says(ErrorKind::TimedOut, timeout_message(timeout))
    } else if remaining is Some {
        step is Delivered
    } else {
        match incoming {
            Polled::Ready(Some(_)) => step is Delivered,
            Polled::Ready(None) => step matches ReadStep::Fail(e) && e.says(
                ErrorKind::BrokenPipe,
                "Broken pipe"@,
            ),
            Polled::Pending => step is AwaitDatagram,
        }
    }
}

/// How many bytes a read buffer still takes.
pub open spec fn room(buf: ReadBuf<'_>) -> nat {
    (read_capacity(buf) - filled(buf).len()) as nat
}

/// A buffer of this capacity, filled so far, takes of the data what fits; what
/// does not is left over.
pub open spec fn takes_what_fits(
    data: Seq<u8>,
    before: Seq<u8>,
    capacity: nat,
    after: Seq<u8>,
    left: Option<Bytes>,
) -> bool {
    let space = (capacity - before.len()) as nat;
    after == before + head(data, space) && leftover(left) == tail(data, space)
}

/// Begins a read. An idle timer that ran out ends it, with an empty buffer. A
/// datagram that was read in part goes on where the last read stopped.
/// Otherwise the next datagram is due, and `poll_read_incoming` goes on with it.
pub fn poll_read(
    remaining: &mut Option<Bytes>,
    timer_fired: bool,
    timeout: &Duration,
    buf: &mut ReadBuf<'_>,
) -> (step: ReadStep)
    ensures
        read_capacity(*final(buf)) == read_capacity(*old(buf)),
        leftover_wf(*old(remaining)) ==> leftover_wf(*final(remaining)),
        timer_fired ==> {
            &&& step matches ReadStep::Fail(e)
            &&& e.says(ErrorKind::TimedOut, timeout_message(timeout@))
            &&& filled(*final(buf)) == Seq::<u8>::empty()
            &&& *final(remaining) == *old(remaining)
        },
        !timer_fired ==> match leftover(*old(remaining)) {
            Some(rest) => {
                &&& step is Delivered
                &&& filled(*final(buf)) == filled(*old(buf)) + head(rest, room(*old(buf)))
                &&& leftover(*final(remaining)) == tail(rest, room(*old(buf)))
                &&& forall|waiting: Seq<Seq<u8>>|
                    reads(
                        #[trigger] inbox(*old(remaining), waiting),
                        room(*old(buf)),
                        head(rest, room(*old(buf))),
                        inbox(*final(remaining), waiting),
                    )
            },
            None => {
                &&& step is AwaitDatagram
                &&& filled(*final(buf)) == filled(*old(buf))
                &&& *final(remaining) is None
            },
        },
        step !is AwaitDatagram ==> forall|incoming: Polled<Option<Bytes>>| #[trigger]
            read_end(step, *old(remaining), timer_fired, timeout@, incoming),
        timer_fired ==> {
            &&& step matches ReadStep::Fail(e)
            &&& e.kind == ErrorKind::TimedOut
            &&& e.message@ == "UdpStream timeout with duration:"@ + duration_debug(timeout@)
        },
        !timer_fired && *old(remaining) is Some ==> takes_what_fits(
            bytes_of((*old(remaining))->0),
            filled(*old(buf)),
            read_capacity(*old(buf)),
            filled(*final(buf)),
            *final(remaining),
        ),
        // The same in full: the space is what the buffer's capacity leaves.
        !timer_fired ==> match *old(remaining) {
            Some(rest) => {
                let space = read_capacity(*old(buf)) - filled(*old(buf)).len();
                let len = bytes_of(rest).len();
                &&& filled(*final(buf)).len() - filled(*old(buf)).len() == (if space < len {
                    space
                } else {
                    len as int
                })
                &&& filled(*old(buf)).is_prefix_of(filled(*final(buf)))
                &&& filled(*final(buf)).skip(filled(*old(buf)).len() as int).is_prefix_of(
                    bytes_of(rest),
                )
                &&& space < len ==> {
                    &&& *final(remaining) matches Some(left)
                    &&& bytes_of(left) == bytes_of(rest).skip(space)
                }
                &&& space >= len ==> *final(remaining) is None
            },
            None => step is AwaitDatagram,
        },
{
    if timer_fired {
        read_clear(buf);
        return ReadStep::Fail(timeout_error(timeout));
    }
    match remaining.take() {
        Some(mut rest) => {
            let space: usize = read_room(buf);
            if space < bytes_len(&rest) {
                let part = bytes_split_to(&mut rest, space);
                read_put(buf, &part);
                *remaining = Some(rest);
            } else {
                read_put(buf, &rest);
            }
            ReadStep::Delivered
        },
        None => ReadStep::AwaitDatagram,
    }
}

/// Goes on with a read that waits for a datagram, with what the channel of the
/// stream answered. What does not fit into the buffer is left over for the next
/// reads. A closed channel is a broken pipe.
pub fn poll_read_incoming(
    remaining: &mut Option<Bytes>,
    incoming: Polled<Option<Bytes>>,
    buf: &mut ReadBuf<'_>,
) -> (step: ReadStep)
    ensures
        read_capacity(*final(buf)) == read_capacity(*old(buf)),
        leftover_wf(*old(remaining)) ==> leftover_wf(*final(remaining)),
        match incoming {
            Polled::Ready(Some(datagram)) => {
                &&& step is Delivered
                &&& filled(*final(buf)) == filled(*old(buf)) + head(
                    bytes_of(datagram),
                    room(*old(buf)),
                )
                &&& leftover(*final(remaining)) == tail(bytes_of(datagram), room(*old(buf)))
                &&& *old(remaining) is None ==> forall|behind: Seq<Seq<u8>>|
                    reads(
                        #[trigger] inbox(None, seq![bytes_of(datagram)] + behind),
                        room(*old(buf)),
                        head(bytes_of(datagram), room(*old(buf))),
                        inbox(*final(remaining), behind),
                    )
            },
            Polled::Ready(None) => {
                &&& step matches ReadStep::Fail(e)
                &&& e.says(ErrorKind::BrokenPipe, "Broken pipe"@)
                &&& filled(*final(buf)) == filled(*old(buf))
                &&& *final(remaining) == *old(remaining)
            },
            Polled::Pending => {
                &&& step is AwaitDatagram
                &&& filled(*final(buf)) == filled(*old(buf))
                &&& *final(remaining) == *old(remaining)
            },
        },
        *old(remaining) is None ==> forall|timeout: nat| #[trigger]
            read_end(step, *old(remaining), false, timeout, incoming),
        incoming matches Polled::Ready(Some(datagram)) ==> takes_what_fits(
            bytes_of(datagram),
            filled(*old(buf)),
            read_capacity(*old(buf)),
            filled(*final(buf)),
            *final(remaining),
        ),
        // The same in full: the space is what the buffer's capacity leaves.
        match incoming {
            Polled::Ready(Some(datagram)) => {
                let space = read_capacity(*old(buf)) - filled(*old(buf)).len();
                let len = bytes_of(datagram).len();
                &&& filled(*final(buf)).len() - filled(*old(buf)).len() == (if space < len {
                    space
                } else {
                    len as int
                })
                &&& filled(*old(buf)).is_prefix_of(filled(*final(buf)))
                &&& filled(*final(buf)).skip(filled(*old(buf)).len() as int).is_prefix_of(
                    bytes_of(datagram),
                )
                &&& space < len ==> {
                    &&& *final(remaining) matches Some(left)
                    &&& bytes_of(left) == bytes_of(datagram).skip(space)
                }
                &&& space >= len ==> *final(remaining) is None
            },
            Polled::Ready(None) => {
                &&& step matches ReadStep::Fail(e)
                &&& e.kind == ErrorKind::BrokenPipe
                &&& e.message@ == "Broken pipe"@
            },
            Polled::Pending => step is AwaitDatagram,
        },
{
    match incoming {
        Polled::Ready(Some(mut datagram)) => {
            proof {
                lemma_behind_the_first(bytes_of(datagram));
            }
            let space: usize = read_room(buf);
            let rest = if space < bytes_len(&datagram) {
                Some(bytes_split_off(&mut datagram, space))
            } else {
                None
            };
            read_put(buf, &datagram);
            *remaining = rest;
            ReadStep::Delivered
        },
        Polled::Ready(None) => ReadStep::Fail(
            NetError::new(ErrorKind::BrokenPipe, "Broken pipe"),
        ),
        Polled::Pending => ReadStep::AwaitDatagram,
    }
}

/// What a receiver of whole datagrams does next.
#[derive(Debug)]
pub enum ReceiveStep {
    /// The call ends in this error.
    Fail(NetError),
    /// The call ends with this datagram, and the idle timer starts anew.
    Received(Bytes),
    /// A datagram has to come in first.
    AwaitDatagram,
}

/// The right answer to a call for a whole datagram: refused while a part of an
/// earlier one is left over, ended by an idle timer that ran out, and otherwise
/// to wait for a datagram.
pub open spec fn receive_step(
    step: ReceiveStep,
    remaining: Option<Bytes>,
    timer_fired: bool,
    timeout: nat,
) -> bool {
    if remaining is Some {
        step matches ReceiveStep::Fail(e) && e.says(
            ErrorKind::InvalidData,
            "udp stream has buffered bytes; cannot recv datagram"@,
        )
    } else if timer_fired {
        step matches ReceiveStep::Fail(e) && e.says(
            ErrorKind::TimedOut,
            timeout_message(timeout),
        )
    } else {
        step is AwaitDatagram
    }
}

/// The right end of a whole such call: refused or ended as above, and otherwise
/// what the channel answers.
pub open spec fn receive_end(
    step: ReceiveStep,
    remaining: Option<Bytes>,
    timer_fired: bool,
    timeout: nat,
    incoming: Polled<Option<Bytes>>,
) -> bool {
    if remaining is Some || timer_fired {
        receive_step(step, remaining, timer_fired, timeout)
    } else {
        match incoming {
            Polled::Ready(Some(datagram)) => step == ReceiveStep::Received(datagram),
            Polled::Ready(None) => step matches ReceiveStep::Fail(e) && e.says(
                ErrorKind::BrokenPipe,
                "Broken pipe"@,
            ),
            Polled::Pending => step is AwaitDatagram,
        }
    }
}

/// Begins to receive a whole datagram. While a part of an earlier one is left
/// over this is refused: the caller would get a datagram out of turn. An idle
/// timer that ran out ends the call.
pub fn recv_datagram(
    remaining: &Option<Bytes>,
    timer_fired: bool,
    timeout: &Duration,
) -> (step: ReceiveStep)
    ensures
        receive_step(step, *remaining, timer_fired, timeout@),
        step !is AwaitDatagram ==> forall|incoming: Polled<Option<Bytes>>| #[trigger]
            receive_end(step, *remaining, timer_fired, timeout@, incoming),
        match (*remaining, timer_fired) {
            (Some(_), _) => {
                &&& step matches ReceiveStep::Fail(e)
                &&& e.kind == ErrorKind::InvalidData
                &&& e.message@ == "udp stream has buffered bytes; cannot recv datagram"@
            },
            (None, true) => {
                &&& step matches ReceiveStep::Fail(e)
                &&& e.kind == ErrorKind::TimedOut
                &&& e.message@ == "UdpStream timeout with duration:"@ + duration_debug(timeout@)
            },
            (None, false) => step is AwaitDatagram,
        },
{
    if remaining.is_some() {
        ReceiveStep::Fail(
            NetError::new(
                ErrorKind::InvalidData,
                "udp stream has buffered bytes; cannot recv datagram",
            ),
        )
    } else if timer_fired {
        ReceiveStep::Fail(timeout_error(timeout))
    } else {
        ReceiveStep::AwaitDatagram
    }
}

/// Goes on to receive a whole datagram, with what the channel of the stream
/// answered: the datagram as it came, or a broken pipe where the channel is
/// closed.
pub fn recv_datagram_incoming(incoming: Polled<Option<Bytes>>) -> (step: ReceiveStep)
    ensures
        match incoming {
            Polled::Ready(Some(datagram)) => {
                &&& step == ReceiveStep::Received(datagram)
                &&& forall|behind: Seq<Seq<u8>>|
                    receives(
                        #[trigger] inbox(None, seq![bytes_of(datagram)] + behind),
                        bytes_of(datagram),
                        inbox(None, behind),
                    )
            },
            Polled::Ready(None) => {
                &&& step matches ReceiveStep::Fail(e)
                &&& e.says(ErrorKind::BrokenPipe, "Broken pipe"@)
            },
            Polled::Pending => step is AwaitDatagram,
        },
        forall|timeout: nat| #[trigger] receive_end(step, None, false, timeout, incoming),
        incoming is Ready && incoming->0 is None ==> {
            &&& step matches ReceiveStep::Fail(e)
            &&& e.kind == ErrorKind::BrokenPipe
            &&& e.message@ == "Broken pipe"@
        },
{
    match incoming {
        Polled::Ready(Some(datagram)) => {
            proof {
                lemma_behind_the_first(bytes_of(datagram));
            }
            ReceiveStep::Received(datagram)
        },
        Polled::Ready(None) => ReceiveStep::Fail(
            NetError::new(ErrorKind::BrokenPipe, "Broken pipe"),
        ),
        Polled::Pending => ReceiveStep::AwaitDatagram,
    }
}

/// The room of a buffer is its capacity less what it holds.
pub proof fn room_is_what_the_capacity_leaves(buf: ReadBuf<'_>)
    ensures
        filled(buf).len() <= read_capacity(buf) ==> room(buf) + filled(buf).len() == read_capacity(
            buf,
        ),
{
}

/// What is left over of a stream is there, byte for byte, or it is nothing.
pub proof fn leftover_is_what_remains(remaining: Option<Bytes>)
    ensures
        remaining matches Some(rest) ==> leftover(remaining) == Some(bytes_of(rest)),
        remaining is None ==> leftover(remaining) is None,
        leftover_wf(remaining) <==> !(remaining matches Some(rest) && bytes_of(rest).len() == 0),
{
}

/// A read moves as many bytes into the buffer as both the data and the buffer's
/// free space allow, at least one where there are both. They are the first of the
/// data, behind what was there. The others are left over, and where there are none
/// nothing is.
pub proof fn a_read_fills_the_buffer(
    data: Seq<u8>,
    before: Seq<u8>,
    capacity: nat,
    after: Seq<u8>,
    left: Option<Bytes>,
)
    requires
        before.len() <= capacity,
        takes_what_fits(data, before, capacity, after, left),
    ensures
        after.len() <= capacity,
        after.len() - before.len() == (if capacity - before.len() < data.len() {
            capacity - before.len()
        } else {
            data.len() as int
        }),
        data.len() > 0 && before.len() < capacity ==> after.len() > before.len(),
        forall|i: int| 0 <= i < before.len() ==> #[trigger] after[i] == before[i],
        forall|i: int| before.len() <= i < after.len() ==> #[trigger] after[i] == data[i
            - before.len()],
        left is None <==> data.len() <= capacity - before.len(),
        left matches Some(rest) ==> after.len() == capacity && after + bytes_of(rest) == before
            + data,
{
    data_is_cut_where_the_room_ends(data, (capacity - before.len()) as nat);
    if let Some(rest) = left {
        assert(after + bytes_of(rest) =~= before + data);
    }
}

/// A read that turns one inbox into another hands out what fits of the first
/// datagram, or of what is left over of one, and a call for a whole datagram hands
/// out the first one that waits.
pub proof fn reads_and_receives_hand_out_the_first_datagram(
    data: Seq<u8>,
    behind: Seq<Seq<u8>>,
    room: nat,
    remaining: Option<Bytes>,
    output: Seq<u8>,
    after: Inbox,
)
    requires
        remaining matches Some(rest) ==> bytes_of(rest) == data,
    ensures
        ({
            let before = if remaining is Some {
                inbox(remaining, behind)
            } else {
                inbox(None, seq![data] + behind)
            };
            reads(before, room, output, after) ==> {
                &&& output.len() == (if room < data.len() {
                    room
                } else {
                    data.len()
                })
                &&& output.is_prefix_of(data)
                &&& after.waiting == behind
                &&& after.leftover is None <==> data.len() <= room
            }
        }),
        receives(inbox(None, seq![data] + behind), output, after) ==> output == data
            && after.waiting == behind && after.leftover is None,
{
    let before = if remaining is Some {
        inbox(remaining, behind)
    } else {
        inbox(None, seq![data] + behind)
    };
    a_read_hands_out_all_that_fits(data, behind, room, before);
    assert((seq![data] + behind).drop_first() =~= behind);
}

/// How a whole read ends, whatever the stream and the channel hold: a timer that
/// ran out comes first, then what is left over, then the channel.
pub proof fn a_read_ends_in_one_way(
    step: ReadStep,
    remaining: Option<Bytes>,
    timer_fired: bool,
    timeout: nat,
    incoming: Polled<Option<Bytes>>,
)
    requires
        read_end(step, remaining, timer_fired, timeout, incoming),
    ensures
        step is Delivered <==> !timer_fired && (remaining is Some || (incoming is Ready
            && incoming->0 is Some)),
        step is AwaitDatagram <==> !timer_fired && remaining is None && incoming is Pending,
        step matches ReadStep::Fail(e) ==> (if timer_fired {
            e.kind == ErrorKind::TimedOut && e.message@ == "UdpStream timeout with duration:"@
                + duration_debug(timeout)
        } else {
            e.kind == ErrorKind::BrokenPipe && e.message@ == "Broken pipe"@
        }),
{
}

/// How a whole call for a datagram ends, whatever the stream and the channel hold:
/// what is left over comes first, then a timer that ran out, then the channel,
/// whose datagram is handed out as it is.
pub proof fn a_receive_ends_in_one_way(
    step: ReceiveStep,
    remaining: Option<Bytes>,
    timer_fired: bool,
    timeout: nat,
    incoming: Polled<Option<Bytes>>,
)
    requires
        receive_end(step, remaining, timer_fired, timeout, incoming),
    ensures
        step is Received <==> !timer_fired && remaining is None && incoming is Ready
            && incoming->0 is Some,
        step matches ReceiveStep::Received(datagram) ==> incoming->0 == Some(datagram),
        step is AwaitDatagram <==> !timer_fired && remaining is None && incoming is Pending,
        step matches ReceiveStep::Fail(e) ==> (if remaining is Some {
            e.kind == ErrorKind::InvalidData && e.message@
                == "udp stream has buffered bytes; cannot recv datagram"@
        } else if timer_fired {
            e.kind == ErrorKind::TimedOut && e.message@ == "UdpStream timeout with duration:"@
                + duration_debug(timeout)
        } else {
            e.kind == ErrorKind::BrokenPipe && e.message@ == "Broken pipe"@
        }),
{
}

/// How a call for a datagram begins: refused while bytes are left over, whatever
/// the timer says, then ended by a timer that ran out, and otherwise it waits.
pub proof fn a_receive_begins_in_one_way(
    step: ReceiveStep,
    remaining: Option<Bytes>,
    timer_fired: bool,
    timeout: nat,
)
    requires
        receive_step(step, remaining, timer_fired, timeout),
    ensures
        step is AwaitDatagram <==> remaining is None && !timer_fired,
        step !is Received,
        step matches ReceiveStep::Fail(e) ==> (if remaining is Some {
            e.kind == ErrorKind::InvalidData && e.message@
                == "udp stream has buffered bytes; cannot recv datagram"@
        } else {
            e.kind == ErrorKind::TimedOut && e.message@ == "UdpStream timeout with duration:"@
                + duration_debug(timeout)
        }),
{
}

} // verus!
