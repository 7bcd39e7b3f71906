//! What a reader of a UDP stream can rely on over many reads: no byte is lost,
//! repeated or moved, and no read mixes two datagrams.

use vstd::prelude::*;

verus! {

/// The bytes of `data` that fit into `room` bytes.
pub open spec fn head(data: Seq<u8>, room: nat) -> Seq<u8> {
    if room < data.len() {
        data.take(room as int)
    } else {
        data
    }
}

/// The bytes of `data` beyond the first `room`, where there are any.
pub open spec fn tail(data: Seq<u8>, room: nat) -> Option<Seq<u8>> {
    if room < data.len() {
        Some(data.skip(room as int))
    } else {
        None
    }
}

/// The read side of a stream: what is left over of a datagram read in part, and
/// the datagrams that wait behind it, the oldest first.
pub struct Inbox {
    pub leftover: Option<Seq<u8>>,
    pub waiting: Seq<Seq<u8>>,
}

/// A call on the read side.
pub enum Call {
    /// A read into a buffer with so much room.
    Read(nat),
    /// A call for one whole datagram.
    Receive,
}

/// All the datagrams, one after the other.
pub open spec fn joined(datagrams: Seq<Seq<u8>>) -> Seq<u8>
    decreases datagrams.len(),
{
    if datagrams.len() == 0 {
        Seq::empty()
    } else {
        datagrams.first() + joined(datagrams.drop_first())
    }
}

impl Inbox {
    /// A datagram is only left over where some of it still has to be read.
    pub open spec fn wf(self) -> bool {
        self.leftover matches Some(rest) ==> rest.len() > 0
    }

    /// All the bytes that still have to be read, in order.
    pub open spec fn unread(self) -> Seq<u8> {
        (match self.leftover {
            Some(rest) => rest,
            None => Seq::empty(),
        }) + joined(self.waiting)
    }

    /// The inbox after a call.
    pub open spec fn after(self, call: Call) -> Inbox {
        match (call, self.leftover) {
            (Call::Read(room), Some(rest)) => Inbox {
                leftover: tail(rest, room),
                waiting: self.waiting,
            },
            (Call::Read(room), None) => if self.waiting.len() == 0 {
                self
            } else {
                Inbox {
                    leftover: tail(self.waiting.first(), room),
                    waiting: self.waiting.drop_first(),
                }
            },
            (Call::Receive, Some(_)) => self,
            (Call::Receive, None) => if self.waiting.len() == 0 {
                self
            } else {
                Inbox { leftover: None, waiting: self.waiting.drop_first() }
            },
        }
    }

    /// The bytes that a call hands out: none where it has to wait, and none
    /// where a whole datagram is asked for while a part of one is left over.
    pub open spec fn output(self, call: Call) -> Seq<u8> {
        match (call, self.leftover) {
            (Call::Read(room), Some(rest)) => head(rest, room),
            (Call::Read(room), None) => if self.waiting.len() == 0 {
                Seq::empty()
            } else {
                head(self.waiting.first(), room)
            },
            (Call::Receive, Some(_)) => Seq::empty(),
            (Call::Receive, None) => if self.waiting.len() == 0 {
                Seq::empty()
            } else {
                self.waiting.first()
            },
        }
    }

    /// The inbox after a run of calls.
    pub open spec fn after_all(self, calls: Seq<Call>) -> Inbox
        decreases calls.len(),
    {
        if calls.len() == 0 {
            self
        } else {
            self.after(calls.first()).after_all(calls.drop_first())
        }
    }

    /// What each call of a run hands out.
    pub open spec fn outputs(self, calls: Seq<Call>) -> Seq<Seq<u8>>
        decreases calls.len(),
    {
        if calls.len() == 0 {
            Seq::empty()
        } else {
            seq![self.output(calls.first())] + self.after(calls.first()).outputs(
                calls.drop_first(),
            )
        }
    }
}

/// What happens on the read side: a datagram comes in, or the reader makes a
/// call.
pub enum Step {
    Arrival(Seq<u8>),
    Call(Call),
}

/// The datagrams that come in over a run of steps, the oldest first.
pub open spec fn arrivals(steps: Seq<Step>) -> Seq<Seq<u8>>
    decreases steps.len(),
{
    if steps.len() == 0 {
        Seq::empty()
    } else {
        match steps.first() {
            Step::Arrival(datagram) => seq![datagram] + arrivals(steps.drop_first()),
            Step::Call(_) => arrivals(steps.drop_first()),
        }
    }
}

impl Inbox {
    /// Nothing left over and nothing waiting, as in a new stream.
    pub open spec fn empty() -> Inbox {
        Inbox { leftover: None, waiting: Seq::empty() }
    }

    /// A call is answered at once: it neither has to wait nor is refused.
    pub open spec fn answers(self, call: Call) -> bool {
        match (call, self.leftover) {
            (Call::Read(_), Some(_)) => true,
            (Call::Receive, Some(_)) => false,
            (_, None) => self.waiting.len() > 0,
        }
    }

    /// The inbox after a step. A datagram that comes in waits behind the others.
    pub open spec fn after_step(self, step: Step) -> Inbox {
        match step {
            Step::Arrival(datagram) => Inbox {
                leftover: self.leftover,
                waiting: self.waiting.push(datagram),
            },
            Step::Call(call) => self.after(call),
        }
    }

    /// The inbox after a run of steps.
    pub open spec fn after_steps(self, steps: Seq<Step>) -> Inbox
        decreases steps.len(),
    {
        if steps.len() == 0 {
            self
        } else {
            self.after_step(steps.first()).after_steps(steps.drop_first())
        }
    }

    /// What the calls of a run that are answered at once hand out, one by one.
    pub open spec fn handed_out(self, steps: Seq<Step>) -> Seq<Seq<u8>>
        decreases steps.len(),
    {
        if steps.len() == 0 {
            Seq::empty()
        } else {
            let later = self.after_step(steps.first()).handed_out(steps.drop_first());
            match steps.first() {
                Step::Call(call) if self.answers(call) => seq![self.output(call)] + later,
                _ => later,
            }
        }
    }
}

proof fn lemma_joined_push(datagrams: Seq<Seq<u8>>, datagram: Seq<u8>)
    ensures
        joined(datagrams.push(datagram)) == joined(datagrams) + datagram,
    decreases datagrams.len(),
{
    reveal_with_fuel(joined, 2);
    let more = datagrams.push(datagram);
    if datagrams.len() > 0 {
        lemma_joined_push(datagrams.drop_first(), datagram);
        assert(more.drop_first() =~= datagrams.drop_first().push(datagram));
        assert(joined(more) =~= joined(datagrams) + datagram);
    } else {
        assert(more.drop_first() =~= Seq::empty());
        assert(joined(more) =~= joined(datagrams) + datagram);
    }
}

proof fn lemma_call_keeps_bytes(inbox: Inbox, call: Call)
    ensures
        inbox.output(call) + inbox.after(call).unread() == inbox.unread(),
{
    assert(inbox.output(call) + inbox.after(call).unread() =~= inbox.unread());
}

/// However arrivals, reads and calls for whole datagrams follow each other, what
/// was handed out and what is still unread make up what was unread before and
/// what came in since: no byte is lost, repeated or moved.
pub proof fn every_byte_is_delivered_in_order(inbox: Inbox, steps: Seq<Step>)
    ensures
        joined(inbox.handed_out(steps)) + inbox.after_steps(steps).unread() == inbox.unread()
            + joined(arrivals(steps)),
    decreases steps.len(),
{
    if steps.len() > 0 {
        let next = inbox.after_step(steps.first());
        let rest = steps.drop_first();
        let later = next.handed_out(rest);
        every_byte_is_delivered_in_order(next, rest);
        match steps.first() {
            Step::Arrival(datagram) => {
                lemma_joined_push(inbox.waiting, datagram);
                assert(next.unread() =~= inbox.unread() + datagram);
                let all = seq![datagram] + arrivals(rest);
                assert(all.drop_first() =~= arrivals(rest));
                assert(inbox.unread() + joined(all) =~= next.unread() + joined(arrivals(rest)));
            },
            Step::Call(call) => {
                lemma_call_keeps_bytes(inbox, call);
                if inbox.answers(call) {
                    let all = seq![inbox.output(call)] + later;
                    assert(all.drop_first() =~= later);
                    assert(joined(all) + next.after_steps(rest).unread() =~= inbox.output(call) + (
                    joined(later) + next.after_steps(rest).unread()));
                    assert(inbox.unread() + joined(arrivals(rest)) =~= inbox.output(call) + (
                    next.unread() + joined(arrivals(rest))));
                }
            },
        }
    } else {
        assert(joined(Seq::<Seq<u8>>::empty()) =~= Seq::empty());
        assert(Seq::<u8>::empty() + inbox.unread() =~= inbox.unread() + Seq::<u8>::empty());
    }
}

/// The reader only asks for whole datagrams.
pub open spec fn only_receives(steps: Seq<Step>) -> bool {
    forall|i: int|
        0 <= i < steps.len() ==> !(#[trigger] steps[i] matches Step::Call(Call::Read(_)))
}

/// A reader that only asks for whole datagrams gets each datagram that comes in
/// as it came, one per call, in order: what was handed out and what still waits
/// are what waited before and what came in since.
pub proof fn every_datagram_is_received_whole(inbox: Inbox, steps: Seq<Step>)
    requires
        inbox.leftover is None,
        only_receives(steps),
    ensures
        inbox.handed_out(steps) + inbox.after_steps(steps).waiting == inbox.waiting + arrivals(
            steps,
        ),
        inbox.after_steps(steps).leftover is None,
    decreases steps.len(),
{
    if steps.len() > 0 {
        let next = inbox.after_step(steps.first());
        let rest = steps.drop_first();
        assert(!(steps[0] matches Step::Call(Call::Read(_))));
        every_datagram_is_received_whole(next, rest);
        let later = next.handed_out(rest);
        let end = next.after_steps(rest).waiting;
        match steps.first() {
            Step::Arrival(datagram) => {
                assert(inbox.waiting + arrivals(steps) =~= next.waiting + arrivals(rest));
            },
            Step::Call(call) => {
                if inbox.answers(call) {
                    let first = seq![inbox.waiting.first()];
                    assert((first + later) + end =~= first + (later + end));
                    assert(inbox.waiting + arrivals(rest) =~= first + (next.waiting + arrivals(
                        rest,
                    )));
                }
            },
        }
    } else {
        assert(inbox.handed_out(steps) + inbox.waiting =~= inbox.waiting + arrivals(steps));
    }
}

/// A new stream hands out the bytes that come in, in order and no others; and
/// where its reader only asks for whole datagrams, the very datagrams that come
/// in.
pub proof fn new_stream_hands_out_what_comes_in(steps: Seq<Step>)
    ensures
        joined(Inbox::empty().handed_out(steps)) + Inbox::empty().after_steps(steps).unread()
            == joined(arrivals(steps)),
        only_receives(steps) ==> Inbox::empty().handed_out(steps) + Inbox::empty().after_steps(
            steps,
        ).waiting == arrivals(steps),
{
    every_byte_is_delivered_in_order(Inbox::empty(), steps);
    assert(Inbox::empty().unread() + joined(arrivals(steps)) =~= joined(arrivals(steps)));
    if only_receives(steps) {
        every_datagram_is_received_whole(Inbox::empty(), steps);
        assert(Inbox::empty().waiting + arrivals(steps) =~= arrivals(steps));
    }
}

/// Every call leaves the inbox well formed.
pub proof fn calls_keep_inbox_well_formed(inbox: Inbox, call: Call)
    requires
        inbox.wf(),
    ensures
        inbox.after(call).wf(),
{
}

/// A read hands out the front of one datagram, or of what is left over of one,
/// and nothing of the next: packets are split, never merged.
pub proof fn a_read_never_merges_datagrams(inbox: Inbox, room: nat)
    ensures
        inbox.output(Call::Read(room)).len() <= room,
        inbox.leftover matches Some(rest) ==> inbox.output(Call::Read(room)).is_prefix_of(rest)
            && inbox.after(Call::Read(room)).waiting == inbox.waiting,
        inbox.leftover is None && inbox.waiting.len() > 0 ==> inbox.output(
            Call::Read(room),
        ).is_prefix_of(inbox.waiting.first()),
{
}

/// Calls for whole datagrams hand out exactly the waiting datagrams, one each,
/// in the order in which they came.
pub proof fn receive_preserves_packet_boundaries(inbox: Inbox, calls: Seq<Call>)
    requires
        inbox.leftover is None,
        calls.len() <= inbox.waiting.len(),
        forall|i: int| 0 <= i < calls.len() ==> calls[i] == Call::Receive,
    ensures
        inbox.outputs(calls) == inbox.waiting.take(calls.len() as int),
        inbox.after_all(calls).leftover is None,
        inbox.after_all(calls).waiting == inbox.waiting.skip(calls.len() as int),
    decreases calls.len(),
{
    if calls.len() > 0 {
        let next = inbox.after(calls.first());
        let rest = calls.drop_first();
        assert(calls[0] == Call::Receive);
        receive_preserves_packet_boundaries(next, rest);
        assert(inbox.outputs(calls) =~= inbox.waiting.take(calls.len() as int));
        assert(inbox.after_all(calls).waiting =~= inbox.waiting.skip(calls.len() as int));
    } else {
        assert(inbox.waiting.skip(0) =~= inbox.waiting);
    }
}

/// Reads into buffers with room for any waiting datagram hand out one whole
/// datagram each, too.
pub proof fn wide_reads_preserve_packet_boundaries(inbox: Inbox, calls: Seq<Call>)
    requires
        inbox.leftover is None,
        calls.len() <= inbox.waiting.len(),
        forall|i: int|
            0 <= i < calls.len() ==> (#[trigger] calls[i] matches Call::Read(room)
                && inbox.waiting[i].len() <= room),
    ensures
        inbox.outputs(calls) == inbox.waiting.take(calls.len() as int),
        inbox.after_all(calls).leftover is None,
        inbox.after_all(calls).waiting == inbox.waiting.skip(calls.len() as int),
    decreases calls.len(),
{
    if calls.len() > 0 {
        let next = inbox.after(calls.first());
        let rest = calls.drop_first();
        assert(calls[0] is Read);
        assert forall|i: int| 0 <= i < rest.len() implies (#[trigger] rest[i] matches Call::Read(
            room,
        ) && next.waiting[i].len() <= room) by {
            assert(rest[i] == calls[i + 1]);
            assert(next.waiting[i] == inbox.waiting[i + 1]);
        }
        wide_reads_preserve_packet_boundaries(next, rest);
        assert(inbox.outputs(calls) =~= inbox.waiting.take(calls.len() as int));
        assert(inbox.after_all(calls).waiting =~= inbox.waiting.skip(calls.len() as int));
    } else {
        assert(inbox.waiting.skip(0) =~= inbox.waiting);
    }
}

/// A datagram asked for while a part of one is left over is refused, and the
/// inbox stays as it is.
pub proof fn refused_receive_changes_nothing(inbox: Inbox)
    requires
        inbox.leftover is Some,
    ensures
        inbox.after(Call::Receive) == inbox,
        inbox.output(Call::Receive).len() == 0,
{
}

/// Of what fits and what does not: together they are the data, what fits is as
/// long as both the data and the room allow, and there is a rest only where the
/// room is too small.
pub proof fn data_is_cut_where_the_room_ends(data: Seq<u8>, room: nat)
    ensures
        head(data, room).len() == (if room < data.len() {
            room
        } else {
            data.len()
        }),
        forall|i: int| 0 <= i < head(data, room).len() ==> #[trigger] head(data, room)[i] == data[i],
        tail(data, room) is Some <==> room < data.len(),
        tail(data, room) matches Some(rest) ==> rest.len() == data.len() - room && head(data, room)
            + rest == data,
{
    if room < data.len() {
        assert(data.take(room as int) + data.skip(room as int) =~= data);
    }
}

/// A read hands out as many bytes as both its room and the datagram allow, be it
/// one left over or one that waits. The rest of that datagram stays for the next
/// read, and the datagrams behind it stay as they are.
pub proof fn a_read_hands_out_all_that_fits(
    data: Seq<u8>,
    behind: Seq<Seq<u8>>,
    room: nat,
    inbox: Inbox,
)
    requires
        inbox.leftover == Some(data) && inbox.waiting == behind || inbox.leftover is None
            && inbox.waiting == seq![data] + behind,
    ensures
        inbox.output(Call::Read(room)).len() == (if room < data.len() {
            room
        } else {
            data.len()
        }),
        inbox.output(Call::Read(room)).is_prefix_of(data),
        inbox.after(Call::Read(room)).waiting == behind,
        room >= data.len() ==> inbox.after(Call::Read(room)).leftover is None,
        room < data.len() ==> {
            &&& inbox.after(Call::Read(room)).leftover matches Some(rest)
            &&& inbox.output(Call::Read(room)) + rest == data
        },
        room > 0 && data.len() > 0 ==> inbox.output(Call::Read(room)).len() > 0,
{
    data_is_cut_where_the_room_ends(data, room);
    if inbox.leftover is None {
        assert(inbox.waiting.first() == data);
        assert(inbox.waiting.drop_first() =~= behind);
    }
    if room < data.len() {
        assert(data.take(room as int) + data.skip(room as int) =~= data);
    }
}

/// A call for a whole datagram hands out the one that waits first and leaves those
/// behind it; where none waits nothing happens.
pub proof fn a_receive_hands_out_the_first_datagram(
    data: Seq<u8>,
    behind: Seq<Seq<u8>>,
    inbox: Inbox,
)
    requires
        inbox.leftover is None,
    ensures
        inbox.waiting == seq![data] + behind ==> {
            &&& inbox.output(Call::Receive) == data
            &&& inbox.after(Call::Receive).waiting == behind
            &&& inbox.after(Call::Receive).leftover is None
        },
        inbox.waiting.len() == 0 ==> inbox.after(Call::Receive) == inbox && inbox.output(
            Call::Receive,
        ).len() == 0,
{
    assert((seq![data] + behind).drop_first() =~= behind);
}

/// Datagrams joined are their bytes one after the other: none for no datagram, its
/// own for one, and those of a longer run part by part.
pub proof fn datagrams_join_part_by_part(
    datagram: Seq<u8>,
    first: Seq<Seq<u8>>,
    second: Seq<Seq<u8>>,
)
    ensures
        joined(Seq::empty()).len() == 0,
        joined(seq![datagram]) == datagram,
        joined(first + second) == joined(first) + joined(second),
    decreases second.len(),
{
    reveal_with_fuel(joined, 2);
    assert(seq![datagram].drop_first() =~= Seq::empty());
    assert(joined(seq![datagram]) =~= datagram);
    if second.len() > 0 {
        let shorter = second.drop_last();
        datagrams_join_part_by_part(datagram, first, shorter);
        lemma_joined_push(first + shorter, second.last());
        lemma_joined_push(shorter, second.last());
        assert((first + shorter).push(second.last()) =~= first + second);
        assert(shorter.push(second.last()) =~= second);
        assert(joined(first + second) =~= joined(first) + joined(second));
    } else {
        assert(first + second =~= first);
        assert(joined(first + second) =~= joined(first) + joined(second));
    }
}

} // verus!
