//! Sending one byte: wait for the transmitter, then write the data register.

use crate::access::{reads_of, Access, Request};
use crate::poll::{Poll, PollModel, PollState};
use crate::registers::{
    register, transmit_empty, LINE_STATUS_THRE, LOOP_MAX, REG_DATA, REG_LINE_STATUS,
};
use crate::uart::{Fault, UART};
use vstd::prelude::*;

verus! {

/// A transmit as a mathematical value: the device, the byte to send, the
/// poll for an empty transmitter, and whether the byte has been written.
pub struct TransmitModel {
    pub uart: UART,
    pub byte: u8,
    pub poll: PollModel,
    pub written: bool,
}

impl TransmitModel {
    /// A transmit of `byte` on which nothing has happened yet.
    pub open spec fn start(uart: UART, byte: u8) -> TransmitModel {
        TransmitModel {
            uart,
            byte,
            poll: PollModel::start(LINE_STATUS_THRE, LOOP_MAX as nat),
            written: false,
        }
    }

    /// The address of the line status register.
    pub open spec fn status_addr(self) -> usize {
        register(self.uart.base(), REG_LINE_STATUS)
    }

    /// The address of the data register.
    pub open spec fn data_addr(self) -> usize {
        register(self.uart.base(), REG_DATA)
    }

    /// The register window lies in the address space; the poll is sound,
    /// waits for an empty transmitter and has the fixed budget; and the byte
    /// is written only once the transmitter was seen empty.
    pub open spec fn inv(self) -> bool {
        &&& self.uart.wf()
        &&& self.poll.inv()
        &&& self.poll.mask == LINE_STATUS_THRE
        &&& self.poll.budget == LOOP_MAX
        &&& self.written ==> self.poll.state() is Ready
    }

    /// Read the line status while the poll waits; write the byte once the
    /// transmitter is seen empty; then done. Done with a fault when the poll
    /// ran out.
    pub open spec fn pending(self) -> Request<Result<(), Fault>> {
        match self.poll.state() {
            PollState::Waiting => Request::Read { addr: self.status_addr() },
            PollState::Ready => if self.written {
                Request::Done(Ok(()))
            } else {
                Request::Write { addr: self.data_addr(), value: self.byte }
            },
            PollState::Exhausted => Request::Done(Err(Fault::TxNotEmpty)),
        }
    }

    /// The transmit after a read returned `value`. A read that was not asked
    /// for changes nothing.
    pub open spec fn after_read(self, value: u8) -> TransmitModel {
        TransmitModel { poll: self.poll.observe(value), ..self }
    }

    /// The transmit after the pending write was made. A write that was not
    /// asked for changes nothing.
    pub open spec fn after_write(self) -> TransmitModel {
        if self.pending() is Write {
            TransmitModel { written: true, ..self }
        } else {
            self
        }
    }

    /// Every access made so far, oldest first.
    pub open spec fn history(self) -> Seq<Access> {
        reads_of(self.status_addr(), self.poll.seen) + if self.written {
            seq![Access::Write { addr: self.data_addr(), value: self.byte }]
        } else {
            Seq::empty()
        }
    }

    /// The transmit after it was driven against a device that answers the
    /// reads with `replies`, in order: every access that is asked for is
    /// made and reported, until the transmit is done or a read finds no
    /// reply left.
    pub open spec fn run(self, replies: Seq<u8>) -> TransmitModel
        decreases replies.len(), (if self.written { 0int } else { 1int }),
    {
        match self.pending() {
            Request::Read { .. } => if replies.len() > 0 {
                self.after_read(replies[0]).run(replies.skip(1))
            } else {
                self
            },
            Request::Write { .. } => self.after_write().run(replies),
            Request::Done(_) => self,
        }
    }

    /// The transmit with `statuses` added to what its poll has seen.
    spec fn polled(self, statuses: Seq<u8>) -> TransmitModel {
        TransmitModel { poll: PollModel { seen: self.poll.seen + statuses, ..self.poll }, ..self }
    }
}

/// A transmit in progress.
pub struct Transmit {
    uart: UART,
    byte: u8,
    poll: Poll,
    written: bool,
}

impl View for Transmit {
    type V = TransmitModel;

    closed spec fn view(&self) -> TransmitModel {
        TransmitModel { uart: self.uart, byte: self.byte, poll: self.poll@, written: self.written }
    }
}

impl Transmit {
    #[verifier::type_invariant]
    spec fn well_formed(self) -> bool {
        self@.inv()
    }

    pub(crate) fn start(uart: UART, byte: u8) -> (transmit: Transmit)
        ensures
            transmit@ == TransmitModel::start(uart, byte),
    {
        proof {
            use_type_invariant(&uart);
        }
        Transmit { uart, byte, poll: Poll::new(LINE_STATUS_THRE, LOOP_MAX), written: false }
    }

    /// What the caller has to do next.
    pub fn request(&self) -> (request: Request<Result<(), Fault>>)
        ensures
            request == self@.pending(),
            self@.inv(),
    {
        proof {
            use_type_invariant(self);
        }
        match self.poll.state() {
            PollState::Waiting => Request::Read { addr: self.uart.register(REG_LINE_STATUS) },
            PollState::Ready => if self.written {
                Request::Done(Ok(()))
            } else {
                Request::Write { addr: self.uart.register(REG_DATA), value: self.byte }
            },
            PollState::Exhausted => Request::Done(Err(Fault::TxNotEmpty)),
        }
    }

    /// Takes in the byte that the requested read returned.
    pub fn read_done(&mut self, value: u8)
        ensures
            final(self)@ == old(self)@.after_read(value),
            final(self)@.inv(),
            old(self)@.pending() matches Request::Read { addr }
                ==> final(self)@.history() == old(self)@.history().push(
                Access::Read { addr, value },
            ),
            !(old(self)@.pending() is Read) ==> final(self)@ == old(self)@,
    {
        proof {
            use_type_invariant(&*self);
        }
        let mut poll = self.poll;
        poll.observe(value);
        *self = Transmit { uart: self.uart, byte: self.byte, poll, written: self.written };
    }

    /// Takes in that the requested write was made.
    pub fn write_done(&mut self)
        ensures
            final(self)@ == old(self)@.after_write(),
            final(self)@.inv(),
            old(self)@.pending() matches Request::Write { addr, value }
                ==> final(self)@.history() == old(self)@.history().push(
                Access::Write { addr, value },
            ),
            !(old(self)@.pending() is Write) ==> final(self)@ == old(self)@,
    {
        proof {
            use_type_invariant(&*self);
        }
        if let PollState::Ready = self.poll.state() {
            *self = Transmit { uart: self.uart, byte: self.byte, poll: self.poll, written: true };
        }
    }
}

/// A transmit starts in a sound state, with nothing done and the first poll pending.
pub proof fn transmit_starts_sound(uart: UART, byte: u8)
    requires
        uart.wf(),
    ensures
        TransmitModel::start(uart, byte).inv(),
        TransmitModel::start(uart, byte).history() == Seq::<Access>::empty(),
        TransmitModel::start(uart, byte).pending() == (Request::<Result<(), Fault>>::Read {
            addr: register(uart.base(), REG_LINE_STATUS),
        }),
{
}

/// Whatever is reported to a sound transmit, it stays sound.
pub proof fn transmit_stays_sound(m: TransmitModel, value: u8)
    requires
        m.inv(),
    ensures
        m.after_read(value).inv(),
        m.after_write().inv(),
{
}

/// A transmit never makes more accesses than the poll budget and one write,
/// and while it still asks for one, the budget is not used up.
pub proof fn transmit_is_bounded(m: TransmitModel)
    requires
        m.inv(),
    ensures
        m.history().len() <= LOOP_MAX + 1,
        !(m.pending() is Done) ==> m.history().len() <= LOOP_MAX,
{
}

/// However a transmit was driven: when it has ended in success, the line
/// status was read between one and `LOOP_MAX` times, only the last of these
/// reads showed the transmitter empty, and then the byte was written to the
/// data register, once.
pub proof fn transmit_ended_in_success(m: TransmitModel)
    requires
        m.inv(),
        m.pending() == Request::Done(Ok::<(), Fault>(())),
    ensures
        1 <= m.poll.seen.len() <= LOOP_MAX,
        transmit_empty(m.poll.seen.last()),
        forall|i: int| 0 <= i < m.poll.seen.len() - 1 ==> !transmit_empty(#[trigger] m.poll.seen[i]),
        m.history() == reads_of(m.status_addr(), m.poll.seen).push(
            Access::Write { addr: m.data_addr(), value: m.byte },
        ),
{
}

/// However a transmit was driven: when it has ended otherwise, the fault is
/// `TxNotEmpty`, the line status was read exactly `LOOP_MAX` times, none of
/// these reads showed the transmitter empty, and nothing was written.
pub proof fn transmit_ended_in_fault(m: TransmitModel)
    requires
        m.inv(),
        m.pending() is Done,
        m.pending() != Request::Done(Ok::<(), Fault>(())),
    ensures
        m.pending() == Request::Done(Err::<(), Fault>(Fault::TxNotEmpty)),
        m.poll.seen.len() == LOOP_MAX,
        forall|i: int| 0 <= i < m.poll.seen.len() ==> !transmit_empty(#[trigger] m.poll.seen[i]),
        m.history() == reads_of(m.status_addr(), m.poll.seen),
{
}

/// Driving a transmit through `j` statuses that do not show the transmitter
/// empty only adds them to what the poll has seen.
proof fn lemma_run_through_misses(m: TransmitModel, replies: Seq<u8>, j: int)
    requires
        m.inv(),
        !(m.poll.state() is Ready),
        0 <= j <= replies.len(),
        m.poll.seen.len() + j <= LOOP_MAX,
        forall|i: int| 0 <= i < j ==> !transmit_empty(#[trigger] replies[i]),
    ensures
        m.run(replies) == m.polled(replies.take(j)).run(replies.skip(j)),
        m.polled(replies.take(j)).inv(),
        !(m.polled(replies.take(j)).poll.state() is Ready),
    decreases j,
{
    if j == 0 {
        assert(replies.skip(0) =~= replies);
    } else {
        let m1 = m.after_read(replies[0]);
        let rest = replies.skip(1);
        lemma_run_through_misses(m1, rest, j - 1);
        assert(m1.poll.seen + rest.take(j - 1) =~= m.poll.seen + replies.take(j));
        assert(rest.skip(j - 1) =~= replies.skip(j));
    }
}

/// Against a device that first shows the transmitter empty on poll `k`, a
/// transmit of `byte` reads the line status exactly `k` times, then writes
/// `byte` to the data register, once, and ends in success.
pub proof fn transmit_sends_on_poll(uart: UART, byte: u8, replies: Seq<u8>, k: int)
    requires
        uart.wf(),
        1 <= k <= LOOP_MAX,
        k <= replies.len(),
        forall|i: int| 0 <= i < k - 1 ==> !transmit_empty(#[trigger] replies[i]),
        transmit_empty(replies[k - 1]),
    ensures
        TransmitModel::start(uart, byte).run(replies).pending() == Request::Done(
            Ok::<(), Fault>(()),
        ),
        TransmitModel::start(uart, byte).run(replies).history() == reads_of(
            register(uart.base(), REG_LINE_STATUS),
            replies.take(k),
        ).push(Access::Write { addr: register(uart.base(), REG_DATA), value: byte }),
{
    let m = TransmitModel::start(uart, byte);
    lemma_run_through_misses(m, replies, k - 1);
    let waiting = m.polled(replies.take(k - 1));
    let rest = replies.skip(k - 1);
    let ready = waiting.after_read(rest[0]);
    let sent = ready.after_write();
    assert(ready.run(rest.skip(1)) == sent.run(rest.skip(1)));
}

/// Against a device that shows the transmitter empty on the first poll, a
/// transmit of `byte` makes two accesses, a read of the line status and a
/// write of `byte` to the data register, and ends in success.
pub proof fn transmit_sends_at_once(uart: UART, byte: u8, replies: Seq<u8>)
    requires
        uart.wf(),
        replies.len() >= 1,
        transmit_empty(replies[0]),
    ensures
        TransmitModel::start(uart, byte).run(replies).pending() == Request::Done(
            Ok::<(), Fault>(()),
        ),
        TransmitModel::start(uart, byte).run(replies).history() == seq![
            Access::Read { addr: register(uart.base(), REG_LINE_STATUS), value: replies[0] },
            Access::Write { addr: register(uart.base(), REG_DATA), value: byte },
        ],
{
    transmit_sends_on_poll(uart, byte, replies, 1);
}

/// Against a device that never shows the transmitter empty, a transmit reads
/// the line status exactly `LOOP_MAX` times, writes nothing, and ends in
/// `TxNotEmpty`.
pub proof fn transmit_gives_up(uart: UART, byte: u8, replies: Seq<u8>)
    requires
        uart.wf(),
        replies.len() >= LOOP_MAX,
        forall|i: int| 0 <= i < LOOP_MAX ==> !transmit_empty(#[trigger] replies[i]),
    ensures
        TransmitModel::start(uart, byte).run(replies).pending() == Request::Done(
            Err::<(), Fault>(Fault::TxNotEmpty),
        ),
        TransmitModel::start(uart, byte).run(replies).history() == reads_of(
            register(uart.base(), REG_LINE_STATUS),
            replies.take(LOOP_MAX as int),
        ),
        forall|i: int|
            0 <= i < LOOP_MAX ==> (#[trigger] TransmitModel::start(uart, byte).run(
                replies,
            ).history()[i]) is Read,
{
    lemma_run_through_misses(TransmitModel::start(uart, byte), replies, LOOP_MAX as int);
}

} // verus!
