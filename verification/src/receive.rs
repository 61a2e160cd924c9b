//! Receiving one byte: wait for data, then read the data register.

use crate::access::{reads_of, Access, Request};
use crate::poll::{Poll, PollModel, PollState};
use crate::registers::{
    data_ready, register, LINE_STATUS_DR, LOOP_MAX, REG_DATA, REG_LINE_STATUS,
};
use crate::uart::{Fault, UART};
use vstd::prelude::*;

verus! {

/// A receive as a mathematical value: the device, the poll for waiting
/// data, and the byte read from the data register, once it is there.
pub struct ReceiveModel {
    pub uart: UART,
    pub poll: PollModel,
    pub fetched: Option<u8>,
}

impl ReceiveModel {
    /// A receive on which nothing has happened yet.
    pub open spec fn start(uart: UART) -> ReceiveModel {
        ReceiveModel {
            uart,
            poll: PollModel::start(LINE_STATUS_DR, LOOP_MAX as nat),
            fetched: None,
        }
    }

    /// The address of the line status register.
    pub open spec fn status_addr(self) -> usize {
        register(self.uart.base(), REG_LINE_STATUS)
    }

    /// The address of the data register.
    pub open spec fn data_addr(self) -> usize {
        register(self.uart.base(), REG_DATA)
    }

    /// The register window lies in the address space; the poll is sound,
    /// waits for data and has the fixed budget; and the data register is
    /// read only once data was seen ready.
    pub open spec fn inv(self) -> bool {
        &&& self.uart.wf()
        &&& self.poll.inv()
        &&& self.poll.mask == LINE_STATUS_DR
        &&& self.poll.budget == LOOP_MAX
        &&& self.fetched is Some ==> self.poll.state() is Ready
    }

    /// Read the line status while the poll waits; read the data register once
    /// data is seen ready; then done with that byte. Done with a fault when
    /// the poll ran out.
    pub open spec fn pending(self) -> Request<Result<u8, Fault>> {
        match self.poll.state() {
            PollState::Waiting => Request::Read { addr: self.status_addr() },
            PollState::Ready => match self.fetched {
                None => Request::Read { addr: self.data_addr() },
                Some(byte) => Request::Done(Ok(byte)),
            },
            PollState::Exhausted => Request::Done(Err(Fault::DataNotReady)),
        }
    }

    /// The receive after a read returned `value`: a line status goes to the
    /// poll, the content of the data register is kept. A read that was not
    /// asked for changes nothing.
    pub open spec fn after_read(self, value: u8) -> ReceiveModel {
        match self.poll.state() {
            PollState::Waiting => ReceiveModel { poll: self.poll.observe(value), ..self },
            PollState::Ready => if self.fetched is None {
                ReceiveModel { fetched: Some(value), ..self }
            } else {
                self
            },
            PollState::Exhausted => self,
        }
    }

    /// Every access made so far, oldest first.
    pub open spec fn history(self) -> Seq<Access> {
        reads_of(self.status_addr(), self.poll.seen) + match self.fetched {
            Some(byte) => seq![Access::Read { addr: self.data_addr(), value: byte }],
            None => Seq::empty(),
        }
    }

    /// The receive after it was driven against a device that answers the
    /// reads with `replies`, in order: every read that is asked for is made
    /// and reported, until the receive is done or a read finds no reply
    /// left.
    pub open spec fn run(self, replies: Seq<u8>) -> ReceiveModel
        decreases replies.len(),
    {
        if self.pending() is Read && replies.len() > 0 {
            self.after_read(replies[0]).run(replies.skip(1))
        } else {
            self
        }
    }

    /// The receive with `statuses` added to what its poll has seen.
    spec fn polled(self, statuses: Seq<u8>) -> ReceiveModel {
        ReceiveModel { poll: PollModel { seen: self.poll.seen + statuses, ..self.poll }, ..self }
    }
}

/// A receive in progress.
pub struct Receive {
    uart: UART,
    poll: Poll,
    fetched: Option<u8>,
}

impl View for Receive {
    type V = ReceiveModel;

    closed spec fn view(&self) -> ReceiveModel {
        ReceiveModel { uart: self.uart, poll: self.poll@, fetched: self.fetched }
    }
}

impl Receive {
    #[verifier::type_invariant]
    spec fn well_formed(self) -> bool {
        self@.inv()
    }

    pub(crate) fn start(uart: UART) -> (receive: Receive)
        ensures
            receive@ == ReceiveModel::start(uart),
    {
        proof {
            use_type_invariant(&uart);
        }
        Receive { uart, poll: Poll::new(LINE_STATUS_DR, LOOP_MAX), fetched: None }
    }

    /// What the caller has to do next.
    pub fn request(&self) -> (request: Request<Result<u8, Fault>>)
        ensures
            request == self@.pending(),
            self@.inv(),
    {
        proof {
            use_type_invariant(self);
        }
        match self.poll.state() {
            PollState::Waiting => Request::Read { addr: self.uart.register(REG_LINE_STATUS) },
            PollState::Ready => match self.fetched {
                None => Request::Read { addr: self.uart.register(REG_DATA) },
                Some(byte) => Request::Done(Ok(byte)),
            },
            PollState::Exhausted => Request::Done(Err(Fault::DataNotReady)),
        }
    }

    /// Takes in the byte that the requested read returned.
    pub fn read_done(&mut self, value: u8)
        ensures
            final(self)@ == old(self)@.after_read(value),
            final(self)@.inv(),
            old(self)@.pending() matches Request::Read { addr }
                ==> final(self)@.history() == old(self)@.history().push(
                Access::Read { addr, value },
            ),
            !(old(self)@.pending() is Read) ==> final(self)@ == old(self)@,
    {
        proof {
            use_type_invariant(&*self);
        }
        match self.poll.state() {
            PollState::Waiting => {
                let mut poll = self.poll;
                poll.observe(value);
                *self = Receive { uart: self.uart, poll, fetched: self.fetched };
            },
            PollState::Ready => {
                if self.fetched.is_none() {
                    *self = Receive { uart: self.uart, poll: self.poll, fetched: Some(value) };
                }
            },
            PollState::Exhausted => {},
        }
    }
}

/// A receive starts in a sound state, with nothing done and the first poll pending.
pub proof fn receive_starts_sound(uart: UART)
    requires
        uart.wf(),
    ensures
        ReceiveModel::start(uart).inv(),
        ReceiveModel::start(uart).history() == Seq::<Access>::empty(),
        ReceiveModel::start(uart).pending() == (Request::<Result<u8, Fault>>::Read {
            addr: register(uart.base(), REG_LINE_STATUS),
        }),
{
}

/// Whatever is reported to a sound receive, it stays sound.
pub proof fn receive_stays_sound(m: ReceiveModel, value: u8)
    requires
        m.inv(),
    ensures
        m.after_read(value).inv(),
{
}

/// A receive never makes more accesses than the poll budget and one read of
/// the data register, and while it still asks for one, the budget is not
/// used up.
pub proof fn receive_is_bounded(m: ReceiveModel)
    requires
        m.inv(),
    ensures
        m.history().len() <= LOOP_MAX + 1,
        !(m.pending() is Done) ==> m.history().len() <= LOOP_MAX,
{
}

/// A receive asks for no write, and none is in its history.
pub proof fn receive_only_reads(m: ReceiveModel)
    requires
        m.inv(),
    ensures
        !(m.pending() is Write),
        forall|i: int| 0 <= i < m.history().len() ==> (#[trigger] m.history()[i]) is Read,
{
}

/// However a receive was driven: when it has ended in success, the line
/// status was read between one and `LOOP_MAX` times, only the last of these
/// reads showed data ready, then the data register was read, once, and the
/// result is the byte that this read returned.
pub proof fn receive_ended_in_success(m: ReceiveModel, byte: u8)
    requires
        m.inv(),
        m.pending() == Request::Done(Ok::<u8, Fault>(byte)),
    ensures
        1 <= m.poll.seen.len() <= LOOP_MAX,
        data_ready(m.poll.seen.last()),
        forall|i: int| 0 <= i < m.poll.seen.len() - 1 ==> !data_ready(#[trigger] m.poll.seen[i]),
        m.history() == reads_of(m.status_addr(), m.poll.seen).push(
            Access::Read { addr: m.data_addr(), value: byte },
        ),
{
}

/// However a receive was driven: when it has ended in a fault, the fault is
/// `DataNotReady`, the line status was read exactly `LOOP_MAX` times, none
/// of these reads showed data ready, and the data register was not read.
pub proof fn receive_ended_in_fault(m: ReceiveModel, fault: Fault)
    requires
        m.inv(),
        m.pending() == Request::Done(Err::<u8, Fault>(fault)),
    ensures
        fault == Fault::DataNotReady,
        m.poll.seen.len() == LOOP_MAX,
        forall|i: int| 0 <= i < m.poll.seen.len() ==> !data_ready(#[trigger] m.poll.seen[i]),
        m.history() == reads_of(m.status_addr(), m.poll.seen),
        forall|i: int|
            0 <= i < m.history().len() ==> (#[trigger] m.history()[i]).addr() != m.data_addr(),
{
}

/// Driving a receive through `j` statuses that do not show data ready only
/// adds them to what the poll has seen.
proof fn lemma_run_through_misses(m: ReceiveModel, replies: Seq<u8>, j: int)
    requires
        m.inv(),
        !(m.poll.state() is Ready),
        0 <= j <= replies.len(),
        m.poll.seen.len() + j <= LOOP_MAX,
        forall|i: int| 0 <= i < j ==> !data_ready(#[trigger] replies[i]),
    ensures
        m.run(replies) == m.polled(replies.take(j)).run(replies.skip(j)),
        m.polled(replies.take(j)).inv(),
        !(m.polled(replies.take(j)).poll.state() is Ready),
    decreases j,
{
    if j == 0 {
        assert(replies.skip(0) =~= replies);
    } else {
        let m1 = m.after_read(replies[0]);
        let rest = replies.skip(1);
        lemma_run_through_misses(m1, rest, j - 1);
        assert(m1.poll.seen + rest.take(j - 1) =~= m.poll.seen + replies.take(j));
        assert(rest.skip(j - 1) =~= replies.skip(j));
    }
}

/// Against a device that first shows data ready on poll `k`, a receive reads
/// the line status exactly `k` times, then reads the data register, once,
/// and ends in success with the byte that the data register returned.
pub proof fn receive_reads_on_poll(uart: UART, replies: Seq<u8>, k: int)
    requires
        uart.wf(),
        1 <= k <= LOOP_MAX,
        k < replies.len(),
        forall|i: int| 0 <= i < k - 1 ==> !data_ready(#[trigger] replies[i]),
        data_ready(replies[k - 1]),
    ensures
        ReceiveModel::start(uart).run(replies).pending() == Request::Done(
            Ok::<u8, Fault>(replies[k]),
        ),
        ReceiveModel::start(uart).run(replies).history() == reads_of(
            register(uart.base(), REG_LINE_STATUS),
            replies.take(k),
        ).push(Access::Read { addr: register(uart.base(), REG_DATA), value: replies[k] }),
{
    let m = ReceiveModel::start(uart);
    lemma_run_through_misses(m, replies, k - 1);
    let waiting = m.polled(replies.take(k - 1));
    let rest = replies.skip(k - 1);
    let ready = waiting.after_read(rest[0]);
    let fetched = ready.after_read(rest[1]);
    assert(ready.run(rest.skip(1)) == fetched.run(rest.skip(1).skip(1)));
}

/// Against a device that never shows data ready, a receive reads the line
/// status exactly `LOOP_MAX` times, never reads the data register, and ends
/// in `DataNotReady`.
pub proof fn receive_gives_up(uart: UART, replies: Seq<u8>)
    requires
        uart.wf(),
        replies.len() >= LOOP_MAX,
        forall|i: int| 0 <= i < LOOP_MAX ==> !data_ready(#[trigger] replies[i]),
    ensures
        ReceiveModel::start(uart).run(replies).pending() == Request::Done(
            Err::<u8, Fault>(Fault::DataNotReady),
        ),
        ReceiveModel::start(uart).run(replies).history() == reads_of(
            register(uart.base(), REG_LINE_STATUS),
            replies.take(LOOP_MAX as int),
        ),
        forall|i: int|
            0 <= i < LOOP_MAX ==> (#[trigger] ReceiveModel::start(uart).run(
                replies,
            ).history()[i]).addr() != register(uart.base(), REG_DATA),
{
    lemma_run_through_misses(ReceiveModel::start(uart), replies, LOOP_MAX as int);
}

} // verus!
