//! Bounded polling of a status register for a flag.

use vstd::prelude::*;

verus! {

/// Where a poll stands.
#[derive(Clone, Copy, Debug, PartialEq, Eq)]
pub enum PollState {
    /// The flag has not been seen and polls are left.
    Waiting,
    /// The latest status had the flag set.
    Ready,
    /// Every poll of the budget was made and none had the flag set.
    Exhausted,
}

/// A poll as a mathematical value: the flag, the budget, and every status
/// seen so far, oldest first.
pub struct PollModel {
    pub mask: u8,
    pub budget: nat,
    pub seen: Seq<u8>,
}

impl PollModel {
    /// A poll that has seen nothing yet.
    pub open spec fn start(mask: u8, budget: nat) -> PollModel {
        PollModel { mask, budget, seen: Seq::empty() }
    }

    /// Whether `status` has one of the awaited bits set.
    pub open spec fn hit(self, status: u8) -> bool {
        status & self.mask != 0
    }

    /// At most `budget` statuses were seen, and none but the latest can have
    /// the flag set.
    pub open spec fn inv(self) -> bool {
        &&& self.seen.len() <= self.budget
        &&& forall|i: int| 0 <= i < self.seen.len() - 1 ==> !self.hit(#[trigger] self.seen[i])
    }

    /// Ready when the latest status has the flag set; else exhausted when
    /// the budget is used up; else waiting.
    pub open spec fn state(self) -> PollState {
        if self.seen.len() > 0 && self.hit(self.seen.last()) {
            PollState::Ready
        } else if self.seen.len() >= self.budget {
            PollState::Exhausted
        } else {
            PollState::Waiting
        }
    }

    /// The poll after `status` was read: recorded while waiting, ignored afterwards.
    pub open spec fn observe(self, status: u8) -> PollModel {
        if self.state() is Waiting {
            PollModel { seen: self.seen.push(status), ..self }
        } else {
            self
        }
    }
}

/// Polls a status register until one of the bits of a mask is set, for at
/// most a fixed number of reads.
#[derive(Clone, Copy)]
pub struct Poll {
    mask: u8,
    budget: usize,
    polls: usize,
    ready: bool,
    seen: Ghost<Seq<u8>>,
}

impl View for Poll {
    type V = PollModel;

    closed spec fn view(&self) -> PollModel {
        PollModel { mask: self.mask, budget: self.budget as nat, seen: self.seen@ }
    }
}

impl Poll {
    #[verifier::type_invariant]
    spec fn well_formed(self) -> bool {
        &&& self@.inv()
        &&& self.polls == self.seen@.len()
        &&& self.ready == (self@.state() is Ready)
    }

    /// A poll for the bits of `mask` that gives up after `budget` reads.
    pub fn new(mask: u8, budget: usize) -> (poll: Poll)
        ensures
            poll@ == PollModel::start(mask, budget as nat),
            poll@.inv(),
    {
        Poll { mask, budget, polls: 0, ready: false, seen: Ghost(Seq::empty()) }
    }

    /// Where the poll stands.
    pub fn state(&self) -> (state: PollState)
        ensures
            state == self@.state(),
            self@.inv(),
    {
        proof {
            use_type_invariant(self);
        }
        if self.ready {
            PollState::Ready
        } else if self.polls >= self.budget {
            PollState::Exhausted
        } else {
            PollState::Waiting
        }
    }

    /// Takes in the status that the latest read returned.
    pub fn observe(&mut self, status: u8)
        ensures
            final(self)@ == old(self)@.observe(status),
            final(self)@.inv(),
    {
        proof {
            use_type_invariant(&*self);
        }
        if !self.ready && self.polls < self.budget {
            *self = Poll {
                mask: self.mask,
                budget: self.budget,
                polls: self.polls + 1,
                ready: status & self.mask != 0,
                seen: Ghost(self.seen@.push(status)),
            };
        }
    }
}

/// Whatever status is taken in, a sound poll stays sound. While it waits it
/// records the status; once it is ready or exhausted it records nothing more.
pub proof fn poll_stays_sound(m: PollModel, status: u8)
    requires
        m.inv(),
    ensures
        m.observe(status).inv(),
        m.state() is Waiting ==> m.observe(status).seen == m.seen.push(status),
        !(m.state() is Waiting) ==> m.observe(status) == m,
{
}

/// A poll is ready as soon as a status has the flag set: that status is the
/// latest one, and no earlier one had the flag.
pub proof fn poll_ready_at_first_hit(m: PollModel)
    requires
        m.inv(),
        m.state() is Ready,
    ensures
        1 <= m.seen.len() <= m.budget,
        m.hit(m.seen.last()),
        forall|i: int| 0 <= i < m.seen.len() - 1 ==> !m.hit(#[trigger] m.seen[i]),
{
}

/// A poll is exhausted only after exactly `budget` statuses, none of which
/// had the flag set.
pub proof fn poll_exhausted_after_budget(m: PollModel)
    requires
        m.inv(),
        m.state() is Exhausted,
    ensures
        m.seen.len() == m.budget,
        forall|i: int| 0 <= i < m.seen.len() ==> !m.hit(#[trigger] m.seen[i]),
{
}

} // verus!
