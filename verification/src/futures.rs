//! Bookkeeping for pollers of pinned tasks: which of a fixed number of
//! slots hold a task, which slot is polled next, and what a round of polling
//! comes to.
//!
//! The tasks themselves live with the caller, who polls the slot it is told
//! to poll and reports whether the task was ready.

use vstd::prelude::*;

verus! {

/// Whether a slot holds a task.
#[derive(Clone, Copy, Debug, PartialEq, Eq, Structural)]
pub enum SlotState {
    /// No task: none was put in, or it has completed.
    Empty,
    /// A task that is being polled.
    Occupied,
}

/// Why an operation on a slot was refused.
#[derive(Clone, Copy, Debug, PartialEq, Eq, Structural)]
pub enum PollerError {
    /// The index is no slot, or no slot is empty.
    IndexOutOfBounds,
    /// The slot holds a task.
    SlotOccupied,
    /// The slot holds no task.
    SlotEmpty,
}

/// The number of occupied slots among `s`.
pub open spec fn occupied(s: Seq<SlotState>) -> nat
    decreases s.len(),
{
    if s.len() == 0 {
        0
    } else {
        occupied(s.drop_last()) + (if s.last() is Occupied {
            1nat
        } else {
            0nat
        })
    }
}

/// `i` is the lowest slot from `from` on that is in state `state`.
pub open spec fn is_first_in(s: Seq<SlotState>, state: SlotState, from: int, i: int) -> bool {
    &&& from <= i < s.len()
    &&& s[i] == state
    &&& forall|j: int| from <= j < i ==> #[trigger] s[j] != state
}

/// No slot from `from` on is in state `state`.
pub open spec fn none_in(s: Seq<SlotState>, state: SlotState, from: int) -> bool {
    forall|j: int| from <= j < s.len() ==> #[trigger] s[j] != state
}

/// Occupying an empty slot adds one to the number of occupied slots, and
/// emptying an occupied slot takes one away.
pub proof fn lemma_occupied_update(s: Seq<SlotState>, i: int, state: SlotState)
    requires
        0 <= i < s.len(),
        s[i] != state,
    ensures
        state is Occupied ==> occupied(s.update(i, state)) == occupied(s) + 1,
        state is Empty ==> occupied(s.update(i, state)) + 1 == occupied(s),
    decreases s.len(),
{
    let t = s.update(i, state);
    if i == s.len() - 1 {
        assert(t.drop_last() =~= s.drop_last());
    } else {
        assert(t.drop_last() =~= s.drop_last().update(i, state));
        lemma_occupied_update(s.drop_last(), i, state);
    }
}

/// No slot is occupied exactly when the number of occupied slots is zero.
pub proof fn lemma_occupied_zero(s: Seq<SlotState>)
    ensures
        occupied(s) == 0 <==> none_in(s, SlotState::Occupied, 0),
        occupied(s) <= s.len(),
    decreases s.len(),
{
    if s.len() > 0 {
        lemma_occupied_zero(s.drop_last());
        if none_in(s, SlotState::Occupied, 0) {
            assert forall|j: int| 0 <= j < s.drop_last().len() implies #[trigger] s.drop_last()[j]
                != SlotState::Occupied by {
                assert(s[j] != SlotState::Occupied);
            }
        }
        if occupied(s) == 0 {
            assert forall|j: int| 0 <= j < s.len() implies #[trigger] s[j] != SlotState::Occupied by {
                if j < s.len() - 1 {
                    assert(s.drop_last()[j] != SlotState::Occupied);
                }
            }
        }
    }
}

/// Where a round of polling stands.
#[derive(Clone, Copy, Debug, PartialEq, Eq, Structural)]
pub struct PollRound {
    /// The slot to look at next.
    pub next: usize,
    /// The slot that is being polled, if one is.
    pub polling: Option<usize>,
    /// How many occupied slots the round has met.
    pub occupied_count: usize,
    /// Whether a task of this round was not ready.
    pub pending_found: bool,
}

/// What a round of polling does next, or comes to.
#[derive(Clone, Copy, Debug, PartialEq, Eq, Structural)]
pub enum PollNext {
    /// Poll the task in this slot and report whether it was ready.
    PollSlot(usize),
    /// The task in this slot has completed; its slot is empty now.
    Ready(usize),
    /// No slot holds a task.
    ReadyNone,
    /// No task was ready.
    Pending,
}

/// A poller of up to `N` tasks of one type.
pub struct StaticUnpinPoller<const N: usize> {
    states: [SlotState; N],
}

impl<const N: usize> StaticUnpinPoller<N> {
    /// The states of the slots.
    pub closed spec fn view(&self) -> Seq<SlotState> {
        self.states@
    }

    /// There are `N` slots.
    pub proof fn lemma_len(&self)
        ensures
            self@.len() == N,
    {
    }

    /// An empty poller.
    pub fn new() -> (p: Self)
        ensures
            p@.len() == N,
            forall|i: int| 0 <= i < N ==> p@[i] is Empty,
    {
        StaticUnpinPoller { states: [SlotState::Empty; N] }
    }

    /// The state of the slot at `index`.
    pub fn slot(&self, index: usize) -> (s: SlotState)
        requires
            index < N,
        ensures
            s == self@[index as int],
    {
        self.states[index]
    }

    /// Takes the lowest empty slot for a new task and says which it is.
    /// Without an empty slot the task is turned down.
    pub fn insert(&mut self) -> (r: Result<usize, PollerError>)
        ensures
            match r {
                Ok(i) => is_first_in(old(self)@, SlotState::Empty, 0, i as int) && final(self)@ == old(self)@.update(i as int, SlotState::Occupied) && occupied(final(self)@) == occupied(
                    old(self)@,
                ) + 1,
                Err(e) => e == PollerError::IndexOutOfBounds && none_in(old(self)@, SlotState::Empty, 0)
                    && final(self)@ == old(self)@,
            },
    {
        let mut i: usize = 0;
        while i < N
            invariant
                i <= N,
                self.states@ == old(self).states@,
                forall|j: int| 0 <= j < i ==> #[trigger] self.states@[j] != SlotState::Empty,
            decreases N - i,
        {
            if self.states[i] == SlotState::Empty {
                proof {
                    lemma_occupied_update(self.states@, i as int, SlotState::Occupied);
                }
                self.states[i] = SlotState::Occupied;
                return Ok(i);
            }
            i += 1;
        }
        Err(PollerError::IndexOutOfBounds)
    }

    /// Takes the slot at `index` for a new task, after the task that was
    /// there has completed.
    pub fn replace(&mut self, index: usize) -> (r: Result<(), PollerError>)
        ensures
            r == (if index >= N {
                Err::<(), PollerError>(PollerError::IndexOutOfBounds)
            } else if old(self)@[index as int] is Occupied {
                Err(PollerError::SlotOccupied)
            } else {
                Ok(())
            }),
            final(self)@ == (if r is Ok {
                old(self)@.update(index as int, SlotState::Occupied)
            } else {
                old(self)@
            }),
    {
        if index >= N {
            return Err(PollerError::IndexOutOfBounds);
        }
        if self.states[index] != SlotState::Empty {
            return Err(PollerError::SlotOccupied);
        }
        self.states[index] = SlotState::Occupied;
        Ok(())
    }

    /// One step of a round of polling. `ready` says whether the task that
    /// was polled last was ready; a round starts with `None`.
    ///
    /// The slots are polled in rising order, the occupied ones only. The
    /// first task that is ready ends the round: its slot becomes empty and
    /// is reported. A round that meets no occupied slot reports that there
    /// is nothing to poll; any other round is pending.
    pub fn poll_next(&mut self, round: &mut PollRound, ready: Option<bool>) -> (r: PollNext)
        requires
            old(round).next <= N,
            old(round).polling matches Some(i) ==> i < N && old(self)@[i as int] is Occupied,
            ready is Some ==> old(round).polling is Some,
            old(round).occupied_count <= old(round).next,
        ensures
            final(round).next <= N,
            final(round).occupied_count <= final(round).next,
            (ready == Some(true)) ==> r == PollNext::Ready(old(round).polling->Some_0) && final(self)@
                == old(self)@.update(old(round).polling->Some_0 as int, SlotState::Empty)
                && final(round).polling is None,
            (ready != Some(true)) ==> final(self)@ == old(self)@ && {
                let pending = old(round).pending_found || ready is Some;
                match r {
                    PollNext::PollSlot(i) => is_first_in(
                        old(self)@,
                        SlotState::Occupied,
                        old(round).next as int,
                        i as int,
                    ) && *final(round) == (PollRound {
                        next: (i + 1) as usize,
                        polling: Some(i),
                        occupied_count: (old(round).occupied_count + 1) as usize,
                        pending_found: pending,
                    }),
                    PollNext::ReadyNone => none_in(old(self)@, SlotState::Occupied, old(round).next as int)
                        && old(round).occupied_count == 0,
                    PollNext::Pending => none_in(old(self)@, SlotState::Occupied, old(round).next as int)
                        && old(round).occupied_count > 0,
                    PollNext::Ready(_) => false,
                }
            },
    {
        match ready {
            Some(true) => {
                let done = round.polling.unwrap();
                self.states[done] = SlotState::Empty;
                round.polling = None;
                return PollNext::Ready(done);
            },
            Some(false) => {
                round.pending_found = true;
            },
            None => {},
        }
        let mut i: usize = round.next;
        while i < N
            invariant
                old(round).next <= i <= N,
                ready != Some(true),
                self.states@ == old(self).states@,
                round.occupied_count == old(round).occupied_count,
                round.occupied_count <= old(round).next,
                round.pending_found == (old(round).pending_found || ready is Some),
                forall|j: int| old(round).next <= j < i ==> #[trigger] self.states@[j] != SlotState::Occupied,
            decreases N - i,
        {
            if self.states[i] == SlotState::Occupied {
                round.occupied_count = round.occupied_count + 1;
                round.next = i + 1;
                round.polling = Some(i);
                return PollNext::PollSlot(i);
            }
            i += 1;
        }
        round.next = N;
        round.polling = None;
        if round.occupied_count == 0 {
            PollNext::ReadyNone
        } else {
            PollNext::Pending
        }
    }

    /// The number of slots that hold a task.
    pub fn len(&self) -> (n: usize)
        ensures
            n == occupied(self@),
    {
        let mut n: usize = 0;
        let mut i: usize = 0;
        assert(self.states@.take(0) =~= Seq::empty());
        while i < N
            invariant
                i <= N,
                n <= i,
                n == occupied(self.states@.take(i as int)),
            decreases N - i,
        {
            proof {
                assert(self.states@.take(i + 1).drop_last() =~= self.states@.take(i as int));
            }
            if self.states[i] == SlotState::Occupied {
                n += 1;
            }
            i += 1;
        }
        assert(self.states@.take(N as int) =~= self.states@);
        n
    }

    /// Whether no slot holds a task.
    pub fn is_empty(&self) -> (r: bool)
        ensures
            r == none_in(self@, SlotState::Occupied, 0),
            r == (occupied(self@) == 0),
    {
        proof {
            lemma_occupied_zero(self@);
        }
        let mut i: usize = 0;
        while i < N
            invariant
                i <= N,
                forall|j: int| 0 <= j < i ==> #[trigger] self.states@[j] != SlotState::Occupied,
            decreases N - i,
        {
            if self.states[i] != SlotState::Empty {
                proof {
                    lemma_occupied_zero(self@);
                    assert(self@[i as int] == SlotState::Occupied);
                }
                return false;
            }
            i += 1;
        }
        true
    }
}

/// Which of the two tasks of a [`SelectPin2`] is meant.
#[derive(Clone, Copy, Debug, PartialEq, Eq, Structural)]
pub enum Either2 {
    First,
    Second,
}

/// What a selector of two tasks does next, or comes to.
#[derive(Clone, Copy, Debug, PartialEq, Eq, Structural)]
pub enum SelectNext {
    /// Poll the one named and report whether it was ready.
    Poll(Either2),
    /// The one named has completed; its slot is empty now.
    Ready(Either2),
    /// Neither task was ready.
    Pending,
}

/// A selector between two tasks of different types: the first is polled
/// before the second, and the first that is ready wins.
#[derive(Clone, Copy, Debug, PartialEq, Eq, Structural)]
pub struct SelectPin2 {
    pub first: SlotState,
    pub second: SlotState,
}

impl SelectPin2 {
    /// A selector without tasks.
    pub fn new() -> (s: SelectPin2)
        ensures
            s.first is Empty,
            s.second is Empty,
    {
        SelectPin2 { first: SlotState::Empty, second: SlotState::Empty }
    }

    /// A selector that holds both tasks.
    pub fn with_futures() -> (s: SelectPin2)
        ensures
            s.first is Occupied,
            s.second is Occupied,
    {
        SelectPin2 { first: SlotState::Occupied, second: SlotState::Occupied }
    }

    /// Takes the first slot for a task, if it is empty.
    pub fn insert_fut1(&mut self) -> (r: Result<(), PollerError>)
        ensures
            r == (if old(self).first is Empty {
                Ok::<(), PollerError>(())
            } else {
                Err(PollerError::SlotOccupied)
            }),
            final(self).first is Occupied,
            final(self).second == old(self).second,
    {
        if self.first != SlotState::Empty {
            return Err(PollerError::SlotOccupied);
        }
        self.first = SlotState::Occupied;
        Ok(())
    }

    /// Takes the second slot for a task, if it is empty.
    pub fn insert_fut2(&mut self) -> (r: Result<(), PollerError>)
        ensures
            r == (if old(self).second is Empty {
                Ok::<(), PollerError>(())
            } else {
                Err(PollerError::SlotOccupied)
            }),
            final(self).second is Occupied,
            final(self).first == old(self).first,
    {
        if self.second != SlotState::Empty {
            return Err(PollerError::SlotOccupied);
        }
        self.second = SlotState::Occupied;
        Ok(())
    }

    /// What the selector does after `polled`, the task polled last, was
    /// ready or not; a round starts with `None`.
    pub open spec fn after(self, polled: Option<(Either2, bool)>) -> (SelectPin2, SelectNext) {
        match polled {
            Some((Either2::First, true)) => (
                SelectPin2 { first: SlotState::Empty, ..self },
                SelectNext::Ready(Either2::First),
            ),
            Some((Either2::Second, true)) => (
                SelectPin2 { second: SlotState::Empty, ..self },
                SelectNext::Ready(Either2::Second),
            ),
            Some((Either2::Second, false)) => (self, SelectNext::Pending),
            Some((Either2::First, false)) => if self.second is Occupied {
                (self, SelectNext::Poll(Either2::Second))
            } else {
                (self, SelectNext::Pending)
            },
            None => if self.first is Occupied {
                (self, SelectNext::Poll(Either2::First))
            } else if self.second is Occupied {
                (self, SelectNext::Poll(Either2::Second))
            } else {
                (self, SelectNext::Pending)
            },
        }
    }

    /// One step of a round of polling.
    pub fn poll(&mut self, polled: Option<(Either2, bool)>) -> (r: SelectNext)
        ensures
            (*final(self), r) == old(self).after(polled),
    {
        match polled {
            Some((Either2::First, true)) => {
                self.first = SlotState::Empty;
                SelectNext::Ready(Either2::First)
            },
            Some((Either2::Second, true)) => {
                self.second = SlotState::Empty;
                SelectNext::Ready(Either2::Second)
            },
            Some((Either2::Second, false)) => SelectNext::Pending,
            Some((Either2::First, false)) => {
                if self.second == SlotState::Occupied {
                    SelectNext::Poll(Either2::Second)
                } else {
                    SelectNext::Pending
                }
            },
            None => {
                if self.first == SlotState::Occupied {
                    SelectNext::Poll(Either2::First)
                } else if self.second == SlotState::Occupied {
                    SelectNext::Poll(Either2::Second)
                } else {
                    SelectNext::Pending
                }
            },
        }
    }
}

} // verus!
