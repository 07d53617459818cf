//! The poll protocol as a transition system, and what holds of every run.
//!
//! The contracts of the executable functions say what one operation does to
//! the object it works on. What several handles do to one core, each from
//! its own thread, is a matter of how those operations interleave. This
//! module describes the interleavings and proves what holds of all of them.
//!
//! A `World` is one core together with the calls of `poll` that are under
//! way. A call advances by one operation on a shared object at a time:
//! loading the flag, reading the state, trying the drive slot, polling the
//! computation, storing the outcome, setting the flag, signalling, releasing
//! the slot, registering. Between any two operations of one call, any other
//! call may advance. An `Event` names the handle that advances; a run is a
//! sequence of events applied to the initial world.
//!
//! What an operation does to the state is given by the functions of
//! `StateView` that the contracts of `State` are written in: reading is
//! `cached`, storing is `transition` with `waiters` and `answer`, registering
//! is `register` with `answer`. What an answer of the computation amounts to
//! is given by `completion`, as in the contract of `conclude`. What the locks
//! and the flag do is assumed as the standard library documents it: one
//! holder of the drive slot at a time, the state read and written as a whole,
//! the flag read and written as a whole.
//!
//! The stages follow `Shared::poll` operation by operation. That the
//! executable code goes through them in this order is read off its text; the
//! verifier does not see into the locks, so it cannot hold the code to the
//! run as a whole.

use crate::future::Async;
use crate::future::Poll;
use crate::shared::completion;
use crate::state::StateView;
use crate::task::Task;
use vstd::prelude::*;

verus! {

/// Where a call of `poll` stands: the operation it performs next.
pub enum Stage<T, E> {
    /// No call is under way.
    Idle,
    /// Next: load the flag.
    Entered,
    /// The flag was set. Next: read the state.
    Reading,
    /// Next: try to take the drive slot.
    Contending,
    /// Holds the slot. Next: load the flag again.
    Rechecking,
    /// Holds the slot; the flag was set. Next: read the state.
    Rereading,
    /// Holds the slot. Next: poll the computation.
    Driving,
    /// Holds the slot, now empty; the computation reported this outcome.
    /// Next: store it in the state.
    Storing(Result<T, E>),
    /// Holds the slot; has the answer and the tasks that had registered.
    /// Next: set the flag.
    Publishing(Poll<T, E>, Seq<Task>),
    /// Holds the slot. Next: signal the tasks.
    Waking(Poll<T, E>, Seq<Task>),
    /// Holds the slot. Next: release it, then return the answer if there is
    /// one, else go on to register.
    Releasing(Option<Poll<T, E>>),
    /// Next: register the caller's task in the state, or find the outcome
    /// there.
    Registering,
}

/// What a call of `poll` returned, and to which handle.
pub struct Answer<T, E> {
    pub handle: nat,
    pub poll: Poll<T, E>,
}

/// One core and the calls under way on its handles.
pub struct World<T, E> {
    /// Whether the drive slot holds the computation.
    pub pending: bool,
    /// The handle whose call holds the drive slot.
    pub holder: Option<nat>,
    /// The flag.
    pub ready: bool,
    /// The state.
    pub state: StateView<T, E>,
    /// Where each handle's call stands; a handle without an entry is idle.
    pub stages: Map<nat, Stage<T, E>>,
    /// The task that each handle's current call was made with.
    pub tasks: Map<nat, Task>,
    /// How often the computation has been polled.
    pub polls: nat,
    /// Once the computation has finished: the number of the poll at which it
    /// did, and the outcome it reported.
    pub reported: Option<(nat, Result<T, E>)>,
    /// The tasks that were appended to the state, in order.
    pub registered: Seq<Task>,
    /// The tasks that were signalled, in order.
    pub signalled: Seq<Task>,
    /// The answers returned so far, in order.
    pub answers: Seq<Answer<T, E>>,
}

/// One step of a run: `handle` advances. If its call is at rest, a new call
/// begins with `task`. If its call polls the computation, the computation
/// answers `polled`.
pub struct Event<T, E> {
    pub handle: nat,
    pub task: Task,
    pub polled: Poll<T, E>,
}

impl<T, E> Stage<T, E> {
    /// Whether a call at this stage holds the drive slot.
    pub open spec fn holds_slot(self) -> bool {
        self is Rechecking || self is Rereading || self is Driving || self is Storing
            || self is Publishing || self is Waking || self is Releasing
    }

    /// A bound on the operations that a call at this stage has yet to
    /// perform before it returns.
    pub open spec fn operations_left(self) -> nat {
        match self {
            Stage::Idle => 0,
            Stage::Registering => 1,
            Stage::Releasing(_) => 2,
            Stage::Waking(_, _) => 3,
            Stage::Publishing(_, _) => 4,
            Stage::Storing(_) => 5,
            Stage::Driving => 6,
            Stage::Rereading => 7,
            Stage::Rechecking => 8,
            Stage::Contending => 9,
            Stage::Reading => 10,
            Stage::Entered => 11,
        }
    }
}

impl<T, E> World<T, E> {
    /// A fresh core, with what `Shared::new` says a core starts with: the
    /// computation in its slot, the flag clear, the state waiting with nobody
    /// registered. Nobody is polling.
    pub open spec fn init() -> Self {
        World {
            pending: true,
            holder: None,
            ready: false,
            state: StateView::Waiting(Seq::empty()),
            stages: Map::empty(),
            tasks: Map::empty(),
            polls: 0,
            reported: None,
            registered: Seq::empty(),
            signalled: Seq::empty(),
            answers: Seq::empty(),
        }
    }

    /// Where the call of `handle` stands.
    pub open spec fn stage(self, handle: nat) -> Stage<T, E> {
        if self.stages.dom().contains(handle) {
            self.stages[handle]
        } else {
            Stage::Idle
        }
    }

    /// The world with the call of `handle` moved to `stage`.
    pub open spec fn at(self, handle: nat, stage: Stage<T, E>) -> Self {
        World { stages: self.stages.insert(handle, stage), ..self }
    }

    /// The world after the call of `handle` has returned `poll`.
    pub open spec fn returned(self, handle: nat, poll: Poll<T, E>) -> Self {
        World {
            stages: self.stages.insert(handle, Stage::Idle),
            answers: self.answers.push(Answer { handle, poll }),
            ..self
        }
    }

    /// The world after `event`.
    pub open spec fn step(self, event: Event<T, E>) -> Self {
        let handle = event.handle;
        match self.stage(handle) {
            Stage::Idle => World {
                tasks: self.tasks.insert(handle, event.task),
                ..self.at(handle, Stage::Entered)
            },
            Stage::Entered => if self.ready {
                self.at(handle, Stage::Reading)
            } else {
                self.at(handle, Stage::Contending)
            },
            Stage::Reading => match self.state.cached() {
                Some(answer) => self.returned(handle, answer),
                None => self.at(handle, Stage::Contending),
            },
            Stage::Contending => if self.holder is None {
                World { holder: Some(handle), ..self.at(handle, Stage::Rechecking) }
            } else {
                self.at(handle, Stage::Registering)
            },
            Stage::Rechecking => if self.ready {
                self.at(handle, Stage::Rereading)
            } else {
                self.at(handle, Stage::Driving)
            },
            Stage::Rereading => match self.state.cached() {
                Some(answer) => self.at(handle, Stage::Releasing(Some(answer))),
                None => self.at(handle, Stage::Driving),
            },
            Stage::Driving => if !self.pending {
                self.at(handle, Stage::Releasing(None))
            } else {
                match completion(event.polled) {
                    Some(outcome) => World {
                        pending: false,
                        polls: self.polls + 1,
                        reported: Some((self.polls + 1, outcome)),
                        ..self.at(handle, Stage::Storing(outcome))
                    },
                    None => World {
                        polls: self.polls + 1,
                        ..self.at(handle, Stage::Releasing(None))
                    },
                }
            },
            Stage::Storing(outcome) => {
                let stored = self.state.transition(outcome);
                World {
                    state: stored,
                    ..self.at(
                        handle,
                        Stage::Publishing(stored.answer(), self.state.waiters()),
                    )
                }
            },
            Stage::Publishing(answer, waiters) => World {
                ready: true,
                ..self.at(handle, Stage::Waking(answer, waiters))
            },
            Stage::Waking(answer, waiters) => World {
                signalled: self.signalled + waiters,
                ..self.at(handle, Stage::Releasing(Some(answer)))
            },
            Stage::Releasing(next) => match next {
                Some(answer) => World { holder: None, ..self.returned(handle, answer) },
                None => World { holder: None, ..self.at(handle, Stage::Registering) },
            },
            Stage::Registering => World {
                state: self.state.register(self.tasks[handle]),
                registered: if self.state is Waiting {
                    self.registered.push(self.tasks[handle])
                } else {
                    self.registered
                },
                ..self.returned(handle, self.state.answer())
            },
        }
    }

    /// The world after `events`, one after the other.
    pub open spec fn run(self, events: Seq<Event<T, E>>) -> Self
        decreases events.len(),
    {
        if events.len() == 0 {
            self
        } else {
            self.run(events.drop_last()).step(events.last())
        }
    }

    /// Where the call that holds the drive slot stands; idle if nobody
    /// holds it.
    pub open spec fn holder_stage(self) -> Stage<T, E> {
        match self.holder {
            Some(holder) => self.stage(holder),
            None => Stage::Idle,
        }
    }

    /// Whether some call has stored the outcome and is still to signal the
    /// registered tasks.
    pub open spec fn signalling(self) -> bool {
        self.holder_stage() is Publishing || self.holder_stage() is Waking
    }

    /// What holds of the core in every world that a run reaches.
    pub open spec fn core_inv(self) -> bool {
        &&& self.ready ==> self.state is Done
        &&& self.state is Done ==> !self.pending
        &&& self.pending <==> self.reported is None
        &&& self.reported matches Some(report) ==> self.polls == report.0
        &&& self.state matches StateView::Done(outcome) ==> self.reported == Some(
            (self.polls, outcome),
        )
        &&& !self.pending && self.state is Waiting ==> self.holder_stage() is Storing
        &&& self.state is Done && !self.ready ==> self.holder_stage() is Publishing
        &&& self.state matches StateView::Waiting(waiters) ==> waiters == self.registered
            && self.signalled.len() == 0
        &&& self.state is Done && !self.signalling() ==> self.signalled == self.registered
    }

    /// What holds of a call at `stage` in every world that a run reaches.
    pub open spec fn stage_inv(self, stage: Stage<T, E>) -> bool {
        match stage {
            Stage::Reading | Stage::Rereading => self.ready,
            Stage::Driving => self.pending,
            Stage::Storing(outcome) => self.state is Waiting && self.reported == Some(
                (self.polls, outcome),
            ),
            Stage::Publishing(answer, waiters) => !self.ready && self.state.cached() == Some(
                answer,
            ) && waiters == self.registered && self.signalled.len() == 0,
            Stage::Waking(answer, waiters) => self.state.cached() == Some(answer) && waiters
                == self.registered && self.signalled.len() == 0,
            Stage::Releasing(Some(answer)) => self.state.cached() == Some(answer),
            _ => true,
        }
    }

    /// What holds of every world that a run reaches.
    pub open spec fn inv(self) -> bool {
        &&& self.core_inv()
        &&& forall|handle: nat| #[trigger]
            self.stage(handle).holds_slot() <==> self.holder == Some(handle)
        &&& forall|handle: nat| self.stage_inv(#[trigger] self.stage(handle))
        &&& forall|i: int|
            0 <= i < self.answers.len() ==> (#[trigger] self.answers[i]).poll == Ok::<
                Async<T>,
                E,
            >(Async::NotReady) || self.state.cached() == Some(self.answers[i].poll)
    }
}

/// A step keeps what holds of every reachable world.
pub proof fn lemma_step_keeps_inv<T, E>(world: World<T, E>, event: Event<T, E>)
    requires
        world.inv(),
    ensures
        world.step(event).inv(),
{
    let next = world.step(event);
    let handle = event.handle;
    assert(world.stage_inv(world.stage(handle)));
    assert(world.stage(handle).holds_slot() <==> world.holder == Some(handle));
    assert forall|other: nat| other != handle implies #[trigger] next.stage(other) == world.stage(
        other,
    ) by {}
    assert(forall|other: nat| #[trigger]
        next.stage(other).holds_slot() <==> next.holder == Some(other));
    assert forall|other: nat| next.stage_inv(#[trigger] next.stage(other)) by {
        assert(world.stage_inv(world.stage(other)));
        assert(world.stage(other).holds_slot() <==> world.holder == Some(other));
    }
    assert forall|i: int| 0 <= i < next.answers.len() implies (#[trigger] next.answers[i]).poll
        == Ok::<Async<T>, E>(Async::NotReady) || next.state.cached() == Some(
        next.answers[i].poll,
    ) by {
        if i < world.answers.len() {
            assert(next.answers[i] == world.answers[i]);
        }
    }
    assert(next.core_inv());
}

/// Every world that a run reaches from the fresh core has what `inv` says.
pub proof fn lemma_run_keeps_inv<T, E>(world: World<T, E>, events: Seq<Event<T, E>>)
    requires
        world.inv(),
    ensures
        world.run(events).inv(),
    decreases events.len(),
{
    if events.len() > 0 {
        lemma_run_keeps_inv(world, events.drop_last());
        lemma_step_keeps_inv(world.run(events.drop_last()), events.last());
    }
}

/// A run of two parts is the run of the second part from where the first one
/// ends.
pub proof fn lemma_run_in_parts<T, E>(
    world: World<T, E>,
    before: Seq<Event<T, E>>,
    after: Seq<Event<T, E>>,
)
    ensures
        world.run(before + after) == world.run(before).run(after),
    decreases after.len(),
{
    if after.len() == 0 {
        assert(before + after =~= before);
    } else {
        assert((before + after).drop_last() =~= before + after.drop_last());
        lemma_run_in_parts(world, before, after.drop_last());
    }
}

/// Once the state is done it stays as it is, and every call that returns from
/// then on returns the outcome.
pub proof fn lemma_done_for_good<T, E>(world: World<T, E>, events: Seq<Event<T, E>>, i: int)
    requires
        world.inv(),
        world.state is Done,
    ensures
        world.run(events).inv(),
        world.run(events).state == world.state,
        world.run(events).registered == world.registered,
        world.answers.len() <= world.run(events).answers.len(),
        0 <= i < world.answers.len() ==> world.run(events).answers[i] == world.answers[i],
        world.answers.len() <= i < world.run(events).answers.len() ==> Some(
            world.run(events).answers[i].poll,
        ) == world.state.cached(),
    decreases events.len(),
{
    if events.len() > 0 {
        let earlier = world.run(events.drop_last());
        lemma_done_for_good(world, events.drop_last(), i);
        lemma_step_keeps_inv(earlier, events.last());
        let handle = events.last().handle;
        assert(earlier.stage_inv(earlier.stage(handle)));
    }
}

/// Single drive. In every world that a run reaches, at most one call holds
/// the drive slot, only that call polls the computation, and once the
/// computation has finished no call polls it again: the number of polls
/// stays the number at which it finished. Until then the computation stays
/// in its slot. A call that finds the slot taken goes on to register, and
/// a call that has polled the computation does not come back to poll it.
pub proof fn law_single_drive<T, E>(
    events: Seq<Event<T, E>>,
    event: Event<T, E>,
    first: nat,
    second: nat,
)
    ensures
        ({
            let world = World::<T, E>::init().run(events);
            let next = world.step(event);
            &&& world.stage(first).holds_slot() && world.stage(second).holds_slot() ==> first
                == second
            &&& next.polls != world.polls ==> world.holder == Some(event.handle) && next.polls
                == world.polls + 1
            &&& world.reported matches Some(report) ==> world.polls == report.0 && next.polls
                == world.polls && next.reported == world.reported
            &&& world.reported is None <==> world.pending
            &&& world.stage(event.handle) is Contending && world.holder is Some ==> next.stage(
                event.handle,
            ) is Registering && next.polls == world.polls
            &&& next.polls != world.polls ==> world.stage(event.handle) is Driving && next.stage(
                event.handle,
            ).operations_left() < (Stage::<T, E>::Driving).operations_left()
        }),
{
    let world = World::<T, E>::init().run(events);
    lemma_run_keeps_inv(World::<T, E>::init(), events);
    assert(world.stage(first).holds_slot() <==> world.holder == Some(first));
    assert(world.stage(second).holds_slot() <==> world.holder == Some(second));
    assert(world.stage(event.handle).holds_slot() <==> world.holder == Some(event.handle));
    assert(world.stage_inv(world.stage(event.handle)));
}

/// Convergence. An answer other than "not ready" is the outcome that the
/// state holds. Once the state holds an outcome it holds it for good, and
/// every call that returns from then on, on whatever handle and however the
/// calls interleave, returns that outcome. Answers that were given stay as
/// they were.
pub proof fn law_convergence<T, E>(
    before: Seq<Event<T, E>>,
    after: Seq<Event<T, E>>,
    i: int,
)
    ensures
        ({
            let then = World::<T, E>::init().run(before);
            let now = World::<T, E>::init().run(before + after);
            &&& then.answers.len() <= now.answers.len()
            &&& 0 <= i < then.answers.len() ==> now.answers[i] == then.answers[i]
            &&& 0 <= i < then.answers.len() && then.answers[i].poll != Ok::<Async<T>, E>(
                Async::NotReady,
            ) ==> then.state.cached() == Some(then.answers[i].poll)
            &&& then.state is Done ==> now.state == then.state
            &&& then.state is Done && then.answers.len() <= i < now.answers.len() ==> Some(
                now.answers[i].poll,
            ) == then.state.cached()
        }),
{
    let then = World::<T, E>::init().run(before);
    lemma_run_keeps_inv(World::<T, E>::init(), before);
    lemma_run_in_parts(World::<T, E>::init(), before, after);
    if then.state is Done {
        lemma_done_for_good(then, after, i);
    } else {
        lemma_answers_grow(then, after, i);
    }
}

/// A run adds answers to those given and changes none.
pub proof fn lemma_answers_grow<T, E>(world: World<T, E>, events: Seq<Event<T, E>>, i: int)
    ensures
        world.answers.len() <= world.run(events).answers.len(),
        0 <= i < world.answers.len() ==> world.run(events).answers[i] == world.answers[i],
    decreases events.len(),
{
    if events.len() > 0 {
        lemma_answers_grow(world, events.drop_last(), i);
    }
}

/// No lost wake-up. While the state is waiting it holds exactly the tasks
/// that registered, in their order, and none has been signalled. The call
/// that stores the outcome takes exactly those tasks with it, and when it
/// has signalled them, each registered task has been signalled once, in the
/// order of registration. Once the state is done nobody registers any more.
/// A call returns "not ready" only by appending its task to the waiting
/// state, as the last of the registered tasks.
pub proof fn law_no_lost_wakeup<T, E>(events: Seq<Event<T, E>>, event: Event<T, E>)
    ensures
        ({
            let world = World::<T, E>::init().run(events);
            &&& world.state matches StateView::Waiting(waiters) ==> waiters == world.registered
                && world.signalled.len() == 0
            &&& world.holder_stage() matches Stage::Publishing(_, waiters) ==> waiters
                == world.registered && world.signalled.len() == 0
            &&& world.holder_stage() matches Stage::Waking(_, waiters) ==> waiters
                == world.registered && world.signalled.len() == 0 && world.step(
                Event { handle: world.holder->0, ..event },
            ).signalled == world.registered
            &&& world.state is Done && !world.signalling() ==> world.signalled
                == world.registered
            &&& world.state is Done ==> world.step(event).registered == world.registered
            &&& world.step(event).answers.len() > world.answers.len() && world.step(
                event,
            ).answers.last().poll == Ok::<Async<T>, E>(Async::NotReady) ==> world.state is Waiting
                && world.stage(event.handle) is Registering && world.step(event).registered
                == world.registered.push(world.tasks[event.handle]) && world.step(event).state
                == StateView::<T, E>::Waiting(world.step(event).registered)
        }),
{
    let world = World::<T, E>::init().run(events);
    lemma_run_keeps_inv(World::<T, E>::init(), events);
    if world.holder is Some {
        assert(world.stage_inv(world.stage(world.holder->0)));
        if world.signalled.len() == 0 {
            assert(world.signalled + world.registered =~= world.registered);
        }
    }
    assert(world.stage_inv(world.stage(event.handle)));
}

/// Fast path. A call that finds the flag set reads the state, returns the
/// outcome, and never comes near the drive slot: it does not try to take it,
/// and the computation is not polled. It registers no task and signals
/// none, and leaves the state as it is. The flag, once set, stays set.
pub proof fn law_fast_path<T, E>(events: Seq<Event<T, E>>, event: Event<T, E>)
    ensures
        ({
            let world = World::<T, E>::init().run(events);
            let next = world.step(event);
            let handle = event.handle;
            world.ready ==> {
                &&& next.ready
                &&& world.stage(handle) is Entered ==> next.stage(handle) is Reading
                &&& world.stage(handle) is Reading ==> next.stage(handle) is Idle
                    && world.state.cached() is Some && next.answers == world.answers.push(
                    Answer { handle, poll: world.state.cached()->0 },
                )
                &&& world.stage(handle) is Idle || world.stage(handle) is Entered
                    || world.stage(handle) is Reading ==> next.pending == world.pending
                    && next.holder == world.holder && next.polls == world.polls && next.state
                    == world.state && next.registered == world.registered && next.signalled
                    == world.signalled
            }
        }),
{
    let world = World::<T, E>::init().run(events);
    lemma_run_keeps_inv(World::<T, E>::init(), events);
    assert(world.stage_inv(world.stage(event.handle)));
}

/// The states that must never arise do not arise. In every world that a run
/// reaches, a call that saw the flag set finds the outcome in the state, a
/// call that is about to poll finds the computation in its slot, and a call
/// that is about to store an outcome finds the state waiting.
pub proof fn law_no_broken_state<T, E>(events: Seq<Event<T, E>>, handle: nat)
    ensures
        ({
            let world = World::<T, E>::init().run(events);
            &&& world.ready ==> world.state is Done && !world.pending
            &&& world.stage(handle) is Reading || world.stage(handle) is Rereading
                ==> world.state is Done
            &&& world.stage(handle) is Driving ==> world.pending
            &&& world.stage(handle) is Storing ==> world.state is Waiting
        }),
{
    let world = World::<T, E>::init().run(events);
    lemma_run_keeps_inv(World::<T, E>::init(), events);
    assert(world.stage_inv(world.stage(handle)));
}

/// A computation that never finishes. If the computation answers "not
/// ready" whenever it is polled, then in every world that a run reaches the
/// computation is in its slot, the flag is clear, the state is waiting, and
/// every call that has returned has returned "not ready".
pub proof fn law_never_finishing<T, E>(events: Seq<Event<T, E>>, i: int)
    requires
        forall|k: int| 0 <= k < events.len() ==> completion((#[trigger] events[k]).polled) is None,
    ensures
        ({
            let world = World::<T, E>::init().run(events);
            &&& world.pending
            &&& !world.ready
            &&& world.state is Waiting
            &&& 0 <= i < world.answers.len() ==> world.answers[i].poll == Ok::<Async<T>, E>(
                Async::NotReady,
            )
        }),
    decreases events.len(),
{
    lemma_run_keeps_inv(World::<T, E>::init(), events);
    if events.len() > 0 {
        let before = events.drop_last();
        assert forall|k: int| 0 <= k < before.len() implies completion(
            (#[trigger] before[k]).polled,
        ) is None by {
            assert(before[k] == events[k]);
        }
        law_never_finishing(before, i);
        lemma_run_keeps_inv(World::<T, E>::init(), before);
        let earlier = World::<T, E>::init().run(before);
        assert(earlier.stage_inv(earlier.stage(events.last().handle)));
        assert(completion(events[events.len() - 1].polled) is None);
    }
}

/// No waiting, no retrying. Every operation of a call brings it closer to
/// its return, whatever the other calls do in between: a call performs at
/// most eleven operations on the shared objects, and nothing that another
/// call does sets it back.
pub proof fn law_bounded_call<T, E>(world: World<T, E>, event: Event<T, E>, other: nat)
    ensures
        ({
            let next = world.step(event);
            &&& world.stage(event.handle) is Idle ==> next.stage(event.handle) is Entered
            &&& !(world.stage(event.handle) is Idle) ==> next.stage(
                event.handle,
            ).operations_left() < world.stage(event.handle).operations_left()
            &&& other != event.handle ==> next.stage(other) == world.stage(other)
            &&& world.stage(other).operations_left() <= 11
        }),
{
}

} // verus!
