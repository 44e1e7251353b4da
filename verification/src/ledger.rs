//! What a whole dialogue does to the world around it.
//!
//! The machine sees the operating system only through the outcomes it is
//! told. This module keeps the books over a run of such outcomes: which
//! descriptors are open in the process and which names stand in the
//! shared-memory namespace. It then proves, for every run that the machine
//! can take, how the books at the end differ from the books at the start:
//! by the returned descriptor, and by nothing else.
//!
//! The books follow the dialogue's own calls only. What other processes do
//! to the namespace while a run lasts is not in them.

use vstd::prelude::*;
use crate::abi::Abi;
use crate::machine::Event;
use crate::model::{
    advance, answers, first_name, initial, pending, retry_name, ActionView, PhaseView,
    NO_DESCRIPTOR,
};
use crate::name::{
    decimal4, is_candidate, lemma_candidate_shape, lemma_decimal4_exact, placeholder_suffix,
};
use crate::platform::Strategy;

verus! {

/// The part of the world that the dialogue can touch.
pub ghost struct World {
    /// The descriptors that are open in the process.
    pub open: Set<i32>,
    /// The names that stand in the shared-memory namespace.
    pub names: Set<Seq<u8>>,
}

/// The world after `action` ended in `event`. A call that opens and does not
/// fail adds the descriptor it returned; a creation that does not fail adds
/// its name as well; an unlinking that does not fail takes its name away; a
/// close takes its descriptor away. Nothing else changes anything.
pub open spec fn effect(world: World, action: ActionView, event: Event) -> World {
    match (action, event) {
        (ActionView::MemfdCreate { .. }, Event::Opened { fd, .. })
        | (ActionView::ShmOpenAnonymous { .. }, Event::Opened { fd, .. }) => {
            if fd != NO_DESCRIPTOR {
                World { open: world.open.insert(fd), names: world.names }
            } else {
                world
            }
        },
        (ActionView::ShmOpen { name, .. }, Event::Opened { fd, .. }) => {
            if fd != NO_DESCRIPTOR {
                World { open: world.open.insert(fd), names: world.names.insert(name) }
            } else {
                world
            }
        },
        (ActionView::ShmUnlink { name }, Event::Unlinked { status }) => {
            if status != -1 {
                World { open: world.open, names: world.names.remove(name) }
            } else {
                world
            }
        },
        (ActionView::Close { fd }, Event::Closed) => World {
            open: world.open.remove(fd),
            names: world.names,
        },
        _ => world,
    }
}

/// Whether an operating system can end `action` in `event` when the world
/// is `world`: a descriptor that a call opens was not open before, and an
/// exclusive creation yields a descriptor only for a name that did not
/// exist.
pub open spec fn possible(world: World, action: ActionView, event: Event) -> bool {
    match (action, event) {
        (ActionView::MemfdCreate { .. }, Event::Opened { fd, .. })
        | (ActionView::ShmOpenAnonymous { .. }, Event::Opened { fd, .. }) => {
            fd != NO_DESCRIPTOR ==> !world.open.contains(fd)
        },
        (ActionView::ShmOpen { name, .. }, Event::Opened { fd, .. }) => {
            fd != NO_DESCRIPTOR ==> !world.open.contains(fd) && !world.names.contains(name)
        },
        _ => true,
    }
}

/// Where a run stands.
pub ghost struct Run {
    /// The machine's phase.
    pub phase: PhaseView,
    /// The world as the events so far have left it.
    pub world: World,
    /// Whether every event so far was possible in the world it came from.
    pub possible: bool,
}

/// The run that begins in phase `start` and world `before` and takes in
/// `events` in order, each as the outcome of the action pending when it
/// arrives.
pub open spec fn run(abi: Abi, start: PhaseView, before: World, events: Seq<Event>) -> Run
    decreases events.len(),
{
    if events.len() == 0 {
        Run { phase: start, world: before, possible: true }
    } else {
        let earlier = run(abi, start, before, events.drop_last());
        let action = pending(abi, earlier.phase);
        Run {
            phase: advance(abi, earlier.phase, events.last()),
            world: effect(earlier.world, action, events.last()),
            possible: earlier.possible && possible(earlier.world, action, events.last()),
        }
    }
}

/// Whether `event` reports that `fd` was opened.
pub open spec fn opens(event: Event, fd: i32) -> bool {
    event matches Event::Opened { fd: opened, .. } && opened == fd
}

/// Whether `event` is a successful clock reading whose nanoseconds give
/// `name`.
pub open spec fn draws(event: Event, name: Seq<u8>) -> bool {
    event matches Event::ClockRead { status, nanos } && status == 0 && name == retry_name(nanos)
}

/// Whether `event` reports that a call failed.
pub open spec fn fails(event: Event) -> bool {
    match event {
        Event::Opened { fd, .. } => fd == NO_DESCRIPTOR,
        Event::Unlinked { status } => status == -1,
        Event::ClockRead { status, .. } => status != 0,
        Event::Closed => false,
    }
}

/// Whether some event of `events` reports that `fd` was opened.
pub open spec fn was_opened(events: Seq<Event>, fd: i32) -> bool {
    exists|i: int| 0 <= i < events.len() && opens(#[trigger] events[i], fd)
}

/// Whether `name` was drawn from some successful clock reading of `events`.
pub open spec fn was_drawn(events: Seq<Event>, name: Seq<u8>) -> bool {
    exists|i: int| 0 <= i < events.len() && draws(#[trigger] events[i], name)
}

/// Whether some event of `events` reports that a call failed.
pub open spec fn some_call_failed(events: Seq<Event>) -> bool {
    exists|i: int| 0 <= i < events.len() && fails(#[trigger] events[i])
}

/// What holds of the phase after any events at all.
spec fn grounded(events: Seq<Event>, phase: PhaseView) -> bool {
    match phase {
        PhaseView::AwaitCreate { name } => {
            &&& is_candidate(name)
            &&& name == first_name() || was_drawn(events, name)
        },
        PhaseView::AwaitUnlink { name, fd } => {
            &&& is_candidate(name)
            &&& fd != NO_DESCRIPTOR
            &&& was_opened(events, fd)
        },
        PhaseView::AwaitClose { .. } => some_call_failed(events),
        PhaseView::Finished { fd } => {
            if fd != NO_DESCRIPTOR {
                was_opened(events, fd)
            } else {
                some_call_failed(events)
            }
        },
        _ => true,
    }
}

/// How the world of a run of possible events differs from the world it
/// began in.
spec fn settled(before: World, r: Run) -> bool {
    match r.phase {
        PhaseView::AwaitMemfd { .. }
        | PhaseView::AwaitAnonymous
        | PhaseView::AwaitClock
        | PhaseView::AwaitCreate { .. } => {
            &&& r.world.open == before.open
            &&& r.world.names == before.names
        },
        PhaseView::AwaitUnlink { name, fd } => {
            &&& fd != NO_DESCRIPTOR
            &&& !before.open.contains(fd)
            &&& !before.names.contains(name)
            &&& r.world.open == before.open.insert(fd)
            &&& r.world.names == before.names.insert(name)
        },
        PhaseView::AwaitClose { fd } => {
            &&& !before.open.contains(fd)
            &&& r.world.open == before.open.insert(fd)
            &&& before.names.subset_of(r.world.names)
        },
        PhaseView::Finished { fd } => {
            if fd != NO_DESCRIPTOR {
                &&& !before.open.contains(fd)
                &&& r.world.open == before.open.insert(fd)
                &&& r.world.names == before.names
            } else {
                &&& r.world.open == before.open
                &&& before.names.subset_of(r.world.names)
            }
        },
    }
}

proof fn lemma_first_name_is_candidate()
    ensures
        is_candidate(first_name()),
{
    lemma_candidate_shape(placeholder_suffix());
}

proof fn lemma_retry_name_is_candidate(nanos: i64)
    ensures
        is_candidate(retry_name(nanos)),
{
    lemma_decimal4_exact(nanos as int % 10000);
    lemma_candidate_shape(decimal4(nanos as int % 10000));
}

proof fn lemma_run_is_grounded(abi: Abi, strategy: Strategy, before: World, events: Seq<Event>)
    ensures
        grounded(events, run(abi, initial(strategy), before, events).phase),
    decreases events.len(),
{
    lemma_first_name_is_candidate();
    if events.len() > 0 {
        let earlier = events.drop_last();
        lemma_run_is_grounded(abi, strategy, before, earlier);
        if let Event::ClockRead { nanos, .. } = events.last() {
            lemma_retry_name_is_candidate(nanos);
        }
    }
}

proof fn lemma_run_is_settled(abi: Abi, strategy: Strategy, before: World, events: Seq<Event>)
    requires
        run(abi, initial(strategy), before, events).possible,
    ensures
        settled(before, run(abi, initial(strategy), before, events)),
    decreases events.len(),
{
    if events.len() > 0 {
        let earlier = run(abi, initial(strategy), before, events.drop_last());
        lemma_run_is_settled(abi, strategy, before, events.drop_last());
        match (earlier.phase, events.last()) {
            (PhaseView::AwaitUnlink { name, fd }, Event::Unlinked { status }) => {
                assert(before.names.insert(name).remove(name) =~= before.names);
            },
            (PhaseView::AwaitClose { fd }, Event::Closed) => {
                assert(before.open.insert(fd).remove(fd) =~= before.open);
            },
            _ => {},
        }
    }
}

/// The machine moves exactly when it is answered: an event that answers
/// the pending action changes the phase, any other event changes neither
/// the phase nor the world, and no event answers once the machine has
/// finished.
pub proof fn lemma_machine_moves_when_answered(
    abi: Abi,
    phase: PhaseView,
    world: World,
    event: Event,
)
    ensures
        answers(pending(abi, phase), event) <==> advance(abi, phase, event) != phase,
        !answers(pending(abi, phase), event) ==> effect(world, pending(abi, phase), event)
            == world,
        phase is Finished ==> !answers(pending(abi, phase), event),
{
}

/// One layer of recovery, and no more. Of the calls that are reported to
/// have failed, two are made good: a creation whose name exists is followed
/// by a clock reading, and an in-memory file that the kernel does not
/// implement is followed, where there is a fallback, by the creation of the
/// first name. A failed unlinking is followed by the closing of the
/// descriptor. After every other failed call the machine has finished
/// without a descriptor, so that nothing comes between that call and the
/// return.
pub proof fn lemma_failures_are_final_but_two(abi: Abi, phase: PhaseView, event: Event)
    requires
        answers(pending(abi, phase), event),
        fails(event),
    ensures
        advance(abi, phase, event) == match (phase, event) {
            (PhaseView::AwaitCreate { .. }, Event::Opened { errno, .. }) => {
                if errno == abi.eexist {
                    PhaseView::AwaitClock
                } else {
                    PhaseView::Finished { fd: NO_DESCRIPTOR }
                }
            },
            (PhaseView::AwaitMemfd { fallback }, Event::Opened { errno, .. }) => {
                if fallback && errno == abi.enosys {
                    PhaseView::AwaitCreate { name: first_name() }
                } else {
                    PhaseView::Finished { fd: NO_DESCRIPTOR }
                }
            },
            (PhaseView::AwaitUnlink { fd, .. }, _) => PhaseView::AwaitClose { fd },
            _ => PhaseView::Finished { fd: NO_DESCRIPTOR },
        },
{
}

/// Every name that the machine asks to create or to unlink has the fixed
/// shape of a candidate name: the prefix, four suffix bytes, a NUL.
pub proof fn lemma_names_are_candidates(
    abi: Abi,
    strategy: Strategy,
    before: World,
    events: Seq<Event>,
)
    ensures
        match pending(abi, run(abi, initial(strategy), before, events).phase) {
            ActionView::ShmOpen { name, .. } | ActionView::ShmUnlink { name } => is_candidate(name),
            _ => true,
        },
{
    lemma_run_is_grounded(abi, strategy, before, events);
}

/// An invocation's names owe nothing to earlier invocations: a machine
/// starts without any memory of them, and every name it asks to create is
/// the fixed first name or was drawn from a clock reading of its own run.
pub proof fn lemma_names_come_from_own_run(
    abi: Abi,
    strategy: Strategy,
    before: World,
    events: Seq<Event>,
)
    ensures
        run(abi, initial(strategy), before, events).phase matches PhaseView::AwaitCreate { name }
            ==> (name == first_name() || was_drawn(events, name)),
{
    lemma_run_is_grounded(abi, strategy, before, events);
}

/// Failure has a cause: the machine finishes without a descriptor only in
/// a run in which some call was reported to have failed.
pub proof fn lemma_failure_has_a_cause(
    abi: Abi,
    strategy: Strategy,
    before: World,
    events: Seq<Event>,
)
    ensures
        run(abi, initial(strategy), before, events).phase == (PhaseView::Finished {
            fd: NO_DESCRIPTOR,
        }) ==> some_call_failed(events),
{
    lemma_run_is_grounded(abi, strategy, before, events);
}

/// The machine touches only what is its own: a descriptor that it asks to
/// close, and a name that it asks to unlink, did not exist before the run
/// and was opened, or created, in the course of it.
pub proof fn lemma_only_own_things_are_released(
    abi: Abi,
    strategy: Strategy,
    before: World,
    events: Seq<Event>,
)
    requires
        run(abi, initial(strategy), before, events).possible,
    ensures
        match pending(abi, run(abi, initial(strategy), before, events).phase) {
            ActionView::Close { fd } => {
                &&& !before.open.contains(fd)
                &&& run(abi, initial(strategy), before, events).world.open.contains(fd)
            },
            ActionView::ShmUnlink { name } => {
                &&& !before.names.contains(name)
                &&& run(abi, initial(strategy), before, events).world.names.contains(name)
            },
            _ => true,
        },
{
    lemma_run_is_settled(abi, strategy, before, events);
}

/// No descriptor leaks and none is returned closed. When the machine has
/// finished with a descriptor, that descriptor was reported as opened, was
/// not open before the run, and is the one descriptor that the run has
/// added to those open before; when it has finished without one, the open
/// descriptors are those of before.
pub proof fn lemma_finish_settles_descriptors(
    abi: Abi,
    strategy: Strategy,
    before: World,
    events: Seq<Event>,
)
    requires
        run(abi, initial(strategy), before, events).possible,
    ensures
        run(abi, initial(strategy), before, events).phase matches PhaseView::Finished { fd } ==> {
            if fd != NO_DESCRIPTOR {
                &&& was_opened(events, fd)
                &&& !before.open.contains(fd)
                &&& run(abi, initial(strategy), before, events).world.open == before.open.insert(
                    fd,
                )
            } else {
                run(abi, initial(strategy), before, events).world.open == before.open
            }
        },
{
    lemma_run_is_grounded(abi, strategy, before, events);
    lemma_run_is_settled(abi, strategy, before, events);
}

/// The returned descriptor is anonymous and nobody's name is lost. At every
/// moment of a run the names that stood in the namespace before it still
/// stand there; and when the machine has finished with a descriptor, no
/// other name does: whatever name the run created, it has unlinked.
pub proof fn lemma_namespace_is_restored(
    abi: Abi,
    strategy: Strategy,
    before: World,
    events: Seq<Event>,
)
    requires
        run(abi, initial(strategy), before, events).possible,
    ensures
        before.names.subset_of(run(abi, initial(strategy), before, events).world.names),
        run(abi, initial(strategy), before, events).phase matches PhaseView::Finished { fd } ==> (fd
            != NO_DESCRIPTOR ==> run(abi, initial(strategy), before, events).world.names
            == before.names),
{
    lemma_run_is_settled(abi, strategy, before, events);
}

/// How a run grows by one event: the event is taken as the outcome of the
/// action that was pending, and moves the phase, the world and the record
/// of what was possible accordingly.
pub proof fn lemma_run_push(
    abi: Abi,
    start: PhaseView,
    before: World,
    events: Seq<Event>,
    event: Event,
)
    ensures
        run(abi, start, before, events.push(event)) == ({
            let earlier = run(abi, start, before, events);
            let action = pending(abi, earlier.phase);
            Run {
                phase: advance(abi, earlier.phase, event),
                world: effect(earlier.world, action, event),
                possible: earlier.possible && possible(earlier.world, action, event),
            }
        }),
{
    assert(events.push(event).drop_last() =~= events);
}

} // verus!
