//! Runs that reach their end.
//!
//! The machine sets no bound on the number of names it tries: while every
//! name it asks to create is reported as taken, it draws another. This
//! module proves that it never gives up on that account, that it falls back
//! where the in-memory file is missing, that invocations which follow one
//! another do not stand in each other's way, and that nothing but a taken
//! name makes a dialogue longer than four calls.

use vstd::prelude::*;
use crate::abi::Abi;
use crate::ledger::{lemma_run_push, run, Run, World};
use crate::machine::Event;
use crate::model::{
    advance, answers, first_name, initial, pending, retry_name, ActionView, PhaseView,
    NO_DESCRIPTOR,
};
use crate::name::{
    candidate, decimal4, lemma_candidate_shape, lemma_decimal4_exact, lemma_decimal4_injective,
    placeholder_suffix,
};
use crate::platform::Strategy;

verus! {

/// A taken name is never a failure. When an exclusive creation reports that
/// its name exists, the machine asks for the clock; when that reading
/// succeeds, it asks to create the name numbered by the reading. That name
/// is never the first name, and it equals a numbered name exactly when the
/// numbers agree.
pub proof fn lemma_taken_name_is_retried(abi: Abi, name: Seq<u8>, nanos: i64, other: int)
    requires
        0 <= other < 10000,
    ensures
        advance(
            abi,
            PhaseView::AwaitCreate { name },
            Event::Opened { fd: NO_DESCRIPTOR, errno: abi.eexist },
        ) == PhaseView::AwaitClock,
        pending(abi, PhaseView::AwaitClock) == (ActionView::ClockGettime {
            clock: abi.clock_realtime,
        }),
        advance(abi, PhaseView::AwaitClock, Event::ClockRead { status: 0, nanos })
            == (PhaseView::AwaitCreate { name: retry_name(nanos) }),
        retry_name(nanos) != first_name(),
        retry_name(nanos) == candidate(decimal4(other)) <==> other == nanos as int % 10000,
{
    let number = nanos as int % 10000;
    lemma_decimal4_exact(number);
    lemma_decimal4_exact(other);
    lemma_candidate_shape(decimal4(number));
    lemma_candidate_shape(decimal4(other));
    lemma_candidate_shape(placeholder_suffix());
    if retry_name(nanos) == candidate(decimal4(other)) {
        lemma_decimal4_injective(number, other);
    }
}

/// The events of as many rounds of contention as `readings` is long: in
/// each round the creation reports that the name exists, and the clock then
/// reads that round's nanoseconds.
pub open spec fn contention(abi: Abi, readings: Seq<i64>) -> Seq<Event>
    decreases readings.len(),
{
    if readings.len() == 0 {
        Seq::empty()
    } else {
        contention(abi, readings.drop_last()).push(
            Event::Opened { fd: NO_DESCRIPTOR, errno: abi.eexist },
        ).push(Event::ClockRead { status: 0, nanos: readings.last() })
    }
}

/// The name tried after the rounds of `readings`, where `name` was tried
/// before them.
pub open spec fn name_after(name: Seq<u8>, readings: Seq<i64>) -> Seq<u8> {
    if readings.len() == 0 {
        name
    } else {
        retry_name(readings.last())
    }
}

/// Contention is outlasted, however long it goes on. From any moment at
/// which the creation of `name` is pending, any number of rounds of
/// contention leaves the machine asking to create the name of the last
/// reading; and as soon as a creation then yields a descriptor and the
/// unlinking does not fail, the machine finishes with that descriptor.
pub proof fn lemma_contention_is_outlasted(
    abi: Abi,
    start: PhaseView,
    before: World,
    earlier: Seq<Event>,
    name: Seq<u8>,
    readings: Seq<i64>,
    fd: i32,
    errno: i32,
    status: i32,
)
    requires
        run(abi, start, before, earlier).phase == (PhaseView::AwaitCreate { name }),
        fd != NO_DESCRIPTOR,
        status != -1,
    ensures
        run(abi, start, before, earlier + contention(abi, readings)).phase
            == (PhaseView::AwaitCreate { name: name_after(name, readings) }),
        run(
            abi,
            start,
            before,
            (earlier + contention(abi, readings)).push(Event::Opened { fd, errno }).push(
                Event::Unlinked { status },
            ),
        ).phase == (PhaseView::Finished { fd }),
    decreases readings.len(),
{
    let rounds = earlier + contention(abi, readings);
    if readings.len() > 0 {
        let fewer = earlier + contention(abi, readings.drop_last());
        let taken = Event::Opened { fd: NO_DESCRIPTOR, errno: abi.eexist };
        let read = Event::ClockRead { status: 0, nanos: readings.last() };
        lemma_contention_is_outlasted(
            abi,
            start,
            before,
            earlier,
            name,
            readings.drop_last(),
            fd,
            errno,
            status,
        );
        lemma_run_push(abi, start, before, fewer, taken);
        lemma_run_push(abi, start, before, fewer.push(taken), read);
    }
    let opened = Event::Opened { fd, errno };
    lemma_run_push(abi, start, before, rounds, opened);
    lemma_run_push(abi, start, before, rounds.push(opened), Event::Unlinked { status });
}

/// A kernel without the in-memory file is no failure where there is a
/// fallback: when the call is reported as not implemented, the machine asks
/// to create the first name, and finishes with the descriptor of the first
/// creation that yields one and whose unlinking does not fail.
pub proof fn lemma_missing_primitive_falls_back(
    abi: Abi,
    before: World,
    readings: Seq<i64>,
    fd: i32,
    errno: i32,
    status: i32,
)
    requires
        fd != NO_DESCRIPTOR,
        status != -1,
    ensures
        run(
            abi,
            initial(Strategy::NativeTempFile { fallback: true }),
            before,
            seq![Event::Opened { fd: NO_DESCRIPTOR, errno: abi.enosys }],
        ).phase == (PhaseView::AwaitCreate { name: first_name() }),
        run(
            abi,
            initial(Strategy::NativeTempFile { fallback: true }),
            before,
            (seq![Event::Opened { fd: NO_DESCRIPTOR, errno: abi.enosys }] + contention(
                abi,
                readings,
            )).push(Event::Opened { fd, errno }).push(Event::Unlinked { status }),
        ).phase == (PhaseView::Finished { fd }),
{
    let start = initial(Strategy::NativeTempFile { fallback: true });
    let missing = Event::Opened { fd: NO_DESCRIPTOR, errno: abi.enosys };
    lemma_run_push(abi, start, before, Seq::empty(), missing);
    lemma_contention_is_outlasted(
        abi,
        start,
        before,
        seq![missing],
        first_name(),
        readings,
        fd,
        errno,
        status,
    );
}

/// The events of a generic invocation that meets no contention: the first
/// creation yields `fd`, and the unlinking succeeds.
pub open spec fn uncontended(fd: i32) -> Seq<Event> {
    seq![Event::Opened { fd, errno: 0 }, Event::Unlinked { status: 0 }]
}

/// The world after one generic invocation after another, none of which
/// meets contention and of which the `i`-th is handed `fds[i]`.
pub open spec fn world_after_invocations(abi: Abi, before: World, fds: Seq<i32>) -> World
    decreases fds.len(),
{
    if fds.len() == 0 {
        before
    } else {
        run(
            abi,
            initial(Strategy::GenericPosix),
            world_after_invocations(abi, before, fds.drop_last()),
            uncontended(fds.last()),
        ).world
    }
}

/// The `i`-th of those invocations: its run, from the world that the
/// invocations before it have left.
pub open spec fn invocation(abi: Abi, before: World, fds: Seq<i32>, i: int) -> Run {
    run(
        abi,
        initial(Strategy::GenericPosix),
        world_after_invocations(abi, before, fds.take(i)),
        uncontended(fds[i]),
    )
}

/// Invocations do not stand in each other's way. Where the first name is
/// free, any number of generic invocations in a row, each handed a
/// descriptor that is not open yet, all finish with their descriptor under
/// that same first name, and leave the namespace as it was before the
/// first of them.
pub proof fn lemma_repeated_invocations_succeed(abi: Abi, before: World, fds: Seq<i32>)
    requires
        !before.names.contains(first_name()),
        fds.no_duplicates(),
        forall|i: int|
            0 <= i < fds.len() ==> #[trigger] fds[i] != NO_DESCRIPTOR && !before.open.contains(
                fds[i],
            ),
    ensures
        forall|i: int|
            0 <= i < fds.len() ==> (#[trigger] invocation(abi, before, fds, i)).possible
                && invocation(abi, before, fds, i).phase == (PhaseView::Finished { fd: fds[i] }),
        world_after_invocations(abi, before, fds).names == before.names,
        world_after_invocations(abi, before, fds).open == before.open.union(fds.to_set()),
    decreases fds.len(),
{
    if fds.len() > 0 {
        let fewer = fds.drop_last();
        let fd = fds.last();
        let world = world_after_invocations(abi, before, fewer);
        let start = initial(Strategy::GenericPosix);
        let opened = Event::Opened { fd, errno: 0 };
        let unlinked = Event::Unlinked { status: 0 };
        lemma_repeated_invocations_succeed(abi, before, fewer);
        let nothing = Seq::<Event>::empty();
        lemma_run_push(abi, start, world, nothing, opened);
        lemma_run_push(abi, start, world, nothing.push(opened), unlinked);
        assert(uncontended(fd) =~= nothing.push(opened).push(unlinked));
        let r = run(abi, start, world, uncontended(fd));
        assert(r.world.open =~= before.open.union(fds.to_set())) by {
            assert forall|x: i32| fds.to_set().contains(x) <==> fewer.to_set().contains(x) || x
                == fd by {
                if fds.to_set().contains(x) {
                    let i = choose|i: int| 0 <= i < fds.len() && fds[i] == x;
                    if i < fewer.len() {
                        assert(fewer[i] == x);
                    }
                }
            }
        }
        assert forall|i: int| 0 <= i < fds.len() implies (#[trigger] invocation(
            abi,
            before,
            fds,
            i,
        )).possible && invocation(abi, before, fds, i).phase == (PhaseView::Finished {
            fd: fds[i],
        }) by {
            if i < fewer.len() {
                assert(fds.take(i) =~= fewer.take(i));
                assert(invocation(abi, before, fds, i) == invocation(abi, before, fewer, i));
            }
        }
    }
}

/// Whether `event` reports that the name of an exclusive creation exists.
pub open spec fn taken(abi: Abi, event: Event) -> bool {
    event matches Event::Opened { fd, errno } && fd == NO_DESCRIPTOR && errno == abi.eexist
}

/// How many events of `events` report a name as taken.
pub open spec fn times_taken(abi: Abi, events: Seq<Event>) -> nat
    decreases events.len(),
{
    if events.len() == 0 {
        0
    } else if taken(abi, events.last()) {
        times_taken(abi, events.drop_last()) + 1
    } else {
        times_taken(abi, events.drop_last())
    }
}

/// How many calls the run from `start` and `before` over `events` has
/// asked for and been answered: the events that answered the action
/// pending when they came.
pub open spec fn calls_answered(
    abi: Abi,
    start: PhaseView,
    before: World,
    events: Seq<Event>,
) -> nat
    decreases events.len(),
{
    if events.len() == 0 {
        0
    } else {
        let earlier = events.drop_last();
        let waiting = run(abi, start, before, earlier).phase;
        if answers(pending(abi, waiting), events.last()) {
            calls_answered(abi, start, before, earlier) + 1
        } else {
            calls_answered(abi, start, before, earlier)
        }
    }
}

/// The most calls that can still be answered from `phase` if no name is
/// reported as taken from here on.
spec fn calls_left(phase: PhaseView) -> nat {
    match phase {
        PhaseView::AwaitMemfd { .. } | PhaseView::AwaitClock => 4,
        PhaseView::AwaitCreate { .. } => 3,
        PhaseView::AwaitUnlink { .. } => 2,
        PhaseView::AwaitAnonymous | PhaseView::AwaitClose { .. } => 1,
        PhaseView::Finished { .. } => 0,
    }
}

proof fn lemma_calls_are_paid_for(
    abi: Abi,
    strategy: Strategy,
    before: World,
    events: Seq<Event>,
)
    ensures
        calls_answered(abi, initial(strategy), before, events) + calls_left(
            run(abi, initial(strategy), before, events).phase,
        ) <= 4 + 2 * times_taken(abi, events),
    decreases events.len(),
{
    if events.len() > 0 {
        lemma_calls_are_paid_for(abi, strategy, before, events.drop_last());
    }
}

/// Only contention prolongs the dialogue. However the calls end, a run has
/// asked for at most four of them, and two more for every time that a name
/// was reported as taken.
pub proof fn lemma_calls_are_bounded_by_contention(
    abi: Abi,
    strategy: Strategy,
    before: World,
    events: Seq<Event>,
)
    ensures
        calls_answered(abi, initial(strategy), before, events) <= 4 + 2 * times_taken(
            abi,
            events,
        ),
{
    lemma_calls_are_paid_for(abi, strategy, before, events);
}

} // verus!
