//! Runs of the capture loop, and what holds of every one of them.
//!
//! A run is the loop's initial state together with the events that the driver
//! answered with, oldest first. From it follow the actions that the loop
//! issued and which of them completed. The laws below are stated over these
//! and proved for all runs.

use vstd::prelude::*;
use crate::camera::CameraState;
use crate::machine::{Action, Event, Fault, LoopModel, Phase, PinLevel, Stage, TRIGGER_PIN};
use crate::naming::{lemma_image_names_distinct, spec_image_path};

verus! {

/// The state that `events` lead to from `start`.
pub open spec fn run(start: LoopModel, events: Seq<Event>) -> LoopModel
    decreases events.len(),
{
    if events.len() == 0 {
        start
    } else {
        run(start, events.drop_last()).next(events.last())
    }
}

/// Whether each of `events` answers the action that is outstanding when it
/// arrives.
pub open spec fn follows(start: LoopModel, events: Seq<Event>) -> bool
    decreases events.len(),
{
    events.len() == 0 || {
        &&& follows(start, events.drop_last())
        &&& run(start, events.drop_last()).accepts(events.last())
    }
}

/// The actions issued in a run, oldest first. The action at position `i` is
/// the one that `events[i]` answers; the last one is still outstanding.
pub open spec fn issued(start: LoopModel, events: Seq<Event>) -> Seq<Action>
    decreases events.len(),
{
    if events.len() == 0 {
        seq![start.pending()]
    } else {
        issued(start, events.drop_last()).push(run(start, events).pending())
    }
}

/// The actions of a run that were answered with [`Event::Done`], oldest first.
pub open spec fn completed(start: LoopModel, events: Seq<Event>) -> Seq<Action>
    decreases events.len(),
{
    if events.len() == 0 {
        Seq::empty()
    } else {
        let before = completed(start, events.drop_last());
        if events.last() == Event::Done {
            before.push(run(start, events.drop_last()).pending())
        } else {
            before
        }
    }
}

/// The image indices of the capture actions among `actions`, in order.
pub open spec fn capture_indices(actions: Seq<Action>) -> Seq<nat>
    decreases actions.len(),
{
    if actions.len() == 0 {
        Seq::empty()
    } else {
        let before = capture_indices(actions.drop_last());
        match actions.last() {
            Action::Capture { index } => before.push(index as nat),
            _ => before,
        }
    }
}

/// How often `action` occurs among `actions`.
pub open spec fn occurrences(actions: Seq<Action>, action: Action) -> nat
    decreases actions.len(),
{
    if actions.len() == 0 {
        0
    } else {
        occurrences(actions.drop_last(), action) + if actions.last() == action {
            1nat
        } else {
            0nat
        }
    }
}

/// The numbers from one to `n`, ascending.
pub open spec fn one_to(n: nat) -> Seq<nat> {
    Seq::new(n, |i: int| (i + 1) as nat)
}

/// The image indices that a run has asked to have captured.
pub open spec fn requested(events: Seq<Event>) -> Seq<nat> {
    capture_indices(issued(LoopModel::initial(), events))
}

/// The image indices whose capture a run has seen completed: the files that
/// it has written.
pub open spec fn written(events: Seq<Event>) -> Seq<nat> {
    capture_indices(completed(LoopModel::initial(), events))
}

/// The paths of the files that a run has written, oldest first.
pub open spec fn files(events: Seq<Event>) -> Seq<Seq<char>> {
    Seq::new(written(events).len(), |k: int| spec_image_path(written(events)[k]))
}

/// The number of capture cycles that a run has been through from the
/// trigger to the end of the preview.
pub open spec fn cycles(events: Seq<Event>) -> nat {
    occurrences(completed(LoopModel::initial(), events), Action::StopPreview)
}

/// How many captures have completed in a state with the given counter.
spec fn written_in(end: LoopModel) -> nat {
    if end.phase == Phase::Capturing || end.fault == Some(Fault::Capture) {
        (end.counter - 1) as nat
    } else {
        end.counter
    }
}

/// How many cycles have completed in a state with the given counter.
spec fn cycles_in(end: LoopModel) -> nat {
    if end.phase.stage() == Stage::Capturing || end.fault == Some(Fault::Capture) || end.fault
        == Some(Fault::PreviewStop) {
        (end.counter - 1) as nat
    } else {
        end.counter
    }
}

/// What the state at the end of a run tells about the run's past.
spec fn ledger(events: Seq<Event>) -> bool {
    let start = LoopModel::initial();
    let end = run(start, events);
    let asked = issued(start, events);
    let done = completed(start, events);
    &&& end.wf()
    &&& asked.len() == events.len() + 1
    &&& asked.last() == end.pending()
    &&& capture_indices(asked) == one_to(end.counter)
    &&& capture_indices(done) == one_to(written_in(end))
    &&& occurrences(done, Action::StopPreview) == cycles_in(end)
    &&& occurrences(asked, Action::Release) == if end.phase == Phase::Releasing || end.camera
        == CameraState::Released {
        1nat
    } else {
        0nat
    }
    &&& occurrences(done, Action::AcquireCamera) == if end.camera == CameraState::Absent {
        0nat
    } else {
        1nat
    }
    &&& occurrences(asked, Action::RegisterHandler) == 1
    &&& occurrences(asked, Action::AcquireCamera) == if end.phase == Phase::Registering
        || end.fault == Some(Fault::HandlerRegistration) {
        0nat
    } else {
        1nat
    }
    &&& occurrences(asked, Action::ConfigurePin { pin: TRIGGER_PIN }) == if end.camera
        == CameraState::Absent {
        0nat
    } else {
        1nat
    }
    &&& occurrences(done, Action::ConfigurePin { pin: TRIGGER_PIN }) == if end.phase.stage()
        == Stage::Startup || end.camera == CameraState::Absent || end.fault == Some(
        Fault::PinConfiguration,
    ) {
        0nat
    } else {
        1nat
    }
}

/// Appending an action appends its index if it is a capture, and nothing
/// otherwise.
proof fn lemma_capture_indices_push(actions: Seq<Action>, action: Action)
    ensures
        capture_indices(actions.push(action)) == match action {
            Action::Capture { index } => capture_indices(actions).push(index as nat),
            _ => capture_indices(actions),
        },
{
    assert(actions.push(action).drop_last() =~= actions);
}

/// Appending an action adds one occurrence of that action and of no other.
proof fn lemma_occurrences_push(actions: Seq<Action>, action: Action, sought: Action)
    ensures
        occurrences(actions.push(action), sought) == occurrences(actions, sought) + if action
            == sought {
            1nat
        } else {
            0nat
        },
{
    assert(actions.push(action).drop_last() =~= actions);
}

/// The numbers up to `n + 1` are the numbers up to `n`, and `n + 1`.
proof fn lemma_one_to_push(n: nat)
    ensures
        one_to(n).push(n + 1) == one_to(n + 1),
{
    assert(one_to(n).push(n + 1) =~= one_to(n + 1));
}

/// The ledger holds of every run, by induction over its events.
proof fn lemma_ledger(events: Seq<Event>)
    requires
        follows(LoopModel::initial(), events),
    ensures
        ledger(events),
    decreases events.len(),
{
    let start = LoopModel::initial();
    if events.len() == 0 {
        assert(seq![start.pending()] =~= Seq::<Action>::empty().push(start.pending()));
        lemma_capture_indices_push(Seq::empty(), start.pending());
        assert(capture_indices(issued(start, events)) =~= one_to(0));
        lemma_occurrences_push(Seq::empty(), start.pending(), Action::Release);
        lemma_occurrences_push(Seq::empty(), start.pending(), Action::RegisterHandler);
        lemma_occurrences_push(Seq::empty(), start.pending(), Action::AcquireCamera);
        lemma_occurrences_push(
            Seq::empty(),
            start.pending(),
            Action::ConfigurePin { pin: TRIGGER_PIN },
        );
        assert(capture_indices(completed(start, events)) =~= one_to(0));
    } else {
        let earlier = events.drop_last();
        let event = events.last();
        lemma_ledger(earlier);
        let before = run(start, earlier);
        let end = run(start, events);
        assert(end == before.next(event));
        let asked = issued(start, earlier);
        let done = completed(start, earlier);
        lemma_capture_indices_push(asked, end.pending());
        lemma_occurrences_push(asked, end.pending(), Action::Release);
        lemma_occurrences_push(asked, end.pending(), Action::RegisterHandler);
        lemma_occurrences_push(asked, end.pending(), Action::AcquireCamera);
        lemma_occurrences_push(asked, end.pending(), Action::ConfigurePin { pin: TRIGGER_PIN });
        lemma_occurrences_push(done, before.pending(), Action::ConfigurePin { pin: TRIGGER_PIN });
        lemma_capture_indices_push(done, before.pending());
        lemma_occurrences_push(done, before.pending(), Action::StopPreview);
        lemma_occurrences_push(done, before.pending(), Action::AcquireCamera);
        if end.phase == Phase::Capturing {
            lemma_one_to_push(before.counter);
        }
        if before.phase == Phase::Capturing && event == Event::Done {
            lemma_one_to_push((before.counter - 1) as nat);
        }
    }
}

/// Every state that a run reaches is well formed.
pub proof fn lemma_run_is_well_formed(events: Seq<Event>)
    requires
        follows(LoopModel::initial(), events),
    ensures
        run(LoopModel::initial(), events).wf(),
{
    lemma_ledger(events);
}

/// One action is issued at the start and one more for every event, and the
/// last of them is the action that is outstanding at the end of the run.
pub proof fn lemma_issued_tracks_run(events: Seq<Event>)
    requires
        follows(LoopModel::initial(), events),
    ensures
        issued(LoopModel::initial(), events).len() == events.len() + 1,
        issued(LoopModel::initial(), events).last() == run(LoopModel::initial(), events).pending(),
{
    lemma_ledger(events);
}

/// The counter counts the capture cycles, and the files are numbered
/// without gaps or repeats.
///
/// In every run the captures asked for carry the indices 1, 2, and so on up
/// to the counter, in this order. The files written are those of the indices
/// from 1 up, each under the path of its index, and no two of them share a
/// path. While the loop waits for the pin, and after it has ended otherwise
/// than on a failed capture cycle, the counter equals the number of
/// completed cycles and the number of files written. A run that is inside a
/// cycle, or that ended on a failure in one, is ahead by at most one.
pub proof fn lemma_counter_numbers_the_files(events: Seq<Event>)
    requires
        follows(LoopModel::initial(), events),
    ensures
        ({
            let end = run(LoopModel::initial(), events);
            let n = cycles(events);
            &&& requested(events) == one_to(end.counter)
            &&& written(events) == one_to(files(events).len())
            &&& forall|k: int|
                0 <= k < files(events).len() ==> #[trigger] files(events)[k] == spec_image_path(
                    (k + 1) as nat,
                )
            &&& forall|j: int, k: int|
                0 <= j < k < files(events).len() ==> #[trigger] files(events)[j]
                    != #[trigger] files(events)[k]
            &&& n <= files(events).len() <= end.counter <= n + 1
            &&& end.phase.stage() == Stage::WaitingForEdge ==> end.counter == n
                && files(events).len() == n
            &&& end.phase.stage() == Stage::Terminated && end.fault != Some(Fault::Capture)
                && end.fault != Some(Fault::PreviewStop) ==> end.counter == n
                && files(events).len() == n
        }),
{
    lemma_ledger(events);
    assert forall|j: int, k: int| 0 <= j < k < files(events).len() implies #[trigger] files(
        events,
    )[j] != #[trigger] files(events)[k] by {
        lemma_image_names_distinct((j + 1) as nat, (k + 1) as nat);
    }
}

/// The counter only ever advances, by one, and only on a trigger.
///
/// An event leaves the counter as it is or raises it by one. It is raised
/// exactly where the pin is read high while the counter can still advance,
/// and the capture that is then asked for carries the new value as its
/// index.
pub proof fn lemma_counter_only_advances(state: LoopModel, event: Event)
    requires
        state.wf(),
    ensures
        state.next(event).counter == state.counter || state.next(event).counter == state.counter
            + 1,
        state.next(event).counter == state.counter + 1 <==> state.phase == Phase::Sampling && event
            == Event::Level(PinLevel::High) && state.counter < u64::MAX,
        state.next(event).counter == state.counter + 1 ==> state.next(event).pending()
            == (Action::Capture { index: (state.counter + 1) as u64 }),
{
}

/// Along a run the counter never falls: at no earlier point was it larger
/// than at the end.
pub proof fn lemma_counter_is_monotone(events: Seq<Event>, k: int)
    requires
        0 <= k <= events.len(),
    ensures
        run(LoopModel::initial(), events.take(k)).counter <= run(
            LoopModel::initial(),
            events,
        ).counter,
    decreases events.len(),
{
    if k == events.len() {
        assert(events.take(k) =~= events);
    } else {
        let earlier = events.drop_last();
        lemma_counter_is_monotone(earlier, k);
        assert(earlier.take(k) =~= events.take(k));
    }
}

/// Shutdown before the first trigger leaves no capture behind.
///
/// A run in which the pin was never read high has asked for no capture and
/// its counter is zero. If, besides, the shutdown flag was seen raised and no
/// operation failed, the loop has ended without a fault, and once the camera
/// is released its exit code is the clean one.
pub proof fn lemma_shutdown_before_trigger(events: Seq<Event>)
    requires
        follows(LoopModel::initial(), events),
        forall|i: int| 0 <= i < events.len() ==> events[i] != Event::Level(PinLevel::High),
    ensures
        ({
            let end = run(LoopModel::initial(), events);
            let raised = exists|i: int| 0 <= i < events.len() && events[i] == Event::Flag(true);
            let sound = forall|i: int| 0 <= i < events.len() ==> events[i] != Event::Failed;
            &&& end.counter == 0
            &&& requested(events) == Seq::<nat>::empty()
            &&& written(events) == Seq::<nat>::empty()
            &&& raised ==> end.phase.stage() == Stage::Terminated
            &&& sound ==> end.fault is None
            &&& raised && sound && end.phase == Phase::Finished ==> end.pending() == (Action::Exit {
                code: 0,
            })
        }),
{
    lemma_quiet_run(events);
    lemma_ledger(events);
    assert(one_to(0) =~= Seq::<nat>::empty());
}

/// The part of [`lemma_shutdown_before_trigger`] that needs its own
/// induction.
proof fn lemma_quiet_run(events: Seq<Event>)
    requires
        follows(LoopModel::initial(), events),
        forall|i: int| 0 <= i < events.len() ==> events[i] != Event::Level(PinLevel::High),
    ensures
        ({
            let end = run(LoopModel::initial(), events);
            &&& end.counter == 0
            &&& (exists|i: int| 0 <= i < events.len() && events[i] == Event::Flag(true))
                ==> end.phase.stage() == Stage::Terminated
            &&& (forall|i: int| 0 <= i < events.len() ==> events[i] != Event::Failed)
                ==> end.fault is None
        }),
    decreases events.len(),
{
    if events.len() > 0 {
        let earlier = events.drop_last();
        assert forall|i: int| 0 <= i < earlier.len() implies earlier[i] != Event::Level(
            PinLevel::High,
        ) by {
            assert(earlier[i] == events[i]);
        }
        lemma_quiet_run(earlier);
        lemma_ledger(earlier);
        let before = run(LoopModel::initial(), earlier);
        let end = run(LoopModel::initial(), events);
        assert(events.last() == events[events.len() - 1]);
        if exists|i: int| 0 <= i < events.len() && events[i] == Event::Flag(true) {
            let i = choose|i: int| 0 <= i < events.len() && events[i] == Event::Flag(true);
            if i < earlier.len() {
                assert(earlier[i] == Event::Flag(true));
            }
        }
        if forall|i: int| 0 <= i < events.len() ==> events[i] != Event::Failed {
            assert forall|i: int| 0 <= i < earlier.len() implies earlier[i] != Event::Failed by {
                assert(earlier[i] == events[i]);
            }
        }
    }
}

/// A raised shutdown flag ends the loop at the poll that sees it, and only a
/// poll sees it.
///
/// The flag is accepted in no phase but the one that asked for it. There, a
/// raised flag sends the loop to release the camera, with the counter as it
/// was and no fault on record, and whatever answer the release gets finishes
/// the loop; a flag that is down lets the pin be read.
pub proof fn lemma_shutdown_is_seen_at_the_poll(state: LoopModel, raised: bool, answer: Event)
    requires
        state.wf(),
    ensures
        state.accepts(Event::Flag(raised)) <==> state.phase == Phase::Checking,
        state.accepts(Event::Flag(raised)) <==> state.pending() == Action::CheckShutdown,
        state.phase == Phase::Checking && raised ==> {
            let ending = state.next(Event::Flag(raised));
            &&& ending == (LoopModel { phase: Phase::Releasing, ..state })
            &&& ending.pending() == Action::Release
            &&& ending.accepts(answer) ==> ending.next(answer).phase == Phase::Finished
            &&& ending.next(Event::Done).pending() == (Action::Exit { code: 0 })
        },
        state.phase == Phase::Checking && !raised ==> state.next(Event::Flag(raised)).pending()
            == (Action::ReadPin { pin: TRIGGER_PIN }),
{
}

/// A capture cycle is not cut short by a shutdown request.
///
/// While a cycle is under way the loop asks for the capture or for the end
/// of the preview, never for the shutdown flag, and a flag offered to it is
/// refused and changes nothing. A completed capture is followed by the end
/// of the preview, and that by the next preview: only then is the flag
/// looked at again. Nothing but a failed operation ends the loop from inside
/// a cycle.
pub proof fn lemma_cycle_is_atomic(state: LoopModel, raised: bool, event: Event)
    requires
        state.wf(),
        state.phase.stage() == Stage::Capturing,
    ensures
        state.pending() == (Action::Capture { index: state.counter as u64 }) || state.pending()
            == Action::StopPreview,
        !state.accepts(Event::Flag(raised)),
        state.next(Event::Flag(raised)) == state,
        state.accepts(event) <==> event == Event::Done || event == Event::Failed,
        state.phase == Phase::Capturing ==> state.next(Event::Done).pending()
            == Action::StopPreview,
        state.phase == Phase::Stopping ==> state.next(Event::Done).pending()
            == Action::StartPreview,
        state.next(Event::Done).counter == state.counter,
        state.next(event).phase.stage() == Stage::Terminated ==> event == Event::Failed,
{
}

/// What each action of a run is followed by, given its answer.
spec fn succession(events: Seq<Event>, i: int) -> bool {
    let asked = issued(LoopModel::initial(), events);
    &&& asked[i] is Capture && events[i] == Event::Done ==> asked[i + 1] == Action::StopPreview
    &&& asked[i] == Action::StopPreview && events[i] == Event::Done ==> asked[i + 1]
        == Action::StartPreview
    &&& asked[i + 1] == Action::CheckShutdown ==> {
        ||| asked[i] == Action::StartPreview && events[i] == Event::Done
        ||| asked[i] is ReadPin && events[i] == Event::Level(PinLevel::Low)
    }
    &&& asked[i + 1] is ReadPin ==> asked[i] == Action::CheckShutdown && events[i] == Event::Flag(
        false,
    )
    &&& asked[i + 1] is Capture ==> asked[i] is ReadPin && events[i] == Event::Level(
        PinLevel::High,
    )
    &&& asked[i] == Action::CheckShutdown && events[i] == Event::Flag(true) ==> asked[i + 1]
        == Action::Release
}

/// The succession holds at every position of every run.
proof fn lemma_succession(events: Seq<Event>, i: int)
    requires
        follows(LoopModel::initial(), events),
        0 <= i < events.len(),
    ensures
        succession(events, i),
    decreases events.len(),
{
    let start = LoopModel::initial();
    let earlier = events.drop_last();
    lemma_ledger(earlier);
    lemma_ledger(events);
    if i < events.len() - 1 {
        lemma_succession(earlier, i);
        assert(earlier[i] == events[i]);
    } else {
        assert(events[i] == events.last());
        assert(issued(start, events)[i] == issued(start, earlier).last());
    }
}

/// In a run, every cycle that is begun is carried through unless an
/// operation fails: the action after a completed capture is the end of the
/// preview, the action after that is the next preview, and a capture is
/// asked for only after the pin has read high. The shutdown flag is asked
/// for only after a preview has started or the pin has read low, so never
/// between the trigger and the end of its cycle.
pub proof fn lemma_cycles_run_to_completion(events: Seq<Event>, i: int)
    requires
        follows(LoopModel::initial(), events),
        0 <= i < events.len(),
    ensures
        ({
            let asked = issued(LoopModel::initial(), events);
            &&& asked[i] is Capture && events[i] == Event::Done ==> asked[i + 1]
                == Action::StopPreview
            &&& asked[i] == Action::StopPreview && events[i] == Event::Done ==> asked[i + 1]
                == Action::StartPreview
            &&& asked[i + 1] == Action::CheckShutdown ==> {
                ||| asked[i] == Action::StartPreview && events[i] == Event::Done
                ||| asked[i] is ReadPin && events[i] == Event::Level(PinLevel::Low)
            }
            &&& asked[i + 1] is Capture ==> asked[i] is ReadPin && events[i] == Event::Level(
                PinLevel::High,
            )
        }),
{
    lemma_succession(events, i);
}

/// A shutdown request is seen within one poll.
///
/// In a run, the pin is never read without the shutdown flag having been
/// looked at, and found down, immediately before; and a flag that is found
/// raised is followed by the release of the camera, not by a read of the pin
/// nor by a capture.
pub proof fn lemma_flag_is_polled_before_the_pin(events: Seq<Event>, i: int)
    requires
        follows(LoopModel::initial(), events),
        0 <= i < events.len(),
    ensures
        ({
            let asked = issued(LoopModel::initial(), events);
            &&& asked[i + 1] is ReadPin ==> asked[i] == Action::CheckShutdown && events[i]
                == Event::Flag(false)
            &&& asked[i] == Action::CheckShutdown && events[i] == Event::Flag(true) ==> asked[i
                + 1] == Action::Release
        }),
{
    lemma_succession(events, i);
}

/// Start-up happens once, and the pin is read only after it was configured.
///
/// Every run begins by installing the interrupt handler and never asks for
/// that again. The camera is asked for at most once, and so is the
/// configuration of the trigger pin. Where a run asks for the level of a
/// pin, it is the trigger pin, and its configuration has completed.
pub proof fn lemma_startup_happens_once(events: Seq<Event>)
    requires
        follows(LoopModel::initial(), events),
    ensures
        ({
            let start = LoopModel::initial();
            let asked = issued(start, events);
            let setup = Action::ConfigurePin { pin: TRIGGER_PIN };
            &&& asked[0] == Action::RegisterHandler
            &&& occurrences(asked, Action::RegisterHandler) == 1
            &&& occurrences(asked, Action::AcquireCamera) <= 1
            &&& occurrences(asked, setup) <= 1
            &&& forall|i: int|
                0 <= i < asked.len() && #[trigger] asked[i] is ReadPin ==> asked[i]
                    == (Action::ReadPin { pin: TRIGGER_PIN })
            &&& asked.last() is ReadPin ==> occurrences(completed(start, events), setup) == 1
        }),
{
    lemma_ledger(events);
    lemma_first_action(events);
    lemma_reads_the_trigger_pin(events);
}

/// The first action of every run is to install the interrupt handler.
proof fn lemma_first_action(events: Seq<Event>)
    ensures
        issued(LoopModel::initial(), events)[0] == Action::RegisterHandler,
        issued(LoopModel::initial(), events).len() == events.len() + 1,
    decreases events.len(),
{
    if events.len() > 0 {
        lemma_first_action(events.drop_last());
    }
}

/// No pin but the trigger pin is ever read.
proof fn lemma_reads_the_trigger_pin(events: Seq<Event>)
    ensures
        forall|i: int|
            0 <= i < issued(LoopModel::initial(), events).len() && #[trigger] issued(
                LoopModel::initial(),
                events,
            )[i] is ReadPin ==> issued(LoopModel::initial(), events)[i] == (Action::ReadPin {
                pin: TRIGGER_PIN,
            }),
    decreases events.len(),
{
    if events.len() > 0 {
        lemma_reads_the_trigger_pin(events.drop_last());
    }
}

/// The camera is released exactly once if it was acquired, and not at all
/// if it was not.
///
/// At no point of a run has the release been asked for more than once, nor
/// without the camera having been acquired. Once the loop has finished, by
/// shutdown or on a fault, the release has been asked for exactly as often
/// as the camera was acquired: once, unless the run ended before or in the
/// acquisition. No action follows the release but the exit.
pub proof fn lemma_released_exactly_once(events: Seq<Event>)
    requires
        follows(LoopModel::initial(), events),
    ensures
        ({
            let start = LoopModel::initial();
            let end = run(start, events);
            let releases = occurrences(issued(start, events), Action::Release);
            let acquisitions = occurrences(completed(start, events), Action::AcquireCamera);
            &&& releases <= acquisitions <= 1
            &&& end.phase == Phase::Finished ==> releases == acquisitions
            &&& end.phase == Phase::Finished ==> (acquisitions == 0 <==> end.fault == Some(
                Fault::HandlerRegistration,
            ) || end.fault == Some(Fault::CameraAcquisition))
            &&& end.camera == CameraState::Released ==> end.pending() is Exit
        }),
{
    lemma_ledger(events);
}

/// The loop keeps to the camera's lifecycle.
///
/// Whatever camera operation is outstanding in a well-formed state is one
/// that the camera's state permits; when it completes, the camera is in the
/// state that the lifecycle gives; and every event leads to a well-formed
/// state again.
pub proof fn lemma_loop_respects_camera(state: LoopModel, event: Event)
    requires
        state.wf(),
    ensures
        state.next(event).wf(),
        state.pending().camera_op() matches Some(op) ==> {
            &&& state.camera.permits(op)
            &&& state.next(Event::Done).camera == state.camera.after(op)
        },
        state.pending().camera_op() is None ==> state.next(event).camera == state.camera,
        state.next(event).camera != state.camera ==> event == Event::Done || state.phase
            == Phase::Releasing,
{
}

/// The end is final, and the exit code tells how it came about.
///
/// Once the loop has ended it stays ended: every event leaves it in the
/// terminated stage with its counter unchanged, and a fault on record stays
/// on record. A finished loop accepts no event at all. The exit that it asks
/// for carries the clean code if no fault is on record and the fatal code
/// otherwise.
pub proof fn lemma_termination_is_absorbing(state: LoopModel, event: Event)
    requires
        state.wf(),
        state.phase.stage() == Stage::Terminated,
    ensures
        state.next(event).phase.stage() == Stage::Terminated,
        state.next(event).counter == state.counter,
        state.fault is Some ==> state.next(event).fault == state.fault,
        state.phase == Phase::Finished ==> !state.accepts(event) && state.next(event) == state,
        state.phase == Phase::Finished && state.fault is None ==> state.pending() == (Action::Exit {
            code: 0,
        }),
        state.phase == Phase::Finished && state.fault is Some ==> state.pending() == (Action::Exit {
            code: 1,
        }),
{
}

} // verus!
