//! Whole runs of the driver, and what holds of every run.

use crate::driver::{transition, ActionView, DriverState, InputView, LogEntryView};
use crate::question::record_of;
use crate::sink::request_for;
use vstd::prelude::*;

verus! {

/// The run of a driver that starts in `state` and is fed `inputs` in order:
/// the state it ends in, and the action it gave for each input.
pub open spec fn run(state: DriverState, inputs: Seq<InputView>) -> (DriverState, Seq<ActionView>)
    decreases inputs.len(),
{
    if inputs.len() == 0 {
        (state, Seq::empty())
    } else {
        let (before, actions) = run(state, inputs.drop_last());
        let (after, action) = transition(before, inputs.last());
        (after, actions.push(action))
    }
}

/// Whether the stream source stays open throughout the first `count` inputs.
pub open spec fn open_for(inputs: Seq<InputView>, count: int) -> bool {
    forall|i: int| 0 <= i < count && i < inputs.len() ==> !(#[trigger] inputs[i] is Closed)
}

/// A run gives exactly one action per input.
pub proof fn run_answers_every_input(state: DriverState, inputs: Seq<InputView>)
    ensures
        run(state, inputs).1.len() == inputs.len(),
    decreases inputs.len(),
{
    if inputs.len() > 0 {
        run_answers_every_input(state, inputs.drop_last());
    }
}

/// The actions for the first `count` inputs do not depend on what is fed
/// afterwards.
pub proof fn run_of_prefix(state: DriverState, inputs: Seq<InputView>, count: int)
    requires
        0 <= count <= inputs.len(),
    ensures
        run(state, inputs.take(count)).1 == run(state, inputs).1.take(count),
    decreases inputs.len(),
{
    run_answers_every_input(state, inputs);
    if count == inputs.len() {
        assert(inputs.take(count) =~= inputs);
        assert(run(state, inputs).1.take(count) =~= run(state, inputs).1);
    } else {
        let shorter = inputs.drop_last();
        run_of_prefix(state, shorter, count);
        run_answers_every_input(state, shorter);
        assert(shorter.take(count) =~= inputs.take(count));
        assert(run(state, inputs).1.take(count) =~= run(state, shorter).1.take(count));
    }
}

/// As long as the stream source stays open the driver keeps running, whatever
/// else it is fed.
pub proof fn open_stream_keeps_running(inputs: Seq<InputView>)
    requires
        open_for(inputs, inputs.len() as int),
    ensures
        run(DriverState::Running, inputs).0 == DriverState::Running,
    decreases inputs.len(),
{
    if inputs.len() > 0 {
        let shorter = inputs.drop_last();
        assert forall|i: int| 0 <= i < shorter.len() implies !(#[trigger] shorter[i] is Closed) by {
            assert(shorter[i] == inputs[i]);
        }
        open_stream_keeps_running(shorter);
        assert(!(inputs[inputs.len() - 1] is Closed));
    }
}

/// While the stream source is open, the action for an input is the one a
/// running driver gives for that input alone: nothing fed earlier changes it.
pub proof fn action_while_open(inputs: Seq<InputView>, index: int)
    requires
        0 <= index < inputs.len(),
        open_for(inputs, index),
    ensures
        run(DriverState::Running, inputs).1.len() == inputs.len(),
        run(DriverState::Running, inputs).1[index] == transition(
            DriverState::Running,
            inputs[index],
        ).1,
        run(DriverState::Running, inputs.take(index)).0 == DriverState::Running,
{
    let until = inputs.take(index + 1);
    let before = until.drop_last();
    assert(before =~= inputs.take(index));
    assert forall|i: int| 0 <= i < before.len() implies !(#[trigger] before[i] is Closed) by {
        assert(before[i] == inputs[i]);
    }
    open_stream_keeps_running(before);
    run_answers_every_input(DriverState::Running, inputs);
    run_answers_every_input(DriverState::Running, before);
    run_of_prefix(DriverState::Running, inputs, index + 1);
    assert(until.last() == inputs[index]);
    assert(run(DriverState::Running, until).1[index] == transition(
        DriverState::Running,
        inputs[index],
    ).1);
}

/// Writes are issued in the order in which their events arrive: when two
/// events that both map to a record arrive on an open stream, each is answered
/// at once with the write of its own record, the earlier event's write before
/// the later one's.
pub proof fn writes_follow_arrival_order(inputs: Seq<InputView>, earlier: int, later: int)
    requires
        0 <= earlier < later < inputs.len(),
        open_for(inputs, later),
        inputs[earlier] matches InputView::Received(event) && record_of(event) is Some,
        inputs[later] matches InputView::Received(event) && record_of(event) is Some,
    ensures
        run(DriverState::Running, inputs).1.len() == inputs.len(),
        run(DriverState::Running, inputs).1[earlier] == ActionView::Persist(
            request_for(record_of(inputs[earlier]->Received_0)->Some_0),
        ),
        run(DriverState::Running, inputs).1[later] == ActionView::Persist(
            request_for(record_of(inputs[later]->Received_0)->Some_0),
        ),
{
    assert(open_for(inputs, earlier));
    action_while_open(inputs, earlier);
    action_while_open(inputs, later);
}

/// A failed write does not hold up the pipeline: the failure is answered with
/// its log entry and nothing else, after it the driver is still running, and
/// the next input is answered exactly as if no write had failed. If that
/// input is an event that maps to a record, the write of that record is
/// attempted.
pub proof fn failed_write_does_not_block(inputs: Seq<InputView>, failed: int)
    requires
        0 <= failed,
        failed + 1 < inputs.len(),
        open_for(inputs, failed + 1),
        inputs[failed] matches InputView::Written(_, outcome) && outcome is Err,
    ensures
        run(DriverState::Running, inputs).1.len() == inputs.len(),
        run(DriverState::Running, inputs).1[failed] == ActionView::Report(
            LogEntryView::Failed {
                key: inputs[failed]->Written_0.key,
                error: inputs[failed]->Written_1->Err_0,
            },
        ),
        run(DriverState::Running, inputs.take(failed + 1)).0 == DriverState::Running,
        run(DriverState::Running, inputs).1[failed + 1] == transition(
            DriverState::Running,
            inputs[failed + 1],
        ).1,
        inputs[failed + 1] matches InputView::Received(event) ==> (record_of(event) matches Some(
            record,
        ) ==> run(DriverState::Running, inputs).1[failed + 1] == ActionView::Persist(
            request_for(record),
        )),
{
    assert(open_for(inputs, failed));
    action_while_open(inputs, failed);
    action_while_open(inputs, failed + 1);
}

/// A stopped driver stays stopped and answers every input with `Stop`.
pub proof fn stopped_is_final(inputs: Seq<InputView>)
    ensures
        run(DriverState::Stopped, inputs).0 == DriverState::Stopped,
        run(DriverState::Stopped, inputs).1.len() == inputs.len(),
        forall|i: int|
            0 <= i < inputs.len() ==> #[trigger] run(DriverState::Stopped, inputs).1[i]
                == ActionView::Stop,
    decreases inputs.len(),
{
    if inputs.len() > 0 {
        stopped_is_final(inputs.drop_last());
    }
}

/// Once the stream source has closed no write is attempted: from the closing
/// input on the driver is stopped and every action is `Stop`, whatever state
/// it started in.
pub proof fn no_write_after_close(
    state: DriverState,
    inputs: Seq<InputView>,
    closed: int,
    index: int,
)
    requires
        0 <= closed <= index < inputs.len(),
        inputs[closed] is Closed,
    ensures
        run(state, inputs).0 == DriverState::Stopped,
        run(state, inputs).1.len() == inputs.len(),
        run(state, inputs).1[index] == ActionView::Stop,
    decreases inputs.len(),
{
    let shorter = inputs.drop_last();
    run_answers_every_input(state, shorter);
    if closed < shorter.len() {
        if index < shorter.len() {
            no_write_after_close(state, shorter, closed, index);
        } else {
            no_write_after_close(state, shorter, closed, closed);
        }
    }
}

} // verus!
