//! What holds of whole invocations: sequences of steps, whatever the toolkit
//! and the user do.

use crate::chooser::RESPONSE_ACCEPT;
use crate::filter::Filter;
use crate::lifecycle::TOOLKIT_TRUE;
use crate::session::{
    chosen_many, chosen_one, Action, Chosen, DialogSetup, Event, Operation, Session, Stage, Teardown,
};
use crate::text::byte_strings;
use vstd::prelude::*;

verus! {

/// The three sequences record an invocation: each event takes the session
/// before it to the session after it and is answered by the action at the
/// same place.
pub open spec fn is_run(states: Seq<Session>, events: Seq<Event>, actions: Seq<Action>) -> bool {
    &&& states.len() == events.len() + 1
    &&& actions.len() == events.len()
    &&& forall|i: int|
        0 <= i < events.len() ==> states[i].steps_to(
            #[trigger] &events[i],
            &states[i + 1],
            &actions[i],
        )
}

/// How many times the caller was asked to build a dialog.
pub open spec fn builds(actions: Seq<Action>) -> nat
    decreases actions.len(),
{
    if actions.len() == 0 {
        0
    } else if actions.last() is Build {
        builds(actions.drop_last()) + 1
    } else {
        builds(actions.drop_last())
    }
}

/// How many times the caller was asked to destroy the dialog.
pub open spec fn destroys(actions: Seq<Action>) -> nat
    decreases actions.len(),
{
    if actions.len() == 0 {
        0
    } else if actions.last() is Destroy {
        destroys(actions.drop_last()) + 1
    } else {
        destroys(actions.drop_last())
    }
}

/// How many times the caller was asked to do anything but hand a result
/// back or stay idle, that is, to touch the toolkit.
pub open spec fn toolkit_requests(actions: Seq<Action>) -> nat
    decreases actions.len(),
{
    if actions.len() == 0 {
        0
    } else if actions.last() is Idle || actions.last() is Return {
        toolkit_requests(actions.drop_last())
    } else {
        toolkit_requests(actions.drop_last()) + 1
    }
}

/// How many times a result was handed back.
pub open spec fn handed_back(actions: Seq<Action>) -> nat
    decreases actions.len(),
{
    if actions.len() == 0 {
        0
    } else if actions.last() is Return {
        handed_back(actions.drop_last()) + 1
    } else {
        handed_back(actions.drop_last())
    }
}

/// The numbers of builds, destroys and results that can stand behind a stage.
pub open spec fn balanced(stage: Stage, built: nat, destroyed: nat, returned: nat) -> bool {
    match stage {
        Stage::Uninitialized => built == 0 && destroyed == 0 && returned == 0,
        Stage::Built | Stage::Run | Stage::Accepted => built == 1 && destroyed == 0 && returned == 0,
        Stage::Collected(phase) | Stage::Cancelled(phase) => built == 1 && returned == 0 && destroyed
            == (if phase is DrainingBefore {
            0nat
        } else {
            1nat
        }),
        Stage::Destroyed => built == destroyed && built <= 1 && returned == 1,
    }
}

proof fn balance_of_prefix(states: Seq<Session>, events: Seq<Event>, actions: Seq<Action>, n: int)
    requires
        is_run(states, events, actions),
        states[0].stage is Uninitialized,
        0 <= n <= events.len(),
    ensures
        balanced(
            states[n].stage,
            builds(actions.take(n)),
            destroys(actions.take(n)),
            handed_back(actions.take(n)),
        ),
    decreases n,
{
    if n > 0 {
        balance_of_prefix(states, events, actions, n - 1);
        assert(actions.take(n).drop_last() =~= actions.take(n - 1));
        assert(actions.take(n).last() == actions[n - 1]);
        assert(states[n - 1].steps_to(&events[n - 1], &states[n], &actions[n - 1]));
    } else {
        assert(actions.take(0) =~= Seq::<Action>::empty());
    }
}

/// In every invocation at most one dialog is built, a dialog is destroyed at
/// most once and only if it was built, and an invocation that is over has
/// destroyed the dialog it built: exactly once, whether the user confirmed
/// or not. A result is handed back exactly once, when the invocation ends.
pub proof fn one_destroy_per_built_dialog(
    states: Seq<Session>,
    events: Seq<Event>,
    actions: Seq<Action>,
)
    requires
        is_run(states, events, actions),
        states[0].stage is Uninitialized,
    ensures
        builds(actions) <= 1,
        destroys(actions) <= builds(actions),
        states.last().stage is Destroyed ==> destroys(actions) == builds(actions),
        handed_back(actions) == (if states.last().stage is Destroyed {
            1nat
        } else {
            0nat
        }),
{
    balance_of_prefix(states, events, actions, events.len() as int);
    assert(actions.take(events.len() as int) =~= actions);
}

proof fn quiet_after_failure(states: Seq<Session>, events: Seq<Event>, actions: Seq<Action>, n: int)
    requires
        is_run(states, events, actions),
        states[0].stage is Uninitialized,
        events.len() >= 1,
        events[0] is InitChecked,
        events[0]->InitChecked_0 != TOOLKIT_TRUE,
        1 <= n <= events.len(),
    ensures
        states[n].stage is Destroyed,
        actions[n - 1] is Idle || actions[n - 1] is Return,
        n > 1 ==> actions[n - 1] is Idle,
        toolkit_requests(actions.take(n)) == 0,
    decreases n,
{
    if n > 1 {
        quiet_after_failure(states, events, actions, n - 1);
    } else {
        assert(actions.take(0) =~= Seq::<Action>::empty());
        assert(toolkit_requests(actions.take(0)) == 0);
    }
    assert(states[n - 1].steps_to(&events[n - 1], &states[n], &actions[n - 1]));
    assert(actions.take(n).drop_last() =~= actions.take(n - 1));
    assert(actions.take(n).last() == actions[n - 1]);
}

/// When the toolkit fails to initialise, the invocation is over at once: it
/// yields nothing, and whatever is reported afterwards, the caller is never
/// asked to touch the toolkit.
pub proof fn failed_initialisation_ends_invocation(
    states: Seq<Session>,
    events: Seq<Event>,
    actions: Seq<Action>,
)
    requires
        is_run(states, events, actions),
        states[0].stage is Uninitialized,
        events.len() >= 1,
        events[0] is InitChecked,
        events[0]->InitChecked_0 != TOOLKIT_TRUE,
    ensures
        actions[0] is Return,
        actions[0]->Return_0@ is Absent,
        forall|i: int| 1 <= i < actions.len() ==> (#[trigger] actions[i]) is Idle,
        forall|i: int| 1 <= i < states.len() ==> (#[trigger] states[i]).stage is Destroyed,
        toolkit_requests(actions) == 0,
{
    assert(states[0].steps_to(&events[0], &states[1], &actions[0]));
    assert forall|i: int| 1 <= i < actions.len() implies (#[trigger] actions[i]) is Idle by {
        quiet_after_failure(states, events, actions, i + 1);
    }
    assert forall|i: int| 1 <= i < states.len() implies (#[trigger] states[i]).stage
        is Destroyed by {
        quiet_after_failure(states, events, actions, i);
    }
    quiet_after_failure(states, events, actions, events.len() as int);
    assert(actions.take(events.len() as int) =~= actions);
}

/// A result is handed back only at the end of an initialisation that
/// failed, before any dialog exists, or on the toolkit's answer that nothing
/// is pending, after the one dialog of the invocation has been destroyed.
pub proof fn result_follows_the_last_drain(
    states: Seq<Session>,
    events: Seq<Event>,
    actions: Seq<Action>,
    at: int,
)
    requires
        is_run(states, events, actions),
        states[0].stage is Uninitialized,
        0 <= at < actions.len(),
        actions[at] is Return,
    ensures
        events[at] is InitChecked || events[at] is Pending,
        events[at] is InitChecked ==> events[at]->InitChecked_0 != TOOLKIT_TRUE && builds(
            actions.take(at),
        ) == 0,
        events[at] is Pending ==> events[at]->Pending_0 != TOOLKIT_TRUE && destroys(
            actions.take(at),
        ) == 1,
{
    balance_of_prefix(states, events, actions, at);
    assert(states[at].steps_to(&events[at], &states[at + 1], &actions[at]));
}

/// The dialog is gone or going: its destruction has been asked for.
pub open spec fn dialog_gone(stage: Stage) -> bool {
    stage is Destroyed || stage.teardown() == Some(Teardown::Destroying) || stage.teardown()
        == Some(Teardown::DrainingAfter)
}

/// The action only drains the event queue, hands the result back, or does
/// nothing.
pub open spec fn drains_or_ends(action: Action) -> bool {
    action is AskPending || action is Iterate || action is Return || action is Idle
}

proof fn after_destruction(
    states: Seq<Session>,
    events: Seq<Event>,
    actions: Seq<Action>,
    at: int,
    n: int,
)
    requires
        is_run(states, events, actions),
        0 <= at < n <= events.len(),
        actions[at] is Destroy,
    ensures
        dialog_gone(states[n].stage),
        n - 1 > at ==> drains_or_ends(actions[n - 1]),
        n - 1 > at && actions[n - 1] is Return ==> events[n - 1] is Pending && events[n
            - 1]->Pending_0 != TOOLKIT_TRUE,
    decreases n - at,
{
    if n - 1 > at {
        after_destruction(states, events, actions, at, n - 1);
    }
    assert(states[n - 1].steps_to(&events[n - 1], &states[n], &actions[n - 1]));
}

/// The teardown runs in order. The dialog is destroyed only on the toolkit's
/// answer that nothing is pending. Once its destruction has been asked for,
/// the caller is asked for nothing but to drain the event queue, and the
/// result is handed back only on the answer that nothing is pending any more.
pub proof fn events_are_drained_around_the_destruction(
    states: Seq<Session>,
    events: Seq<Event>,
    actions: Seq<Action>,
    at: int,
)
    requires
        is_run(states, events, actions),
        0 <= at < actions.len(),
        actions[at] is Destroy,
    ensures
        events[at] is Pending,
        events[at]->Pending_0 != TOOLKIT_TRUE,
        forall|j: int| at < j < actions.len() ==> drains_or_ends(#[trigger] actions[j]),
        forall|j: int|
            at < j < actions.len() && (#[trigger] actions[j]) is Return ==> events[j] is Pending
                && events[j]->Pending_0 != TOOLKIT_TRUE,
{
    assert(states[at].steps_to(&events[at], &states[at + 1], &actions[at]));
    assert forall|j: int| at < j < actions.len() implies drains_or_ends(#[trigger] actions[j]) && (
    actions[j] is Return ==> events[j] is Pending && events[j]->Pending_0 != TOOLKIT_TRUE) by {
        after_destruction(states, events, actions, at, j + 1);
    }
}

proof fn teardown_keeps_what_is_owed(
    states: Seq<Session>,
    events: Seq<Event>,
    actions: Seq<Action>,
    from: int,
    n: int,
)
    requires
        is_run(states, events, actions),
        0 <= from <= n <= events.len(),
        states[from].stage.teardown() is Some,
    ensures
        states[n].stage is Destroyed || (states[n].stage.teardown() is Some && states[n].owed()
            == states[from].owed()),
        n > from ==> !(actions[n - 1] is FetchFilename) && !(actions[n - 1] is FetchFilenames)
            && !(actions[n - 1] is Build) && !(actions[n - 1] is Run),
        n > from && actions[n - 1] is Return ==> actions[n - 1]->Return_0@ == states[from].owed(),
    decreases n - from,
{
    if n > from {
        teardown_keeps_what_is_owed(states, events, actions, from, n - 1);
        assert(states[n - 1].steps_to(&events[n - 1], &states[n], &actions[n - 1]));
    }
}

/// A response other than the confirm code yields nothing, for every
/// operation: no selection is read, and whatever the invocation hands back
/// afterwards is absent.
pub proof fn other_response_yields_nothing(
    states: Seq<Session>,
    events: Seq<Event>,
    actions: Seq<Action>,
    at: int,
)
    requires
        is_run(states, events, actions),
        0 <= at < events.len(),
        states[at].stage is Run,
        events[at] is Response,
        events[at]->Response_0 != RESPONSE_ACCEPT,
    ensures
        actions[at] is AskPending,
        states[at + 1].stage == Stage::Cancelled(Teardown::DrainingBefore),
        forall|j: int|
            at < j < actions.len() ==> !((#[trigger] actions[j]) is FetchFilename) && !(actions[j]
                is FetchFilenames),
        forall|j: int|
            at < j < actions.len() && (#[trigger] actions[j]) is Return
                ==> actions[j]->Return_0@ is Absent,
{
    assert(states[at].steps_to(&events[at], &states[at + 1], &actions[at]));
    assert forall|j: int| at < j < actions.len() implies !((#[trigger] actions[j])
        is FetchFilename) && !(actions[j] is FetchFilenames) && (actions[j] is Return
        ==> actions[j]->Return_0@ is Absent) by {
        teardown_keeps_what_is_owed(states, events, actions, at + 1, j + 1);
    }
}

/// A confirmed single selection yields the decoded filename, or nothing
/// when its bytes are not valid UTF-8.
pub proof fn confirmed_choice_is_returned(
    states: Seq<Session>,
    events: Seq<Event>,
    actions: Seq<Action>,
    at: int,
)
    requires
        is_run(states, events, actions),
        0 <= at,
        at + 1 < events.len(),
        states[at].stage is Run,
        !states[at].operation.selects_multiple(),
        events[at] is Response,
        events[at]->Response_0 == RESPONSE_ACCEPT,
        events[at + 1] is Filename,
    ensures
        actions[at] is FetchFilename,
        actions[at + 1] is AskPending,
        forall|j: int|
            at + 1 < j < actions.len() && (#[trigger] actions[j]) is Return
                ==> actions[j]->Return_0@ == chosen_one(events[at + 1]->Filename_0@),
{
    assert(states[at].steps_to(&events[at], &states[at + 1], &actions[at]));
    assert(states[at + 1].steps_to(&events[at + 1], &states[at + 2], &actions[at + 1]));
    assert forall|j: int|
        at + 1 < j < actions.len() && (#[trigger] actions[j]) is Return implies actions[j]->Return_0@
        == chosen_one(events[at + 1]->Filename_0@) by {
        teardown_keeps_what_is_owed(states, events, actions, at + 2, j + 1);
    }
}

/// A confirmed multiple selection yields every well-formed filename, in the
/// toolkit's order, and nothing when no well-formed filename is left: a
/// list that is handed back is never empty. Malformed entries never make the
/// invocation fail.
pub proof fn confirmed_choices_are_returned(
    states: Seq<Session>,
    events: Seq<Event>,
    actions: Seq<Action>,
    at: int,
)
    requires
        is_run(states, events, actions),
        0 <= at,
        at + 1 < events.len(),
        states[at].stage is Run,
        states[at].operation.selects_multiple(),
        events[at] is Response,
        events[at]->Response_0 == RESPONSE_ACCEPT,
        events[at + 1] is Filenames,
    ensures
        actions[at] is FetchFilenames,
        actions[at + 1] is AskPending,
        forall|j: int|
            at + 1 < j < actions.len() && (#[trigger] actions[j]) is Return
                ==> actions[j]->Return_0@ == chosen_many(
                byte_strings(events[at + 1]->Filenames_0@),
            ),
        chosen_many(byte_strings(events[at + 1]->Filenames_0@)) is Absent || (chosen_many(
            byte_strings(events[at + 1]->Filenames_0@),
        ) is Many && chosen_many(byte_strings(events[at + 1]->Filenames_0@))->Many_0.len() >= 1),
{
    assert(states[at].steps_to(&events[at], &states[at + 1], &actions[at]));
    assert(states[at + 1].steps_to(&events[at + 1], &states[at + 2], &actions[at + 1]));
    assert forall|j: int|
        at + 1 < j < actions.len() && (#[trigger] actions[j]) is Return implies actions[j]->Return_0@
        == chosen_many(byte_strings(events[at + 1]->Filenames_0@)) by {
        teardown_keeps_what_is_owed(states, events, actions, at + 2, j + 1);
    }
}

/// The selection is not a list without entries.
pub open spec fn no_empty_list(chosen: Chosen) -> bool {
    chosen is Many ==> chosen->Many_0.len() >= 1
}

proof fn held_selection_is_no_empty_list(
    states: Seq<Session>,
    events: Seq<Event>,
    actions: Seq<Action>,
    n: int,
)
    requires
        is_run(states, events, actions),
        no_empty_list(states[0].selection@),
        0 <= n <= events.len(),
    ensures
        no_empty_list(states[n].selection@),
        n > 0 && actions[n - 1] is Return ==> no_empty_list(actions[n - 1]->Return_0@),
    decreases n,
{
    if n > 0 {
        held_selection_is_no_empty_list(states, events, actions, n - 1);
        assert(states[n - 1].steps_to(&events[n - 1], &states[n], &actions[n - 1]));
    }
}

/// Whatever the toolkit reports, an invocation never hands back a list
/// without entries: a result is absent, one path, or at least one path.
pub proof fn no_empty_list_is_returned(
    states: Seq<Session>,
    events: Seq<Event>,
    actions: Seq<Action>,
)
    requires
        is_run(states, events, actions),
        no_empty_list(states[0].selection@),
    ensures
        forall|j: int|
            0 <= j < actions.len() && (#[trigger] actions[j]) is Return ==> no_empty_list(
                actions[j]->Return_0@,
            ),
{
    assert forall|j: int| 0 <= j < actions.len() && (#[trigger] actions[j]) is Return implies no_empty_list(
        actions[j]->Return_0@,
    ) by {
        held_selection_is_no_empty_list(states, events, actions, j + 1);
    }
}

/// Overwrite confirmation is switched on for saving and for nothing else;
/// multiple selection for picking several files and for nothing else.
pub proof fn switches_follow_operation(setup: DialogSetup, operation: Operation, filters: Seq<Filter>)
    requires
        setup.configures(operation, filters),
    ensures
        setup.overwrite_confirmation <==> operation is SaveFile,
        setup.select_multiple <==> operation is PickFiles,
{
}

/// A dialog that offers filters gets one group per configured filter, in the
/// order supplied, each with the filter's label and exactly one
/// `*.<extension>` pattern per extension, in order.
pub proof fn every_filter_is_registered(setup: DialogSetup, operation: Operation, filters: Seq<Filter>)
    requires
        setup.configures(operation, filters),
        operation.offers_filters(),
    ensures
        setup.groups@.len() == filters.len(),
        forall|i: int|
            0 <= i < filters.len() ==> (#[trigger] setup.groups@[i]).name@ == filters[i].name@
                + seq!['\0'],
        forall|i: int|
            0 <= i < filters.len() ==> (#[trigger] setup.groups@[i]).patterns@.len()
                == filters[i].extensions@.len(),
        forall|i: int, j: int|
            0 <= i < filters.len() && 0 <= j < filters[i].extensions@.len() ==> (
            #[trigger] setup.groups@[i].patterns@[j])@ == seq!['*', '.']
                + filters[i].extensions@[j]@ + seq!['\0'],
{
    assert forall|i: int| 0 <= i < filters.len() implies (#[trigger] setup.groups@[i]).name@
        == filters[i].name@ + seq!['\0'] && setup.groups@[i].patterns@.len()
        == filters[i].extensions@.len() by {
        assert(setup.groups@[i].registers(&filters[i]));
    }
    assert forall|i: int, j: int|
        0 <= i < filters.len() && 0 <= j < filters[i].extensions@.len() implies (
    #[trigger] setup.groups@[i].patterns@[j])@ == seq!['*', '.'] + filters[i].extensions@[j]@
        + seq!['\0'] by {
        assert(setup.groups@[i].registers(&filters[i]));
    }
}

} // verus!
