//! What holds of whole runs: the actions that a session hands out when it
//! is fed a sequence of events, and what can be said of them whatever the
//! events are.

use crate::message::{
    contains_text, interpreter_missing_text, lemma_tool_failure_holds_both_streams, success_text,
    tool_failure_text,
};
use crate::output::{lossy_text, verdict_of, ProcessOutputView};
use crate::session::{opening_session, transition, ActionView, EventView, SessionView};
use vstd::prelude::*;

verus! {

/// The actions that a session hands out, in order, while it is fed `events`
/// one by one. An event that is no answer to the action that is out is
/// passed over.
pub open spec fn actions_of(session: SessionView, events: Seq<EventView>) -> Seq<ActionView>
    decreases events.len(),
{
    if events.len() == 0 {
        Seq::empty()
    } else {
        match transition(session, events[0]) {
            Some((next, action)) => seq![action] + actions_of(next, events.drop_first()),
            None => actions_of(session, events.drop_first()),
        }
    }
}

/// `action` reports a generated PDF.
pub open spec fn is_success(action: ActionView) -> bool {
    action matches ActionView::Finish { verdict: Ok(_) }
}

/// The text that a session in this state reports if it ever reports
/// success.
spec fn success_due(session: SessionView, text: Seq<char>) -> bool {
    match session {
        SessionView::Staging { output_path, .. } => text == success_text(output_path),
        SessionView::Probing { output_path, .. } => text == success_text(output_path),
        SessionView::Generating { output_path } => text == success_text(output_path),
        SessionView::Cleaning { verdict } => verdict == Ok::<Seq<char>, Seq<char>>(text),
        SessionView::Finished => false,
    }
}

proof fn lemma_unfold_first(session: SessionView, first: EventView, rest: Seq<EventView>)
    ensures
        actions_of(session, seq![first] + rest) == match transition(session, first) {
            Some((next, action)) => seq![action] + actions_of(next, rest),
            None => actions_of(session, rest),
        },
{
    let events = seq![first] + rest;
    assert(events[0] == first);
    assert(events.drop_first() =~= rest);
}

/// A session that has handed out its verdict hands out nothing more.
pub proof fn lemma_finished_session_is_silent(events: Seq<EventView>)
    ensures
        actions_of(SessionView::Finished, events) == Seq::<ActionView>::empty(),
    decreases events.len(),
{
    if events.len() > 0 {
        lemma_finished_session_is_silent(events.drop_first());
    }
}

/// When the probe cannot be started, the session reports that Perl is
/// missing and hands out nothing else, whatever events follow: no
/// generation run is asked for, and nothing is removed.
pub proof fn lemma_missing_interpreter_ends_session(
    output_path: Seq<char>,
    input_path: Option<Seq<char>>,
    rest: Seq<EventView>,
)
    ensures
        actions_of(
            SessionView::Probing { output_path, input_path },
            seq![EventView::ProbeNotSpawned] + rest,
        ) == seq![ActionView::Finish { verdict: Err(interpreter_missing_text()) }],
{
    let session = SessionView::Probing { output_path, input_path };
    lemma_unfold_first(session, EventView::ProbeNotSpawned, rest);
    lemma_finished_session_is_silent(rest);
    assert(seq![ActionView::Finish { verdict: Err(interpreter_missing_text()) }] + Seq::<
        ActionView,
    >::empty() =~= seq![ActionView::Finish { verdict: Err(interpreter_missing_text()) }]);
}

/// A generation run that has ended is followed by the removal of the input
/// file, whether the run succeeded or failed.
pub proof fn lemma_cleanup_follows_generation(
    output_path: Seq<char>,
    output: ProcessOutputView,
    rest: Seq<EventView>,
)
    ensures
        actions_of(
            SessionView::Generating { output_path },
            seq![EventView::GenerationExited { output }] + rest,
        ).len() >= 1,
        actions_of(
            SessionView::Generating { output_path },
            seq![EventView::GenerationExited { output }] + rest,
        )[0] == ActionView::RemoveInput,
{
    let session = SessionView::Generating { output_path };
    lemma_unfold_first(session, EventView::GenerationExited { output }, rest);
}

/// After a generation run that ended in failure and the removal of the
/// input file, the session reports a failure whose text holds, unaltered,
/// what the run wrote to its error stream and what it wrote to its output
/// stream, each as decoded.
pub proof fn lemma_failed_run_reports_both_streams(
    output_path: Seq<char>,
    output: ProcessOutputView,
    rest: Seq<EventView>,
)
    requires
        !output.success,
    ensures
        actions_of(
            SessionView::Generating { output_path },
            seq![EventView::GenerationExited { output }, EventView::InputRemoved] + rest,
        ) == seq![
            ActionView::RemoveInput,
            ActionView::Finish {
                verdict: Err(
                    tool_failure_text(lossy_text(output.stderr), lossy_text(output.stdout)),
                ),
            },
        ],
        contains_text(
            tool_failure_text(lossy_text(output.stderr), lossy_text(output.stdout)),
            lossy_text(output.stderr),
        ),
        contains_text(
            tool_failure_text(lossy_text(output.stderr), lossy_text(output.stdout)),
            lossy_text(output.stdout),
        ),
{
    let session = SessionView::Generating { output_path };
    let cleaning = SessionView::Cleaning { verdict: verdict_of(output_path, output) };
    let exited = EventView::GenerationExited { output };
    let removed = EventView::InputRemoved;
    let report = ActionView::Finish { verdict: verdict_of(output_path, output) };
    assert(seq![exited, removed] + rest =~= seq![exited] + (seq![removed] + rest));
    lemma_unfold_first(session, exited, seq![removed] + rest);
    lemma_unfold_first(cleaning, removed, rest);
    lemma_finished_session_is_silent(rest);
    assert(seq![ActionView::RemoveInput] + (seq![report] + Seq::<ActionView>::empty()) =~= seq![
        ActionView::RemoveInput,
        report,
    ]);
    lemma_tool_failure_holds_both_streams(lossy_text(output.stderr), lossy_text(output.stdout));
}

/// The verdict is the last thing that a run hands out: nothing follows it,
/// and so no run hands out two.
pub proof fn lemma_verdict_ends_run(session: SessionView, events: Seq<EventView>, at: int)
    requires
        0 <= at < actions_of(session, events).len(),
        actions_of(session, events)[at] is Finish,
    ensures
        at == actions_of(session, events).len() - 1,
    decreases events.len(),
{
    let rest = events.drop_first();
    match transition(session, events[0]) {
        Some((next, action)) => {
            if at >= 1 {
                lemma_verdict_ends_run(next, rest, at - 1);
            } else {
                lemma_finished_session_is_silent(rest);
            }
        },
        None => {
            lemma_verdict_ends_run(session, rest, at);
        },
    }
}

proof fn lemma_generation_in_trace(session: SessionView, events: Seq<EventView>, at: int)
    requires
        0 <= at < actions_of(session, events).len(),
        actions_of(session, events)[at] is Generate,
    ensures
        session is Staging || session is Probing,
        events.contains(EventView::ProbeSpawned),
    decreases events.len(),
{
    let rest = events.drop_first();
    match transition(session, events[0]) {
        Some((next, action)) => {
            if at >= 1 {
                lemma_generation_in_trace(next, rest, at - 1);
            } else {
                assert(events[0] == EventView::ProbeSpawned);
            }
        },
        None => {
            lemma_generation_in_trace(session, rest, at);
        },
    }
    if !events.contains(EventView::ProbeSpawned) {
        let found = choose|i: int| 0 <= i < rest.len() && rest[i] == EventView::ProbeSpawned;
        assert(events[found + 1] == EventView::ProbeSpawned);
    }
}

/// A run asks for the generation run only if a probe was started: where no
/// event tells of a started probe, no generation run is among the actions.
pub proof fn lemma_generation_needs_started_probe(
    output_path: Seq<char>,
    input_path: Option<Seq<char>>,
    events: Seq<EventView>,
    at: int,
)
    requires
        0 <= at < actions_of(opening_session(output_path, input_path), events).len(),
        actions_of(opening_session(output_path, input_path), events)[at] is Generate,
    ensures
        events.contains(EventView::ProbeSpawned),
{
    lemma_generation_in_trace(opening_session(output_path, input_path), events, at);
}

/// A run asks for the generation run at most once: there is no second
/// attempt, whatever the first one came to.
pub proof fn lemma_generation_is_asked_once(
    session: SessionView,
    events: Seq<EventView>,
    first: int,
    second: int,
)
    requires
        0 <= first <= second < actions_of(session, events).len(),
        actions_of(session, events)[first] is Generate,
        actions_of(session, events)[second] is Generate,
    ensures
        first == second,
    decreases events.len(),
{
    let rest = events.drop_first();
    match transition(session, events[0]) {
        Some((next, action)) => {
            if first >= 1 {
                lemma_generation_is_asked_once(next, rest, first - 1, second - 1);
            } else if second >= 1 {
                lemma_generation_in_trace(next, rest, second - 1);
            }
        },
        None => {
            lemma_generation_is_asked_once(session, rest, first, second);
        },
    }
}

proof fn lemma_success_in_trace(session: SessionView, events: Seq<EventView>, at: int)
    requires
        0 <= at < actions_of(session, events).len(),
        is_success(actions_of(session, events)[at]),
    ensures
        success_due(session, actions_of(session, events)[at]->verdict->Ok_0),
        at == 0 ==> session is Cleaning,
        at >= 1 ==> actions_of(session, events)[at - 1] == ActionView::RemoveInput,
    decreases events.len(),
{
    let rest = events.drop_first();
    match transition(session, events[0]) {
        Some((next, action)) => {
            if at >= 1 {
                lemma_success_in_trace(next, rest, at - 1);
            }
        },
        None => {
            lemma_success_in_trace(session, rest, at);
        },
    }
}

/// Wherever a run reports success, the action just before the report is the
/// removal of the input file, and the report is the success text for the
/// output path of the request.
pub proof fn lemma_success_follows_cleanup(
    output_path: Seq<char>,
    input_path: Option<Seq<char>>,
    events: Seq<EventView>,
    at: int,
)
    requires
        0 <= at < actions_of(opening_session(output_path, input_path), events).len(),
        is_success(actions_of(opening_session(output_path, input_path), events)[at]),
    ensures
        at >= 1,
        actions_of(opening_session(output_path, input_path), events)[at - 1]
            == ActionView::RemoveInput,
        actions_of(opening_session(output_path, input_path), events)[at] == (ActionView::Finish {
            verdict: Ok(success_text(output_path)),
        }),
{
    lemma_success_in_trace(opening_session(output_path, input_path), events, at);
}

} // verus!
