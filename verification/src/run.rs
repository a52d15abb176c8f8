//! Whole runs of the dispatcher: what it asks for, one action after another,
//! as the events come in, and what holds of every such run.

use vstd::prelude::*;
use crate::cli::{CommandView, IntentView, intent_of, spelled};
use crate::dispatch::{
    ActionView,
    EventView,
    InvocationView,
    StateView,
    advance,
    begin,
    unexpected,
    finished,
    name_prompt,
    no_sessions_notice,
};
use crate::picker::selection_request;
use crate::sessions::named;

verus! {

/// The state that a run is in once `events` have answered its actions, one
/// after another, starting in `state`.
pub open spec fn settle(state: StateView, events: Seq<EventView>) -> StateView
    decreases events.len(),
{
    if events.len() == 0 {
        state
    } else {
        settle(advance(state, events.first()).0, events.drop_first())
    }
}

/// The actions that answer `events`, one after another, starting in `state`.
pub open spec fn replies(state: StateView, events: Seq<EventView>) -> Seq<ActionView>
    decreases events.len(),
{
    if events.len() == 0 {
        Seq::empty()
    } else {
        seq![advance(state, events.first()).1] + replies(
            advance(state, events.first()).0,
            events.drop_first(),
        )
    }
}

/// Every action of the run that `command` begins and `events` drive: the
/// first action, then the answer to each event.
pub open spec fn run(command: Option<CommandView>, events: Seq<EventView>) -> Seq<ActionView> {
    seq![begin(command).1] + replies(begin(command).0, events)
}

/// Whether `action` is the one that a run in `state` is waiting on.
pub open spec fn awaits(state: StateView, action: ActionView) -> bool {
    match state {
        StateView::Listing | StateView::Resolving { .. } => action == ActionView::Enumerate,
        StateView::Picking { names, .. } => names.len() > 0 && action == ActionView::Pick(
            selection_request(names),
        ),
        StateView::Naming { .. } => action == (ActionView::Ask { prompt: name_prompt() }),
        StateView::Creating { name, .. } => action == ActionView::Invoke(
            InvocationView::Create { name },
        ),
        StateView::Finishing => action matches ActionView::Invoke(invocation)
            && !(invocation is Create),
        StateView::Done => action is Finish,
    }
}

/// The state and the action that the dispatcher hands out always belong
/// together: the action is the one that the state waits on.
pub proof fn action_matches_state(
    command: Option<CommandView>,
    state: StateView,
    event: EventView,
)
    ensures
        awaits(begin(command).0, begin(command).1),
        awaits(advance(state, event).0, advance(state, event).1),
{
}

/// The answers to a first event and to those after it: the answer to the
/// first, then the answers to the rest from the state that the first led to.
pub proof fn replies_after_first(state: StateView, first: EventView, rest: Seq<EventView>)
    ensures
        replies(state, seq![first] + rest) == seq![advance(state, first).1] + replies(
            advance(state, first).0,
            rest,
        ),
        replies(state, seq![first]) == seq![advance(state, first).1],
        settle(state, seq![first] + rest) == settle(advance(state, first).0, rest),
{
    let events = seq![first] + rest;
    assert(events.first() == first);
    assert(events.drop_first() =~= rest);
    let one = seq![first];
    assert(one.first() == first);
    assert(one.drop_first() =~= Seq::<EventView>::empty());
    assert(replies(advance(state, first).0, one.drop_first()) =~= Seq::<ActionView>::empty());
    assert(replies(state, one) =~= seq![advance(state, first).1]);
}

/// Once a run is over, every further event is answered with the same
/// finishing action, and the run stays over.
pub proof fn nothing_follows_the_end(events: Seq<EventView>)
    ensures
        settle(StateView::Done, events) == StateView::Done,
        replies(StateView::Done, events).len() == events.len(),
        forall|i: int|
            0 <= i < events.len() ==> #[trigger] replies(StateView::Done, events)[i]
                == unexpected().1,
    decreases events.len(),
{
    if events.len() > 0 {
        nothing_follows_the_end(events.drop_first());
    }
}

/// Every event is answered by exactly one action.
pub proof fn one_reply_per_event(state: StateView, events: Seq<EventView>)
    ensures
        replies(state, events).len() == events.len(),
    decreases events.len(),
{
    if events.len() > 0 {
        one_reply_per_event(advance(state, events.first()).0, events.drop_first());
    }
}

/// A run is over after at most three events, whatever they are.
pub proof fn run_ends_within_three_events(
    command: Option<CommandView>,
    events: Seq<EventView>,
)
    requires
        events.len() >= 3,
    ensures
        settle(begin(command).0, events) == StateView::Done,
{
    let s0 = begin(command).0;
    let s1 = advance(s0, events[0]).0;
    let s2 = advance(s1, events[1]).0;
    let s3 = advance(s2, events[2]).0;
    assert(s3 == StateView::Done);
    let rest = events.skip(3);
    assert(events =~= seq![events[0]] + (seq![events[1]] + (seq![events[2]] + rest)));
    replies_after_first(s0, events[0], seq![events[1]] + (seq![events[2]] + rest));
    replies_after_first(s1, events[1], seq![events[2]] + rest);
    replies_after_first(s2, events[2], rest);
    nothing_follows_the_end(rest);
}

/// The short and the long spelling of a subcommand, given the same
/// arguments, begin the same run: the same first action, and the same action
/// in answer to every event after it.
pub proof fn spellings_run_alike(intent: IntentView, events: Seq<EventView>)
    ensures
        begin(Some(spelled(intent, true))) == begin(Some(spelled(intent, false))),
        run(Some(spelled(intent, true)), events) == run(Some(spelled(intent, false)), events),
{
}

/// Attaching or killing without a target, when the listing yields no name,
/// prints that no sessions were found and ends successfully; the picker is
/// not asked for then, nor at any later point of the run.
pub proof fn empty_listing_ends_the_run(
    command: CommandView,
    entries: Seq<Option<Seq<char>>>,
    later: Seq<EventView>,
)
    requires
        intent_of(command) == (IntentView::Attach { session: None }) || intent_of(command) == (
            IntentView::Kill { session: None }
        ),
        named(entries).len() == 0,
    ensures
        begin(Some(command)).1 == ActionView::Enumerate,
        advance(begin(Some(command)).0, EventView::Listed { entries }) == finished(
            seq![no_sessions_notice()],
        ),
        ({
            let actions = run(Some(command), seq![EventView::Listed { entries }] + later);
            forall|i: int| 0 <= i < actions.len() ==> !(#[trigger] actions[i] is Pick)
        }),
{
    let state = begin(Some(command)).0;
    replies_after_first(state, EventView::Listed { entries }, later);
    nothing_follows_the_end(later);
}

/// Creating a session asks for its name, then creates it under that name,
/// and attaches to it afterwards exactly where attaching was asked for and
/// the creation succeeded. Where the creation did not succeed the run ends
/// in failure, and no event after that makes the dispatcher attach, or run
/// any other session command.
pub proof fn creation_comes_before_attaching(
    command: CommandView,
    name: Seq<char>,
    outcome: EventView,
    later: Seq<EventView>,
)
    requires
        intent_of(command) is New,
    ensures
        ({
            let actions = run(Some(command), seq![EventView::Named { name }, outcome] + later);
            let created = outcome matches EventView::Exited { success: true, .. };
            &&& actions.len() == 3 + later.len()
            &&& actions[0] == ActionView::Ask { prompt: name_prompt() }
            &&& actions[1] == ActionView::Invoke(InvocationView::Create { name })
            &&& actions[2] == ActionView::Invoke(InvocationView::Attach { target: name }) <==> (
                created && intent_of(command)->attach
            )
            &&& !created ==> forall|i: int|
                2 <= i < actions.len() ==> (#[trigger] actions[i] matches ActionView::Finish(
                    report,
                ) && report.failure is Some)
        }),
{
    let state = begin(Some(command)).0;
    let attach = intent_of(command)->attach;
    let naming = EventView::Named { name };
    let creating = StateView::Creating { name, attach };
    assert(advance(state, naming).0 == creating);
    assert(seq![naming, outcome] + later =~= seq![naming] + (seq![outcome] + later));
    replies_after_first(state, naming, seq![outcome] + later);
    replies_after_first(creating, outcome, later);
    one_reply_per_event(advance(creating, outcome).0, later);
    if !(outcome matches EventView::Exited { success: true, .. }) {
        nothing_follows_the_end(later);
    }
}

} // verus!
