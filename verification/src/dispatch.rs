//! The dispatcher: from what the user asked for, and from what each outside
//! step came to, to the next outside step.
//!
//! The dispatcher is a state machine. [`start`] turns the parsed command line
//! into a first [`Action`]; the caller carries the action out and reports the
//! [`Event`] that came of it to [`step`], which answers with the next action,
//! until the action is [`Action::Finish`].

use vstd::prelude::*;
use crate::cli::{Command, CommandView, Intent, IntentView, intent_of};
use crate::picker::{
    PickRequest,
    PickRequestView,
    Selection,
    copy_names,
    pick_request,
    resolve_selection,
    selection_request,
};
use crate::sessions::{named, session_names};

verus! {

/// An operation that acts on one existing session.
#[derive(Clone, Copy, Debug, PartialEq, Eq)]
pub enum Operation {
    Attach,
    Kill,
}

/// A session command for the multiplexer.
#[derive(Debug, PartialEq, Eq)]
pub enum Invocation {
    /// Attach the terminal to the session `target`.
    Attach { target: String },
    /// Kill the session `target`.
    Kill { target: String },
    /// Create the session `name` without attaching to it.
    Create { name: String },
}

/// The kind of failure that ends a run.
#[derive(Clone, Copy, Debug, PartialEq, Eq)]
pub enum FailureKind {
    /// The multiplexer could not be run, or reported a failure.
    External,
    /// An interactive prompt could not be shown or read.
    Interactive,
    /// The event reported does not answer the action that was pending.
    Protocol,
}

/// Why a run failed.
#[derive(Debug, PartialEq, Eq)]
pub struct Failure {
    pub kind: FailureKind,
    /// What to tell the user, on the error stream.
    pub message: String,
}

/// How a run ends: what it prints, and whether it failed.
#[derive(Debug, PartialEq, Eq)]
pub struct Report {
    /// The lines to print on standard output, in order.
    pub lines: Vec<String>,
    /// The failure that ended the run, if one did. A run without one exits
    /// with status zero, a run with one with another status.
    pub failure: Option<Failure>,
}

/// What the caller is to do next.
#[derive(Debug, PartialEq, Eq)]
pub enum Action {
    /// Ask the multiplexer for its sessions. Answered by [`Event::Listed`].
    Enumerate,
    /// Let the user pick one of the items. Answered by [`Event::Picked`].
    Pick(PickRequest),
    /// Ask the user for a line of text. Answered by [`Event::Named`].
    Ask { prompt: String },
    /// Run a session command. Answered by [`Event::Exited`].
    Invoke(Invocation),
    /// Print the report and leave. Nothing answers this.
    Finish(Report),
}

/// What came of the action that was pending.
#[derive(Debug, PartialEq, Eq)]
pub enum Event {
    /// The multiplexer listed its sessions: one entry each, with the
    /// session's name where it has one.
    Listed { entries: Vec<Option<String>> },
    /// The user picked the item at this index, or none.
    Picked { choice: Option<usize> },
    /// The user entered this text.
    Named { name: String },
    /// The session command ran and reported success or failure; `diagnostics`
    /// is what it wrote on its error stream.
    Exited { success: bool, diagnostics: String },
    /// The action could not be carried out, for the reason given.
    Failed { reason: String },
}

/// Where a run stands: what the pending action was issued for.
#[derive(Debug, PartialEq, Eq)]
pub enum State {
    /// The sessions are being listed in order to print them.
    Listing,
    /// The sessions are being listed in order to pick a target for `op`.
    Resolving { op: Operation },
    /// The user is picking the target of `op` among `names`.
    Picking { op: Operation, names: Vec<String> },
    /// The user is naming the session to create.
    Naming { attach: bool },
    /// The session `name` is being created.
    Creating { name: String, attach: bool },
    /// The last session command of the run is under way.
    Finishing,
    /// The run is over.
    Done,
}

/// Mathematical model of an [`Invocation`].
pub ghost enum InvocationView {
    Attach { target: Seq<char> },
    Kill { target: Seq<char> },
    Create { name: Seq<char> },
}

/// Mathematical model of a [`Failure`].
pub ghost struct FailureView {
    pub kind: FailureKind,
    pub message: Seq<char>,
}

/// Mathematical model of a [`Report`].
pub ghost struct ReportView {
    pub lines: Seq<Seq<char>>,
    pub failure: Option<FailureView>,
}

/// Mathematical model of an [`Action`].
pub ghost enum ActionView {
    Enumerate,
    Pick(PickRequestView),
    Ask { prompt: Seq<char> },
    Invoke(InvocationView),
    Finish(ReportView),
}

/// Mathematical model of an [`Event`].
pub ghost enum EventView {
    Listed { entries: Seq<Option<Seq<char>>> },
    Picked { choice: Option<usize> },
    Named { name: Seq<char> },
    Exited { success: bool, diagnostics: Seq<char> },
    Failed { reason: Seq<char> },
}

/// Mathematical model of a [`State`].
pub ghost enum StateView {
    Listing,
    Resolving { op: Operation },
    Picking { op: Operation, names: Seq<Seq<char>> },
    Naming { attach: bool },
    Creating { name: Seq<char>, attach: bool },
    Finishing,
    Done,
}

impl View for Invocation {
    type V = InvocationView;

    open spec fn view(&self) -> InvocationView {
        match self {
            Invocation::Attach { target } => InvocationView::Attach { target: target@ },
            Invocation::Kill { target } => InvocationView::Kill { target: target@ },
            Invocation::Create { name } => InvocationView::Create { name: name@ },
        }
    }
}

impl View for Failure {
    type V = FailureView;

    open spec fn view(&self) -> FailureView {
        FailureView { kind: self.kind, message: self.message@ }
    }
}

impl DeepView for Failure {
    type V = FailureView;

    open spec fn deep_view(&self) -> FailureView {
        self@
    }
}

impl View for Report {
    type V = ReportView;

    open spec fn view(&self) -> ReportView {
        ReportView { lines: self.lines.deep_view(), failure: self.failure.deep_view() }
    }
}

impl View for Action {
    type V = ActionView;

    open spec fn view(&self) -> ActionView {
        match self {
            Action::Enumerate => ActionView::Enumerate,
            Action::Pick(request) => ActionView::Pick(request@),
            Action::Ask { prompt } => ActionView::Ask { prompt: prompt@ },
            Action::Invoke(invocation) => ActionView::Invoke(invocation@),
            Action::Finish(report) => ActionView::Finish(report@),
        }
    }
}

impl View for Event {
    type V = EventView;

    open spec fn view(&self) -> EventView {
        match self {
            Event::Listed { entries } => EventView::Listed { entries: entries.deep_view() },
            Event::Picked { choice } => EventView::Picked { choice: *choice },
            Event::Named { name } => EventView::Named { name: name@ },
            Event::Exited { success, diagnostics } => EventView::Exited {
                success: *success,
                diagnostics: diagnostics@,
            },
            Event::Failed { reason } => EventView::Failed { reason: reason@ },
        }
    }
}

impl View for State {
    type V = StateView;

    open spec fn view(&self) -> StateView {
        match self {
            State::Listing => StateView::Listing,
            State::Resolving { op } => StateView::Resolving { op: *op },
            State::Picking { op, names } => StateView::Picking {
                op: *op,
                names: names.deep_view(),
            },
            State::Naming { attach } => StateView::Naming { attach: *attach },
            State::Creating { name, attach } => StateView::Creating {
                name: name@,
                attach: *attach,
            },
            State::Finishing => StateView::Finishing,
            State::Done => StateView::Done,
        }
    }
}

/// The notice printed when no subcommand was given.
pub open spec fn placeholder_notice() -> Seq<char> {
    "Creating new session"@
}

/// The notice printed when there is no session to pick from.
pub open spec fn no_sessions_notice() -> Seq<char> {
    "No sessions found"@
}

/// The notice printed when the user left the picker without choosing.
pub open spec fn no_selection_notice() -> Seq<char> {
    "No session selected"@
}

/// The message of a run that was handed an event it was not waiting for.
pub open spec fn protocol_notice() -> Seq<char> {
    "The event does not answer the pending action"@
}

/// The prompt that asks for the name of a new session.
pub open spec fn name_prompt() -> Seq<char> {
    "Session name"@
}

/// The session command that carries out `op` on the session `target`.
pub open spec fn invocation_for(op: Operation, target: Seq<char>) -> InvocationView {
    match op {
        Operation::Attach => InvocationView::Attach { target },
        Operation::Kill => InvocationView::Kill { target },
    }
}

/// The run ends successfully and prints `lines`.
pub open spec fn finished(lines: Seq<Seq<char>>) -> (StateView, ActionView) {
    (StateView::Done, ActionView::Finish(ReportView { lines, failure: None }))
}

/// The run ends with a failure of the given kind and prints nothing but its
/// message.
pub open spec fn failed(kind: FailureKind, message: Seq<char>) -> (StateView, ActionView) {
    (
        StateView::Done,
        ActionView::Finish(
            ReportView { lines: Seq::empty(), failure: Some(FailureView { kind, message }) },
        ),
    )
}

/// The run ends because `event` does not answer the pending action.
pub open spec fn unexpected() -> (StateView, ActionView) {
    failed(FailureKind::Protocol, protocol_notice())
}

/// How a run goes on once a session command has come back: with `next` if
/// it succeeded, else with the end of the run.
pub open spec fn after_invocation(event: EventView, next: (StateView, ActionView)) -> (
    StateView,
    ActionView,
) {
    match event {
        EventView::Exited { success, diagnostics } => if success {
            next
        } else {
            failed(FailureKind::External, diagnostics)
        },
        EventView::Failed { reason } => failed(FailureKind::External, reason),
        _ => unexpected(),
    }
}

/// How a run begins for an operation on one session: with the operation
/// itself where the target was given, else with a listing to pick from.
pub open spec fn begin_on_target(op: Operation, session: Option<Seq<char>>) -> (
    StateView,
    ActionView,
) {
    match session {
        Some(target) => (StateView::Finishing, ActionView::Invoke(invocation_for(op, target))),
        None => (StateView::Resolving { op }, ActionView::Enumerate),
    }
}

/// How a run begins: the state it is in and the first action, for the
/// subcommand given, if one was.
pub open spec fn begin(command: Option<CommandView>) -> (StateView, ActionView) {
    match command {
        None => finished(seq![placeholder_notice()]),
        Some(command) => match intent_of(command) {
            IntentView::Attach { session } => begin_on_target(Operation::Attach, session),
            IntentView::Kill { session } => begin_on_target(Operation::Kill, session),
            IntentView::New { attach } => (
                StateView::Naming { attach },
                ActionView::Ask { prompt: name_prompt() },
            ),
            IntentView::List => (StateView::Listing, ActionView::Enumerate),
        },
    }
}

/// How a run goes on: the state and the action that follow when `event`
/// answers the action pending in `state`.
///
/// A failure of any outside step ends the run at once. So does an event that
/// does not answer the pending action, or a pick outside the list offered.
pub open spec fn advance(state: StateView, event: EventView) -> (StateView, ActionView) {
    match state {
        StateView::Listing => match event {
            EventView::Listed { entries } => finished(named(entries)),
            EventView::Failed { reason } => failed(FailureKind::External, reason),
            _ => unexpected(),
        },
        StateView::Resolving { op } => match event {
            EventView::Listed { entries } => if named(entries).len() == 0 {
                finished(seq![no_sessions_notice()])
            } else {
                (
                    StateView::Picking { op, names: named(entries) },
                    ActionView::Pick(selection_request(named(entries))),
                )
            },
            EventView::Failed { reason } => failed(FailureKind::External, reason),
            _ => unexpected(),
        },
        StateView::Picking { op, names } => match event {
            EventView::Picked { choice: None } => finished(seq![no_selection_notice()]),
            EventView::Picked { choice: Some(index) } => if index < names.len() {
                (
                    StateView::Finishing,
                    ActionView::Invoke(invocation_for(op, names[index as int])),
                )
            } else {
                unexpected()
            },
            EventView::Failed { reason } => failed(FailureKind::Interactive, reason),
            _ => unexpected(),
        },
        StateView::Naming { attach } => match event {
            EventView::Named { name } => (
                StateView::Creating { name, attach },
                ActionView::Invoke(InvocationView::Create { name }),
            ),
            EventView::Failed { reason } => failed(FailureKind::Interactive, reason),
            _ => unexpected(),
        },
        StateView::Creating { name, attach } => after_invocation(
            event,
            if attach {
                (
                    StateView::Finishing,
                    ActionView::Invoke(InvocationView::Attach { target: name }),
                )
            } else {
                finished(Seq::empty())
            },
        ),
        StateView::Finishing => after_invocation(event, finished(Seq::empty())),
        StateView::Done => unexpected(),
    }
}

impl Report {
    /// Whether the run ended without a failure, and so exits with status zero.
    pub fn succeeded(&self) -> (ok: bool)
        ensures
            ok == (self@.failure is None),
    {
        self.failure.is_none()
    }
}

/// Ends the run successfully, printing `lines`.
fn finish(lines: Vec<String>) -> (next: (State, Action))
    ensures
        (next.0@, next.1@) == finished(lines.deep_view()),
{
    (State::Done, Action::Finish(Report { lines, failure: None }))
}

/// Ends the run successfully, printing the one line `notice`.
fn finish_with_notice(notice: &str) -> (next: (State, Action))
    ensures
        (next.0@, next.1@) == finished(seq![notice@]),
{
    let mut lines: Vec<String> = Vec::new();
    lines.push(notice.to_owned());
    assert(lines.deep_view() =~= seq![notice@]);
    finish(lines)
}

/// Ends the run successfully, printing nothing.
fn finish_quietly() -> (next: (State, Action))
    ensures
        (next.0@, next.1@) == finished(Seq::empty()),
{
    let lines: Vec<String> = Vec::new();
    assert(lines.deep_view() =~= Seq::empty());
    finish(lines)
}

/// Ends the run with a failure, printing nothing but its message.
fn fail(kind: FailureKind, message: String) -> (next: (State, Action))
    ensures
        (next.0@, next.1@) == failed(kind, message@),
{
    let lines: Vec<String> = Vec::new();
    assert(lines.deep_view() =~= Seq::empty());
    (State::Done, Action::Finish(Report { lines, failure: Some(Failure { kind, message }) }))
}

/// Ends the run because the event reported does not answer the pending
/// action.
fn reject() -> (next: (State, Action))
    ensures
        (next.0@, next.1@) == unexpected(),
{
    fail(FailureKind::Protocol, "The event does not answer the pending action".to_owned())
}

/// Goes on after a session command has come back: with `next` if it
/// succeeded, else with the end of the run.
fn step_after_invocation(event: Event, next: (State, Action)) -> (after: (State, Action))
    ensures
        (after.0@, after.1@) == after_invocation(event@, (next.0@, next.1@)),
{
    match event {
        Event::Exited { success, diagnostics } => {
            if success {
                next
            } else {
                fail(FailureKind::External, diagnostics)
            }
        },
        Event::Failed { reason } => fail(FailureKind::External, reason),
        _ => reject(),
    }
}

/// The session command that carries out `op` on the session `target`.
pub fn invocation(op: Operation, target: String) -> (invocation: Invocation)
    ensures
        invocation@ == invocation_for(op, target@),
{
    match op {
        Operation::Attach => Invocation::Attach { target },
        Operation::Kill => Invocation::Kill { target },
    }
}

/// Begins a run for an operation on one session.
fn start_on_target(op: Operation, session: Option<String>) -> (next: (State, Action))
    ensures
        (next.0@, next.1@) == begin_on_target(op, session.deep_view()),
{
    match session {
        Some(target) => (State::Finishing, Action::Invoke(invocation(op, target))),
        None => (State::Resolving { op }, Action::Enumerate),
    }
}

/// Begins a run: answers with the state it is in and the first action to
/// carry out, for the subcommand given, if one was.
pub fn start(command: Option<Command>) -> (next: (State, Action))
    ensures
        (next.0@, next.1@) == begin(command.deep_view()),
{
    match command {
        None => finish_with_notice("Creating new session"),
        Some(command) => match command.intent() {
            Intent::Attach { session } => start_on_target(Operation::Attach, session),
            Intent::Kill { session } => start_on_target(Operation::Kill, session),
            Intent::New { attach } => (
                State::Naming { attach },
                Action::Ask { prompt: "Session name".to_owned() },
            ),
            Intent::List => (State::Listing, Action::Enumerate),
        },
    }
}

/// Goes on with a run: takes the event that answers the action pending in
/// `state` and answers with the state and the action that follow.
pub fn step(state: State, event: Event) -> (next: (State, Action))
    ensures
        (next.0@, next.1@) == advance(state@, event@),
{
    match state {
        State::Listing => match event {
            Event::Listed { entries } => finish(session_names(&entries)),
            Event::Failed { reason } => fail(FailureKind::External, reason),
            _ => reject(),
        },
        State::Resolving { op } => match event {
            Event::Listed { entries } => {
                let names = session_names(&entries);
                assert(names.len() == names.deep_view().len());
                if names.len() == 0 {
                    finish_with_notice("No sessions found")
                } else {
                    let offered = copy_names(&names);
                    assert(offered.len() == offered.deep_view().len());
                    (State::Picking { op, names }, Action::Pick(pick_request(offered)))
                }
            },
            Event::Failed { reason } => fail(FailureKind::External, reason),
            _ => reject(),
        },
        State::Picking { op, names } => match event {
            Event::Picked { choice: None } => finish_with_notice("No session selected"),
            Event::Picked { choice: Some(index) } => {
                assert(names.len() == names.deep_view().len());
                if index < names.len() {
                    match resolve_selection(&names, Some(index)) {
                        Selection::Chosen { name } => (
                            State::Finishing,
                            Action::Invoke(invocation(op, name)),
                        ),
                        Selection::Cancelled => reject(),
                    }
                } else {
                    reject()
                }
            },
            Event::Failed { reason } => fail(FailureKind::Interactive, reason),
            _ => reject(),
        },
        State::Naming { attach } => match event {
            Event::Named { name } => {
                let created = name.clone();
                (
                    State::Creating { name, attach },
                    Action::Invoke(Invocation::Create { name: created }),
                )
            },
            Event::Failed { reason } => fail(FailureKind::Interactive, reason),
            _ => reject(),
        },
        State::Creating { name, attach } => {
            let next = if attach {
                (State::Finishing, Action::Invoke(Invocation::Attach { target: name }))
            } else {
                finish_quietly()
            };
            step_after_invocation(event, next)
        },
        State::Finishing => step_after_invocation(event, finish_quietly()),
        State::Done => reject(),
    }
}

} // verus!
