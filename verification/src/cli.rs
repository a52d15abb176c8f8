//! The command-line surface: the subcommands as they are spelled, and the
//! intent that each spelling stands for.

use vstd::prelude::*;

verus! {

/// A subcommand as it was spelled on the command line. Every intent has a
/// short and a long spelling.
#[derive(Debug, PartialEq, Eq)]
pub enum Command {
    /// Attach to an existing session (short spelling).
    A { session: Option<String> },
    /// Attach to an existing session.
    Attach { session: Option<String> },
    /// Kill an existing session (short spelling).
    K { session: Option<String> },
    /// Kill an existing session.
    Kill { session: Option<String> },
    /// Create a new session (short spelling).
    N { attach: bool },
    /// Create a new session.
    New { attach: bool },
    /// List the existing sessions (short spelling).
    Ls,
    /// List the existing sessions.
    List,
}

/// What the user asked for, whichever way it was spelled.
#[derive(Debug, PartialEq, Eq)]
pub enum Intent {
    /// Attach to `session`, or to a session picked interactively.
    Attach { session: Option<String> },
    /// Kill `session`, or a session picked interactively.
    Kill { session: Option<String> },
    /// Create a detached session and, if `attach` is set, attach to it.
    New { attach: bool },
    /// Print the names of the running sessions.
    List,
}

/// Mathematical model of a [`Command`].
pub ghost enum CommandView {
    A { session: Option<Seq<char>> },
    Attach { session: Option<Seq<char>> },
    K { session: Option<Seq<char>> },
    Kill { session: Option<Seq<char>> },
    N { attach: bool },
    New { attach: bool },
    Ls,
    List,
}

/// Mathematical model of an [`Intent`].
pub ghost enum IntentView {
    Attach { session: Option<Seq<char>> },
    Kill { session: Option<Seq<char>> },
    New { attach: bool },
    List,
}

impl View for Command {
    type V = CommandView;

    open spec fn view(&self) -> CommandView {
        match self {
            Command::A { session } => CommandView::A { session: session.deep_view() },
            Command::Attach { session } => CommandView::Attach { session: session.deep_view() },
            Command::K { session } => CommandView::K { session: session.deep_view() },
            Command::Kill { session } => CommandView::Kill { session: session.deep_view() },
            Command::N { attach } => CommandView::N { attach: *attach },
            Command::New { attach } => CommandView::New { attach: *attach },
            Command::Ls => CommandView::Ls,
            Command::List => CommandView::List,
        }
    }
}

impl DeepView for Command {
    type V = CommandView;

    open spec fn deep_view(&self) -> CommandView {
        self@
    }
}

impl View for Intent {
    type V = IntentView;

    open spec fn view(&self) -> IntentView {
        match self {
            Intent::Attach { session } => IntentView::Attach { session: session.deep_view() },
            Intent::Kill { session } => IntentView::Kill { session: session.deep_view() },
            Intent::New { attach } => IntentView::New { attach: *attach },
            Intent::List => IntentView::List,
        }
    }
}

/// The intent that a spelled subcommand stands for.
pub open spec fn intent_of(command: CommandView) -> IntentView {
    match command {
        CommandView::A { session } | CommandView::Attach { session } => IntentView::Attach {
            session,
        },
        CommandView::K { session } | CommandView::Kill { session } => IntentView::Kill { session },
        CommandView::N { attach } | CommandView::New { attach } => IntentView::New { attach },
        CommandView::Ls | CommandView::List => IntentView::List,
    }
}

/// The subcommand that spells `intent`, in its short or its long form.
pub open spec fn spelled(intent: IntentView, short: bool) -> CommandView {
    match intent {
        IntentView::Attach { session } => if short {
            CommandView::A { session }
        } else {
            CommandView::Attach { session }
        },
        IntentView::Kill { session } => if short {
            CommandView::K { session }
        } else {
            CommandView::Kill { session }
        },
        IntentView::New { attach } => if short {
            CommandView::N { attach }
        } else {
            CommandView::New { attach }
        },
        IntentView::List => if short {
            CommandView::Ls
        } else {
            CommandView::List
        },
    }
}

impl Command {
    /// Forgets how the subcommand was spelled.
    pub fn intent(self) -> (intent: Intent)
        ensures
            intent@ == intent_of(self@),
    {
        match self {
            Command::A { session } => Intent::Attach { session },
            Command::Attach { session } => Intent::Attach { session },
            Command::K { session } => Intent::Kill { session },
            Command::Kill { session } => Intent::Kill { session },
            Command::N { attach } => Intent::New { attach },
            Command::New { attach } => Intent::New { attach },
            Command::Ls => Intent::List,
            Command::List => Intent::List,
        }
    }
}

/// Both spellings of an intent stand for that intent, and every subcommand is
/// one of the two spellings of its intent.
pub proof fn spellings_are_aliases(intent: IntentView, command: CommandView)
    ensures
        intent_of(spelled(intent, true)) == intent,
        intent_of(spelled(intent, false)) == intent,
        spelled(intent, true) != spelled(intent, false),
        command == spelled(intent_of(command), true) || command == spelled(
            intent_of(command),
            false,
        ),
{
}

} // verus!
