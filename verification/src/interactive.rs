//! What the event loop runs on a screen's behalf: interactive programs that
//! take over the terminal.
use vstd::prelude::*;

verus! {

/// A request that only the event loop can carry out.
pub enum PendingAction {
    /// Leave the terminal to a program, then tell the screen how it ended.
    RunInteractive { program: String, args: Vec<String>, alias: String },
}

pub enum PendingActionModel {
    RunInteractive { program: Seq<char>, args: Seq<Seq<char>>, alias: Seq<char> },
}

impl View for PendingAction {
    type V = PendingActionModel;

    open spec fn view(&self) -> PendingActionModel {
        match self {
            PendingAction::RunInteractive { program, args, alias } => PendingActionModel::RunInteractive { program: program@, args: args.deep_view(), alias: alias@ },
        }
    }
}

impl DeepView for PendingAction {
    type V = PendingActionModel;

    open spec fn deep_view(&self) -> PendingActionModel {
        self@
    }
}

/// How an interactive program ended.
pub enum SessionEnd {
    Success,
    /// With a status that is not success.
    Exited(String),
    NotLaunched(String),
}

pub enum SessionEndModel {
    Success,
    Exited(Seq<char>),
    NotLaunched(Seq<char>),
}

impl View for SessionEnd {
    type V = SessionEndModel;

    open spec fn view(&self) -> SessionEndModel {
        match self {
            SessionEnd::Success => SessionEndModel::Success,
            SessionEnd::Exited(a) => SessionEndModel::Exited(a@),
            SessionEnd::NotLaunched(a) => SessionEndModel::NotLaunched(a@),
        }
    }
}

impl DeepView for SessionEnd {
    type V = SessionEndModel;

    open spec fn deep_view(&self) -> SessionEndModel {
        self@
    }
}

} // verus!
