use crate::collection::CollectionFile;
use crate::error::TuiError;
use crate::host::Host;
use crate::message::Action;
use crate::request::RequestState;
use crate::task::Task;
use std::sync::Arc;
use vstd::prelude::*;

verus! {

/// How pressing a modal is.
#[derive(Clone, Copy, Debug, PartialEq, Eq, Structural)]
pub enum ModalPriority {
    Low,
    High,
}

/// What a modal shows.
pub enum Modal<H: Host> {
    Error(TuiError<H>),
    Prompt(H::Prompt),
    Confirm(H::Confirm),
}

/// What the view is told to do.
pub enum ViewCommand<H: Host> {
    /// Give the view up. It saves its state on the way.
    Drop,
    /// Make a view from scratch. It restores the state that was saved last.
    Create { collection_file: CollectionFile<H>, database: Arc<H::Database> },
    OpenModal { modal: Modal<H>, priority: ModalPriority },
    SetRequestState(RequestState<H>),
    HandleInput { event: H::InputEvent, action: Option<Action<H>> },
    CopyText(String),
    Notify(String),
    /// Work off all events that are queued within the view.
    HandleEvents,
}

/// Work that the controller asks the surrounding program for.
pub enum Effect<H: Host> {
    /// Run a task in the background.
    Spawn(Task<H>),
    /// Run the loop that turns terminal input into messages, in the background.
    SpawnInputLoop,
    /// Watch a file for changes, for as long as the main loop runs.
    Watch { path: Arc<H::Path> },
    /// Draw the view on the terminal.
    Draw,
    /// Take one message off the queue, and wait no longer than this if there is none.
    Receive { timeout_millis: u64 },
    /// Open a file with the program that the user prefers for it.
    OpenFile { path: Arc<H::Path> },
    /// Tell the view something.
    View(ViewCommand<H>),
}

} // verus!
