use crate::host::Host;
use crate::message::Message;
use vstd::prelude::*;

verus! {

/// What was modified about a file.
#[derive(Clone, Copy, Debug, PartialEq, Eq, Structural)]
pub enum ModifyKind {
    /// It is not known what.
    Any,
    /// The content.
    Data,
    /// Permissions, times and the like.
    Metadata,
    /// The name.
    Name,
    /// Something else.
    Other,
}

/// What happened to a file.
#[derive(Clone, Copy, Debug, PartialEq, Eq, Structural)]
pub enum FileEvent {
    /// It is not known what.
    Any,
    /// It was opened, read or closed.
    Access,
    /// It was created.
    Create,
    /// It was modified.
    Modify(ModifyKind),
    /// It was removed.
    Remove,
    /// Something else.
    Other,
}

/// What an event of the file watcher calls for.
pub enum WatchReaction<H: Host> {
    /// Put a message on the queue.
    Send(Message<H>),
    /// Do nothing.
    Ignore,
    /// Write the error to the log. The user is not told.
    Log(H::Error),
}

impl<H: Host> WatchReaction<H> {
    /// The reaction to an event: the collection is loaded again if and only if the content of its
    /// file changed.
    pub open spec fn to(event: Result<FileEvent, H::Error>) -> Self {
        match event {
            Ok(FileEvent::Modify(ModifyKind::Data)) => WatchReaction::Send(
                Message::CollectionStartReload,
            ),
            Ok(_) => WatchReaction::Ignore,
            Err(error) => WatchReaction::Log(error),
        }
    }

    /// Decides what to do about an event of the watcher on the collection file.
    pub fn react(event: Result<FileEvent, H::Error>) -> (reaction: Self)
        ensures
            reaction == WatchReaction::<H>::to(event),
    {
        match event {
            Ok(FileEvent::Modify(ModifyKind::Data)) => WatchReaction::Send(
                Message::CollectionStartReload,
            ),
            Ok(_) => WatchReaction::Ignore,
            Err(error) => WatchReaction::Log(error),
        }
    }
}

} // verus!
