use crate::collection::Collection;
use crate::error::TuiError;
use crate::host::Host;
use crate::message::Message;
use crate::request::{RequestSeed, TemplateContext};
use crate::utf8::text_of;
use std::sync::Arc;
use vstd::prelude::*;
use vstd::utf8::*;

verus! {

/// Work that runs in the background.
pub enum Task<H: Host> {
    /// Load the collection from its file.
    ReloadCollection { path: Arc<H::Path> },
    /// Ask the user for a path and write the data there.
    SaveFile { default_path: Option<String>, data: Vec<u8> },
    /// Wait until the operating system asks the program to quit.
    ListenForSignals,
    /// Render the URL of a request.
    BuildUrl { seed: RequestSeed<H>, context: TemplateContext<H> },
    /// Render the body of a request.
    BuildBody { seed: RequestSeed<H>, context: TemplateContext<H> },
    /// Render a request that is to be written as a curl command.
    BuildCurl { seed: RequestSeed<H>, context: TemplateContext<H> },
    /// Write a request that was built as a curl command.
    WriteCurl { request: Arc<H::Request> },
    /// Render a template and write the outcome to its destination.
    RenderPreview {
        template: H::Template,
        context: TemplateContext<H>,
        destination: H::Destination,
    },
    /// Render a request that is going to be sent.
    BuildRequest {
        seed: RequestSeed<H>,
        context: TemplateContext<H>,
        database: Arc<H::Database>,
    },
    /// Send a request that was built, and keep the outcome in the database.
    SendRequest { ticket: H::Ticket, database: Arc<H::Database> },
}

/// What came of a task.
pub enum TaskEvent<H: Host> {
    Reloaded(Result<Arc<Collection<H>>, H::Error>),
    Saved(Result<(), H::Error>),
    Signalled(Result<(), H::Error>),
    UrlBuilt(Result<String, H::Error>),
    /// A request may have no body.
    BodyBuilt(Result<Option<Vec<u8>>, H::Error>),
    /// The ticket and the record of a request that is not going to be sent.
    RecordBuilt(Result<(H::Ticket, Arc<H::Request>), H::Error>),
    CurlBuilt(Result<String, H::Error>),
    /// Whether the destination took the preview. It takes no second one.
    PreviewRendered { stored: bool },
    /// The ticket to send the request with, and its record. The database is that of the task.
    RequestBuilt {
        outcome: Result<(H::Ticket, Arc<H::Request>), H::BuildError>,
        database: Arc<H::Database>,
    },
    RequestSent(Result<H::Exchange, H::RequestError>),
}

/// How a task goes on.
pub struct TaskStep<H: Host> {
    /// What the controller is told.
    pub message: Option<Message<H>>,
    /// What the task does next; `None` where it is over.
    pub next: Option<Task<H>>,
}

impl<H: Host> Task<H> {
    /// Whether the event is one that the task can come to.
    pub open spec fn answered_by(self, event: TaskEvent<H>) -> bool {
        match self {
            Task::ReloadCollection { .. } => event is Reloaded,
            Task::SaveFile { .. } => event is Saved,
            Task::ListenForSignals => event is Signalled,
            Task::BuildUrl { .. } => event is UrlBuilt,
            Task::BuildBody { .. } => event is BodyBuilt,
            Task::BuildCurl { .. } => event is RecordBuilt,
            Task::WriteCurl { .. } => event is CurlBuilt,
            Task::RenderPreview { .. } => event is PreviewRendered,
            Task::BuildRequest { database, .. } => event matches TaskEvent::RequestBuilt {
                database: d,
                ..
            } && d == database,
            Task::SendRequest { .. } => event is RequestSent,
        }
    }
}

impl<H: Host> TaskStep<H> {
    /// The task says nothing and is over.
    pub open spec fn silent() -> Self {
        TaskStep { message: None, next: None }
    }

    /// The task says one last thing.
    pub open spec fn last(message: Message<H>) -> Self {
        TaskStep { message: Some(message), next: None }
    }

    /// The task failed, which the user is told.
    pub open spec fn failed(error: TuiError<H>) -> Self {
        TaskStep::last(Message::Error { error })
    }
}

impl<H: Host> TaskEvent<H> {
    /// Whether `step` is how the task goes on after this event.
    pub open spec fn leads_to(self, step: TaskStep<H>) -> bool {
        match self {
            TaskEvent::Reloaded(Ok(collection)) => step == TaskStep::<H>::last(
                Message::CollectionEndReload(collection),
            ),
            TaskEvent::Saved(Ok(())) => step == TaskStep::<H>::silent(),
            TaskEvent::Signalled(Ok(())) => step == TaskStep::<H>::last(Message::Quit),
            TaskEvent::UrlBuilt(Ok(url)) => step == TaskStep::<H>::last(Message::CopyText(url)),
            TaskEvent::BodyBuilt(Ok(None)) => step == TaskStep::<H>::failed(TuiError::NoBody),
            TaskEvent::BodyBuilt(Ok(Some(body))) => if valid_utf8(body@) {
                &&& step.message matches Some(Message::CopyText(text))
                &&& text@ == decode_utf8(body@)
                &&& step.next is None
            } else {
                step == TaskStep::<H>::failed(TuiError::BodyNotText { body })
            },
            TaskEvent::RecordBuilt(Ok((ticket, request))) => step == TaskStep::<H> {
                message: None,
                next: Some(Task::WriteCurl { request }),
            },
            TaskEvent::CurlBuilt(Ok(command)) => step == TaskStep::<H>::last(
                Message::CopyText(command),
            ),
            TaskEvent::PreviewRendered { stored } => if stored {
                step == TaskStep::<H>::silent()
            } else {
                step == TaskStep::<H>::failed(TuiError::PreviewTaken)
            },
            TaskEvent::RequestBuilt { outcome: Ok((ticket, request)), database } => step
                == TaskStep::<H> {
                message: Some(Message::HttpLoading { request }),
                next: Some(Task::SendRequest { ticket, database }),
            },
            TaskEvent::RequestBuilt { outcome: Err(error), .. } => step == TaskStep::<H>::last(
                Message::HttpBuildError { error },
            ),
            TaskEvent::RequestSent(result) => step == TaskStep::<H>::last(
                Message::HttpComplete(result),
            ),
            TaskEvent::Reloaded(Err(error)) => step == TaskStep::<H>::failed(TuiError::Other(error)),
            TaskEvent::Saved(Err(error)) => step == TaskStep::<H>::failed(TuiError::Other(error)),
            TaskEvent::Signalled(Err(error)) => step == TaskStep::<H>::failed(TuiError::Other(error)),
            TaskEvent::UrlBuilt(Err(error)) => step == TaskStep::<H>::failed(TuiError::Other(error)),
            TaskEvent::BodyBuilt(Err(error)) => step == TaskStep::<H>::failed(TuiError::Other(error)),
            TaskEvent::RecordBuilt(Err(error)) => step == TaskStep::<H>::failed(
                TuiError::Other(error),
            ),
            TaskEvent::CurlBuilt(Err(error)) => step == TaskStep::<H>::failed(TuiError::Other(error)),
        }
    }

    /// Decides how a task goes on.
    ///
    /// An error ends the task and is reported, so that the user gets to see it. Errors about a
    /// request that is being sent have messages of their own.
    pub fn resume(self) -> (step: TaskStep<H>)
        ensures
            self.leads_to(step),
    {
        match self {
            TaskEvent::Reloaded(Ok(collection)) => finish(Message::CollectionEndReload(collection)),
            TaskEvent::Reloaded(Err(error)) => report(TuiError::Other(error)),
            TaskEvent::Saved(result) => conclude::<H>(result),
            TaskEvent::Signalled(Ok(())) => finish(Message::Quit),
            TaskEvent::Signalled(Err(error)) => report(TuiError::Other(error)),
            TaskEvent::UrlBuilt(result) => copy::<H>(result),
            TaskEvent::BodyBuilt(result) => copy_body::<H>(result),
            // The ticket goes unused: only the record is written down.
            TaskEvent::RecordBuilt(Ok((_, request))) => TaskStep {
                message: None,
                next: Some(Task::WriteCurl { request }),
            },
            TaskEvent::RecordBuilt(Err(error)) => report(TuiError::Other(error)),
            TaskEvent::CurlBuilt(result) => copy::<H>(result),
            TaskEvent::PreviewRendered { stored } => {
                if stored {
                    TaskStep { message: None, next: None }
                } else {
                    report(TuiError::PreviewTaken)
                }
            },
            TaskEvent::RequestBuilt { outcome: Ok((ticket, request)), database } => TaskStep {
                message: Some(Message::HttpLoading { request }),
                next: Some(Task::SendRequest { ticket, database }),
            },
            TaskEvent::RequestBuilt { outcome: Err(error), .. } => finish(
                Message::HttpBuildError { error },
            ),
            TaskEvent::RequestSent(result) => finish(Message::HttpComplete(result)),
        }
    }
}

fn finish<H: Host>(message: Message<H>) -> (step: TaskStep<H>)
    ensures
        step == TaskStep::last(message),
{
    TaskStep { message: Some(message), next: None }
}

fn report<H: Host>(error: TuiError<H>) -> (step: TaskStep<H>)
    ensures
        step == TaskStep::failed(error),
{
    finish(Message::Error { error })
}

fn conclude<H: Host>(result: Result<(), H::Error>) -> (step: TaskStep<H>)
    ensures
        TaskEvent::<H>::Saved(result).leads_to(step),
{
    match result {
        Ok(()) => TaskStep { message: None, next: None },
        Err(error) => report(TuiError::Other(error)),
    }
}

fn copy<H: Host>(result: Result<String, H::Error>) -> (step: TaskStep<H>)
    ensures
        TaskEvent::<H>::UrlBuilt(result).leads_to(step),
{
    match result {
        Ok(text) => finish(Message::CopyText(text)),
        Err(error) => report(TuiError::Other(error)),
    }
}

fn copy_body<H: Host>(result: Result<Option<Vec<u8>>, H::Error>) -> (step: TaskStep<H>)
    ensures
        TaskEvent::<H>::BodyBuilt(result).leads_to(step),
{
    match result {
        Ok(Some(body)) => match text_of(&body) {
            Some(text) => finish(Message::CopyText(text)),
            None => report(TuiError::BodyNotText { body }),
        },
        Ok(None) => report(TuiError::NoBody),
        Err(error) => report(TuiError::Other(error)),
    }
}

} // verus!
