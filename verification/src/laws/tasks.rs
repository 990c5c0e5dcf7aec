//! What holds of background tasks, from the message that spawns them to those that they send.
use crate::clock::Timestamp;
use crate::collection::{Collection, ProfileId};
use crate::effect::{Effect, Modal, ModalPriority, ViewCommand};
use crate::error::TuiError;
use crate::host::Host;
use crate::message::Message;
use crate::request::{RequestConfig, RequestId, RequestState};
use crate::task::{Task, TaskEvent, TaskStep};
use crate::tui::Tui;
use crate::watch::{FileEvent, ModifyKind, WatchReaction};
use std::sync::Arc;
use vstd::prelude::*;
use vstd::utf8::*;

verus! {

/// Whether `messages` is what the controller is told by a task that runs to its end, where
/// `events` is what comes of its parts.
pub open spec fn runs<H: Host>(
    task: Task<H>,
    events: Seq<TaskEvent<H>>,
    messages: Seq<Message<H>>,
) -> bool
    decreases events.len(), 0int,
{
    &&& events.len() > 0
    &&& task.answered_by(events.first())
    &&& exists|step: TaskStep<H>| #[trigger]
        events.first().leads_to(step) && goes_on(step, events.drop_first(), messages)
}

/// Whether a task that has come to `step` says `messages` from there on.
pub open spec fn goes_on<H: Host>(
    step: TaskStep<H>,
    events: Seq<TaskEvent<H>>,
    messages: Seq<Message<H>>,
) -> bool
    decreases events.len(), 1int,
{
    let later = match step.message {
        Some(message) => messages.drop_first(),
        None => messages,
    };
    &&& step.message matches Some(message) ==> messages.len() > 0 && messages.first() == message
    &&& match step.next {
        Some(task) => runs(task, events, later),
        None => events.len() == 0 && later.len() == 0,
    }
}

/// The part of [`request_lifecycle`] that begins with the sending.
proof fn sending_ends_with_the_outcome<H: Host>(
    task: Task<H>,
    events: Seq<TaskEvent<H>>,
    messages: Seq<Message<H>>,
)
    requires
        task is SendRequest,
        runs(task, events, messages),
    ensures
        events.len() == 1,
        events[0] is RequestSent,
        messages =~= seq![Message::HttpComplete(events[0]->RequestSent_0)],
{
    let step = choose|step: TaskStep<H>| #[trigger]
        events.first().leads_to(step) && goes_on(step, events.drop_first(), messages);
    assert(step == TaskStep::last(Message::<H>::HttpComplete(events[0]->RequestSent_0)));
}

/// A request that is sent is reported in one of two ways: that it could not be built, or that it
/// is on its way and then how it ended. Nothing else is said about it, and in no other order.
pub proof fn request_lifecycle<H: Host>(
    task: Task<H>,
    events: Seq<TaskEvent<H>>,
    messages: Seq<Message<H>>,
)
    requires
        task is BuildRequest,
        runs(task, events, messages),
    ensures
        events[0] is RequestBuilt,
        match events[0]->outcome {
            Err(error) => messages =~= seq![Message::HttpBuildError { error }],
            Ok((ticket, request)) => {
                &&& events.len() == 2
                &&& events[1] is RequestSent
                &&& messages =~= seq![
                    Message::HttpLoading { request },
                    Message::HttpComplete(events[1]->RequestSent_0),
                ]
            },
        },
{
    let step = choose|step: TaskStep<H>| #[trigger]
        events.first().leads_to(step) && goes_on(step, events.drop_first(), messages);
    match events[0]->outcome {
        Err(error) => {
            assert(step == TaskStep::last(Message::<H>::HttpBuildError { error }));
        },
        Ok((ticket, request)) => {
            sending_ends_with_the_outcome(
                step.next->0,
                events.drop_first(),
                messages.drop_first(),
            );
            assert(events[1] == events.drop_first()[0]);
            assert(messages[1] == messages.drop_first()[0]);
        },
    }
}

/// Whether all that a message calls for is that the view shows a request in the given state.
pub open spec fn shows<H: Host>(
    tui: Tui<H>,
    message: Message<H>,
    id: RequestId,
    now: Timestamp,
    state: RequestState<H>,
) -> bool {
    tui.response(message, id, now) == Ok::<Seq<Effect<H>>, TuiError<H>>(
        seq![Effect::View(ViewCommand::SetRequestState(state))],
    )
}

/// The view shows a request as being built before the building starts. From what the task then
/// reports, it shows that the building failed, or that the request is on its way and then the
/// response or the failure, whatever the controller has come to by then.
pub proof fn request_states<H: Host>(
    tui: Tui<H>,
    config: RequestConfig<H>,
    id: RequestId,
    now: Timestamp,
    events: Seq<TaskEvent<H>>,
    messages: Seq<Message<H>>,
    later: Tui<H>,
    later_id: RequestId,
    later_time: Timestamp,
)
    requires
        tui.knows(config.recipe_id),
        runs(
            tui.response(Message::HttpBeginRequest(config), id, now)->Ok_0[1]->Spawn_0,
            events,
            messages,
        ),
    ensures
        tui.response(Message::HttpBeginRequest(config), id, now)->Ok_0.len() == 2,
        tui.response(Message::HttpBeginRequest(config), id, now)->Ok_0[0] == Effect::View(
            ViewCommand::<H>::SetRequestState(
                (RequestState::Building {
                    id,
                    start_time: now,
                    profile_id: config.profile_id,
                    recipe_id: config.recipe_id,
                }),
            ),
        ),
        match events[0]->outcome {
            Err(error) => {
                &&& messages.len() == 1
                &&& shows(
                    later,
                    messages[0],
                    later_id,
                    later_time,
                    RequestState::BuildError { error },
                )
            },
            Ok((ticket, request)) => {
                &&& messages.len() == 2
                &&& shows(
                    later,
                    messages[0],
                    later_id,
                    later_time,
                    RequestState::Loading { request },
                )
                &&& shows(
                    later,
                    messages[1],
                    later_id,
                    later_time,
                    match events[1]->RequestSent_0 {
                        Ok(exchange) => RequestState::Response { exchange },
                        Err(error) => RequestState::RequestError { error },
                    },
                )
            },
        },
{
    request_lifecycle(
        tui.response(Message::HttpBeginRequest(config), id, now)->Ok_0[1]->Spawn_0,
        events,
        messages,
    );
}

/// The error that a task came to, other than those about a request that is being sent.
pub open spec fn failure<H: Host>(event: TaskEvent<H>) -> Option<TuiError<H>> {
    match event {
        TaskEvent::Reloaded(Err(error)) => Some(TuiError::Other(error)),
        TaskEvent::Saved(Err(error)) => Some(TuiError::Other(error)),
        TaskEvent::Signalled(Err(error)) => Some(TuiError::Other(error)),
        TaskEvent::UrlBuilt(Err(error)) => Some(TuiError::Other(error)),
        TaskEvent::BodyBuilt(Err(error)) => Some(TuiError::Other(error)),
        TaskEvent::BodyBuilt(Ok(None)) => Some(TuiError::NoBody),
        TaskEvent::BodyBuilt(Ok(Some(body))) => if valid_utf8(body@) {
            None
        } else {
            Some(TuiError::BodyNotText { body })
        },
        TaskEvent::RecordBuilt(Err(error)) => Some(TuiError::Other(error)),
        TaskEvent::CurlBuilt(Err(error)) => Some(TuiError::Other(error)),
        TaskEvent::PreviewRendered { stored: false } => Some(TuiError::PreviewTaken),
        _ => None,
    }
}

/// The user gets to see every error of a background task, in a modal of high priority, and the
/// task is over. A task that does not fail puts up no error. Requests that are being sent
/// never end in such a modal.
pub proof fn task_errors_are_shown<H: Host>(
    event: TaskEvent<H>,
    step: TaskStep<H>,
    tui: Tui<H>,
    id: RequestId,
    now: Timestamp,
)
    requires
        event.leads_to(step),
    ensures
        failure(event) is Some <==> step.message is Some && step.message->0 is Error,
        failure(event) matches Some(error) ==> {
            &&& step.next is None
            &&& tui.response(step.message->0, id, now) == Ok::<Seq<Effect<H>>, TuiError<H>>(
                seq![
                    Effect::View(
                        ViewCommand::OpenModal {
                            modal: Modal::Error(error),
                            priority: ModalPriority::High,
                        },
                    ),
                ],
            )
        },
{
}

/// What is copied as the body of a request is the body, byte for byte.
pub proof fn copied_body_is_the_body<H: Host>(body: Vec<u8>, step: TaskStep<H>)
    requires
        TaskEvent::<H>::BodyBuilt(Ok(Some(body))).leads_to(step),
        step.message is Some && step.message->0 is CopyText,
    ensures
        encode_utf8(step.message->0->CopyText_0@) == body@,
{
    decode_utf8_encode_utf8(body@);
}

/// Copying a request as a curl command says one thing: the command, or what went wrong. The
/// request is written down only if it could be built.
pub proof fn curl_command_is_copied<H: Host>(
    task: Task<H>,
    events: Seq<TaskEvent<H>>,
    messages: Seq<Message<H>>,
)
    requires
        task is BuildCurl,
        runs(task, events, messages),
    ensures
        events[0] is RecordBuilt,
        match events[0]->RecordBuilt_0 {
            Err(error) => {
                &&& events.len() == 1
                &&& messages =~= seq![Message::Error { error: TuiError::Other(error) }]
            },
            Ok((ticket, request)) => {
                &&& events.len() == 2
                &&& events[1] is CurlBuilt
                &&& messages =~= seq![
                    match events[1]->CurlBuilt_0 {
                        Ok(command) => Message::CopyText(command),
                        Err(error) => Message::Error { error: TuiError::Other(error) },
                    },
                ]
            },
        },
{
    let step = choose|step: TaskStep<H>| #[trigger]
        events.first().leads_to(step) && goes_on(step, events.drop_first(), messages);
    if events[0]->RecordBuilt_0 is Ok {
        let rest = events.drop_first();
        let last = choose|last: TaskStep<H>| #[trigger]
            rest.first().leads_to(last) && goes_on(last, rest.drop_first(), messages);
        assert(rest.first() == events[1]);
        assert(last.next is None && last.message is Some);
    }
}

/// A preview that is asked for: the controller at that time, the template and the profile.
pub type PreviewCall<H> = (Tui<H>, <H as Host>::Template, Option<ProfileId>);

/// The task that renders the preview.
pub open spec fn preview_task<H: Host>(call: PreviewCall<H>, destination: H::Destination) -> Task<
    H,
> {
    Task::RenderPreview { template: call.1, context: call.0.context(call.2, false), destination }
}

/// Where several previews are asked for with one destination, every one is rendered. The
/// destination takes one of them, whose task says nothing, and each of the other tasks says one
/// thing, that there were several writes.
pub proof fn one_preview_is_kept<H: Host>(
    calls: Seq<PreviewCall<H>>,
    destination: H::Destination,
    kept: int,
    messages: Seq<Seq<Message<H>>>,
    id: RequestId,
    now: Timestamp,
    i: int,
)
    requires
        0 <= kept < calls.len(),
        messages.len() == calls.len(),
        forall|k: int|
            0 <= k < calls.len() ==> runs(
                preview_task(#[trigger] calls[k], destination),
                seq![TaskEvent::PreviewRendered { stored: k == kept }],
                messages[k],
            ),
        0 <= i < calls.len(),
    ensures
        calls[i].0.response(
            (Message::TemplatePreview {
                template: calls[i].1,
                profile_id: calls[i].2,
                destination,
            }),
            id,
            now,
        ) == Ok::<Seq<Effect<H>>, TuiError<H>>(
            seq![Effect::Spawn(preview_task(calls[i], destination))],
        ),
        messages[i] =~= if i == kept {
            seq![]
        } else {
            seq![Message::Error { error: TuiError::PreviewTaken }]
        },
        TuiError::<H>::PreviewTaken.text() == Some("Multiple writes to template preview lock"@),
{
    let events = seq![TaskEvent::<H>::PreviewRendered { stored: i == kept }];
    assert(runs(preview_task(calls[i], destination), events, messages[i]));
    let step = choose|step: TaskStep<H>| #[trigger]
        events.first().leads_to(step) && goes_on(step, events.drop_first(), messages[i]);
    assert(step.next is None);
}

/// A change to the content of the collection file makes its way to the view: the file is loaded
/// again from where it is, and once that is done the collection is the new one and the view is
/// rebuilt for it, after the old view is gone. Other events on the file change nothing.
pub proof fn reload_reaches_the_view<H: Host>(
    tui: Tui<H>,
    file_event: FileEvent,
    collection: Arc<Collection<H>>,
    step: TaskStep<H>,
    later: Tui<H>,
    id: RequestId,
    now: Timestamp,
)
    requires
        TaskEvent::Reloaded(Ok(collection)).leads_to(step),
    ensures
        WatchReaction::<H>::to(Ok(file_event)) == (if file_event == FileEvent::Modify(
            ModifyKind::Data,
        ) {
            WatchReaction::Send(Message::<H>::CollectionStartReload)
        } else {
            WatchReaction::Ignore
        }),
        tui.response(Message::CollectionStartReload, id, now) == Ok::<
            Seq<Effect<H>>,
            TuiError<H>,
        >(seq![Effect::Spawn(Task::ReloadCollection { path: tui.collection_file.path })]),
        step.message is Some,
        later.after(step.message->0).collection_file.collection == collection,
        later.response(step.message->0, id, now) == Ok::<Seq<Effect<H>>, TuiError<H>>(
            seq![
                Effect::View(ViewCommand::Drop),
                Effect::View(
                    ViewCommand::Create {
                        collection_file: later.after(step.message->0).collection_file,
                        database: later.database,
                    },
                ),
            ],
        ),
{
}

/// A task comes to one event, or to as many as it has parts, and each kind of event comes of one
/// kind of task. The database that a built request is kept in is that of its task.
pub proof fn tasks_come_to_their_own_events<H: Host>(task: Task<H>, event: TaskEvent<H>)
    ensures
        task.answered_by(event) <==> match event {
            TaskEvent::Reloaded(_) => task is ReloadCollection,
            TaskEvent::Saved(_) => task is SaveFile,
            TaskEvent::Signalled(_) => task is ListenForSignals,
            TaskEvent::UrlBuilt(_) => task is BuildUrl,
            TaskEvent::BodyBuilt(_) => task is BuildBody,
            TaskEvent::RecordBuilt(_) => task is BuildCurl,
            TaskEvent::CurlBuilt(_) => task is WriteCurl,
            TaskEvent::PreviewRendered { .. } => task is RenderPreview,
            TaskEvent::RequestBuilt { database, .. } => task is BuildRequest && database
                == task->BuildRequest_database,
            TaskEvent::RequestSent(_) => task is SendRequest,
        },
{
}

/// A task that says one thing and is over, at its first event.
proof fn lemma_only_message<H: Host>(
    task: Task<H>,
    events: Seq<TaskEvent<H>>,
    messages: Seq<Message<H>>,
)
    requires
        runs(task, events, messages),
        forall|step: TaskStep<H>| #[trigger] events[0].leads_to(step) ==> step.next is None,
    ensures
        events.len() == 1,
        task.answered_by(events[0]),
        messages.len() <= 1,
        events[0].leads_to(
            TaskStep {
                message: if messages.len() == 1 {
                    Some(messages[0])
                } else {
                    None
                },
                next: None,
            },
        ),
{
    let step = choose|step: TaskStep<H>| #[trigger]
        events.first().leads_to(step) && goes_on(step, events.drop_first(), messages);
    assert(events[0].leads_to(step));
    assert(step == TaskStep {
        message: if messages.len() == 1 {
            Some(messages[0])
        } else {
            None
        },
        next: None::<Task<H>>,
    });
}

/// Copying the URL of a request says one thing: the URL, all of it, or the error that kept it from
/// being built.
pub proof fn url_is_copied<H: Host>(
    task: Task<H>,
    events: Seq<TaskEvent<H>>,
    messages: Seq<Message<H>>,
)
    requires
        task is BuildUrl,
        runs(task, events, messages),
    ensures
        events.len() == 1,
        events[0] is UrlBuilt,
        messages =~= seq![
            match events[0]->UrlBuilt_0 {
                Ok(url) => Message::CopyText(url),
                Err(error) => Message::Error { error: TuiError::Other(error) },
            },
        ],
{
    lemma_only_message(task, events, messages);
}

/// A URL makes its way from the task that builds it to the clipboard as it was built, and nothing
/// else happens on the way.
pub proof fn copied_url_is_the_url<H: Host>(
    url: String,
    step: TaskStep<H>,
    tui: Tui<H>,
    id: RequestId,
    now: Timestamp,
)
    requires
        TaskEvent::<H>::UrlBuilt(Ok(url)).leads_to(step),
    ensures
        step.next is None,
        step.message matches Some(message) && tui.response(message, id, now) matches Ok(effects)
            && effects =~= seq![Effect::View(ViewCommand::CopyText(url))],
{
}

/// So does a curl command.
pub proof fn copied_command_is_the_command<H: Host>(
    command: String,
    step: TaskStep<H>,
    tui: Tui<H>,
    id: RequestId,
    now: Timestamp,
)
    requires
        TaskEvent::<H>::CurlBuilt(Ok(command)).leads_to(step),
    ensures
        step.next is None,
        step.message matches Some(message) && tui.response(message, id, now) matches Ok(effects)
            && effects =~= seq![Effect::View(ViewCommand::CopyText(command))],
{
}

/// Copying the body of a request says one thing. The body is copied exactly if there is one and
/// it is text; otherwise the error says what is wrong with it, or what kept it from being built.
pub proof fn body_is_copied<H: Host>(
    task: Task<H>,
    events: Seq<TaskEvent<H>>,
    messages: Seq<Message<H>>,
)
    requires
        task is BuildBody,
        runs(task, events, messages),
    ensures
        events.len() == 1,
        events[0] is BodyBuilt,
        messages.len() == 1,
        match events[0]->BodyBuilt_0 {
            Ok(Some(body)) => if valid_utf8(body@) {
                messages[0] matches Message::CopyText(text) && encode_utf8(text@) == body@
            } else {
                messages[0] == (Message::<H>::Error { error: TuiError::BodyNotText { body } })
            },
            Ok(None) => messages[0] == (Message::<H>::Error { error: TuiError::NoBody }),
            Err(error) => messages[0] == (Message::<H>::Error { error: TuiError::Other(error) }),
        },
{
    lemma_only_message(task, events, messages);
    if let Ok(Some(body)) = events[0]->BodyBuilt_0 {
        if valid_utf8(body@) {
            decode_utf8_encode_utf8(body@);
        }
    }
}

/// Loading the collection again says one thing: the collection that was loaded, whatever is in it,
/// or the error.
pub proof fn reload_reports_the_collection<H: Host>(
    task: Task<H>,
    events: Seq<TaskEvent<H>>,
    messages: Seq<Message<H>>,
)
    requires
        task is ReloadCollection,
        runs(task, events, messages),
    ensures
        events.len() == 1,
        events[0] is Reloaded,
        messages =~= seq![
            match events[0]->Reloaded_0 {
                Ok(collection) => Message::CollectionEndReload(collection),
                Err(error) => Message::Error { error: TuiError::Other(error) },
            },
        ],
{
    lemma_only_message(task, events, messages);
}

/// Saving a file goes without saying, unless it fails.
pub proof fn saving_speaks_only_of_errors<H: Host>(
    task: Task<H>,
    events: Seq<TaskEvent<H>>,
    messages: Seq<Message<H>>,
)
    requires
        task is SaveFile,
        runs(task, events, messages),
    ensures
        events.len() == 1,
        events[0] is Saved,
        messages =~= match events[0]->Saved_0 {
            Ok(_) => seq![],
            Err(error) => seq![Message::Error { error: TuiError::Other(error) }],
        },
{
    lemma_only_message(task, events, messages);
}

/// A signal from the operating system ends the program, as a quit does. If signals cannot be
/// listened to, the program runs on and the user is told.
pub proof fn signals_quit<H: Host>(
    task: Task<H>,
    events: Seq<TaskEvent<H>>,
    messages: Seq<Message<H>>,
    tui: Tui<H>,
)
    requires
        task is ListenForSignals,
        runs(task, events, messages),
    ensures
        events.len() == 1,
        events[0] is Signalled,
        match events[0]->Signalled_0 {
            Ok(_) => {
                &&& messages =~= seq![Message::Quit]
                &&& !tui.after(messages[0]).should_run
            },
            Err(error) => {
                &&& messages =~= seq![Message::Error { error: TuiError::Other(error) }]
                &&& tui.after(messages[0]) == tui
            },
        },
{
    lemma_only_message(task, events, messages);
}

/// A preview that its destination took goes without saying. One that it did not take is an error.
pub proof fn previews_speak_only_of_conflicts<H: Host>(
    task: Task<H>,
    events: Seq<TaskEvent<H>>,
    messages: Seq<Message<H>>,
)
    requires
        task is RenderPreview,
        runs(task, events, messages),
    ensures
        events.len() == 1,
        events[0] matches TaskEvent::PreviewRendered { stored } && messages =~= if stored {
            seq![]
        } else {
            seq![Message::Error { error: TuiError::PreviewTaken }]
        },
{
    lemma_only_message(task, events, messages);
}

/// A request that was built to be sent is reported as being on its way, and is then sent with its
/// own ticket and kept in the database of its task. One that could not be built is not sent.
pub proof fn what_was_built_is_sent<H: Host>(
    outcome: Result<(H::Ticket, Arc<H::Request>), H::BuildError>,
    database: Arc<H::Database>,
    step: TaskStep<H>,
)
    requires
        (TaskEvent::<H>::RequestBuilt { outcome, database }).leads_to(step),
    ensures
        match outcome {
            Ok((ticket, request)) => {
                &&& step.message == Some(Message::<H>::HttpLoading { request })
                &&& step.next == Some(Task::<H>::SendRequest { ticket, database })
            },
            Err(error) => {
                &&& step.message == Some(Message::<H>::HttpBuildError { error })
                &&& step.next is None
            },
        },
{
}

/// However a request that was sent ends, that end is reported, and nothing comes after it.
pub proof fn the_end_of_a_request_is_reported<H: Host>(
    result: Result<H::Exchange, H::RequestError>,
    step: TaskStep<H>,
)
    requires
        TaskEvent::<H>::RequestSent(result).leads_to(step),
    ensures
        step.message == Some(Message::<H>::HttpComplete(result)),
        step.next is None,
{
}

/// The request that is written as a curl command is the one that was built for it, and until then
/// nothing is said.
pub proof fn what_was_built_is_written_as_curl<H: Host>(
    ticket: H::Ticket,
    request: Arc<H::Request>,
    step: TaskStep<H>,
)
    requires
        TaskEvent::<H>::RecordBuilt(Ok((ticket, request))).leads_to(step),
    ensures
        step.message is None,
        step.next == Some(Task::<H>::WriteCurl { request }),
{
}

/// Every error that keeps a task from what it was to do is handed on as it came: the task says
/// that error and nothing else, and is over.
pub proof fn errors_are_handed_on<H: Host>(event: TaskEvent<H>, error: H::Error, step: TaskStep<H>)
    requires
        event matches TaskEvent::Reloaded(Err(e)) && e == error || (event
            matches TaskEvent::Saved(Err(e)) && e == error) || (event
            matches TaskEvent::Signalled(Err(e)) && e == error) || (event
            matches TaskEvent::UrlBuilt(Err(e)) && e == error) || (event
            matches TaskEvent::BodyBuilt(Err(e)) && e == error) || (event
            matches TaskEvent::RecordBuilt(Err(e)) && e == error) || (event
            matches TaskEvent::CurlBuilt(Err(e)) && e == error),
        event.leads_to(step),
    ensures
        step.message == Some(Message::<H>::Error { error: TuiError::Other(error) }),
        step.next is None,
{
}

/// The collection is loaded again only when the content of its file changes. No other event on
/// the file is acted upon, and a watcher that fails is noted in the log, with its own error.
pub proof fn only_changed_content_reloads<H: Host>(event: Result<FileEvent, H::Error>)
    ensures
        match WatchReaction::<H>::to(event) {
            WatchReaction::Send(message) => {
                &&& message is CollectionStartReload
                &&& event matches Ok(e)
                &&& e == FileEvent::Modify(ModifyKind::Data)
            },
            WatchReaction::Ignore => event matches Ok(e) && e != FileEvent::Modify(
                ModifyKind::Data,
            ),
            WatchReaction::Log(error) => event matches Err(e) && e == error,
        },
{
}

} // verus!
