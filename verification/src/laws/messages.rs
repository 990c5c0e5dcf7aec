//! What holds of every message that the controller handles.
use crate::clock::Timestamp;
use crate::collection::{Collection, CollectionFile, ProfileId, RecipeId};
use crate::effect::{Effect, Modal, ModalPriority, ViewCommand};
use crate::error::TuiError;
use crate::host::Host;
use crate::message::{Action, Message};
use crate::request::{
    Prompter, RequestConfig, RequestId, RequestSeed, RequestState, TemplateContext,
};
use crate::task::Task;
use crate::tui::Tui;
use std::sync::Arc;
use vstd::prelude::*;

verus! {

/// The program runs until it is told to quit, and once told, nothing starts it again.
pub proof fn quitting_is_final<H: Host>(tui: Tui<H>, message: Message<H>)
    ensures
        tui.after(message).should_run <==> tui.should_run && !message.quits(),
{
}

/// The forced quit never reaches the view. Every other input does, as it came.
pub proof fn only_the_forced_quit_bypasses_the_view<H: Host>(
    tui: Tui<H>,
    event: H::InputEvent,
    action: Option<Action<H>>,
    id: RequestId,
    now: Timestamp,
)
    ensures
        ({
            let effects = tui.response(Message::Input { event, action }, id, now);
            if action is Some && action->0 is ForceQuit {
                effects == Ok::<Seq<Effect<H>>, TuiError<H>>(seq![])
            } else {
                effects == Ok::<Seq<Effect<H>>, TuiError<H>>(
                    seq![Effect::View(ViewCommand::HandleInput { event, action })],
                )
            }
        }),
{
}

/// The database, the engine and the path of the collection stay what they are for as long as the
/// program runs, and only a reload that is done changes the collection.
pub proof fn only_a_reload_changes_the_collection<H: Host>(tui: Tui<H>, message: Message<H>)
    ensures
        tui.after(message).database == tui.database,
        tui.after(message).http_engine == tui.http_engine,
        tui.after(message).collection_file.path == tui.collection_file.path,
        !(message is CollectionEndReload) ==> tui.after(message).collection_file
            == tui.collection_file,
{
}

/// Handling a message fails exactly where it asks for a request whose recipe is not in the
/// collection. The error names the recipe, and the controller is left as it was.
pub proof fn only_an_unknown_recipe_fails<H: Host>(
    tui: Tui<H>,
    message: Message<H>,
    id: RequestId,
    now: Timestamp,
)
    ensures
        tui.response(message, id, now) is Err <==> (message.wanted_request() matches Some(config)
            && !tui.knows(config.recipe_id)),
        tui.response(message, id, now) matches Err(error) ==> {
            &&& error == (TuiError::<H>::UnknownRecipe {
                recipe_id: message.wanted_request()->0.recipe_id,
            })
            &&& tui.after(message) == tui
        },
{
}

/// What a task renders templates against, where it renders any.
pub open spec fn context_of<H: Host>(task: Task<H>) -> Option<TemplateContext<H>> {
    match task {
        Task::BuildUrl { context, .. } => Some(context),
        Task::BuildBody { context, .. } => Some(context),
        Task::BuildCurl { context, .. } => Some(context),
        Task::RenderPreview { context, .. } => Some(context),
        Task::BuildRequest { context, .. } => Some(context),
        _ => None,
    }
}

/// The profile that a message selects.
pub open spec fn profile_of<H: Host>(message: Message<H>) -> Option<ProfileId> {
    match message {
        Message::TemplatePreview { profile_id, .. } => profile_id,
        _ => match message.wanted_request() {
            Some(config) => config.profile_id,
            None => None,
        },
    }
}

/// Templates are rendered against the collection as it is when the message is handled, with the
/// profile that the message selects and nothing overridden. The user is asked for values, except
/// for previews: those never ask.
pub proof fn previews_never_prompt<H: Host>(
    tui: Tui<H>,
    message: Message<H>,
    id: RequestId,
    now: Timestamp,
    i: int,
)
    requires
        tui.response(message, id, now) matches Ok(effects) && 0 <= i < effects.len()
            && effects[i] is Spawn && context_of(effects[i]->Spawn_0) is Some,
    ensures
        context_of(tui.response(message, id, now)->Ok_0[i]->Spawn_0)->0 == (TemplateContext {
            selected_profile: profile_of(message),
            collection: tui.collection_file.collection,
            http_engine: Some(tui.http_engine),
            database: tui.database,
            overrides: None,
            prompter: if message is TemplatePreview {
                Prompter::Preview
            } else {
                Prompter::Messages
            },
            recursion_count: 0,
        }),
{
}

/// Handling a message gives back the very effects that it calls for, or the very error.
pub proof fn outcomes_are_taken_as_they_are<H: Host>(
    effects: Vec<Effect<H>>,
    error: TuiError<H>,
)
    ensures
        crate::tui::outcome(Ok::<Vec<Effect<H>>, TuiError<H>>(effects)) == Ok::<
            Seq<Effect<H>>,
            TuiError<H>,
        >(effects@),
        crate::tui::outcome(Err::<Vec<Effect<H>>, TuiError<H>>(error)) == Err::<
            Seq<Effect<H>>,
            TuiError<H>,
        >(error),
{
}

/// Two messages end the program, the quit and an input that is bound to the forced quit, and no
/// other message does. All that they change is that the program is not to run on.
pub proof fn only_two_messages_quit<H: Host>(tui: Tui<H>, message: Message<H>)
    ensures
        message.quits() <==> message is Quit || (message matches Message::Input { action, .. }
            && action is Some && action->0 is ForceQuit),
        message.quits() ==> tui.after(message) == (Tui {
            database: tui.database,
            http_engine: tui.http_engine,
            collection_file: tui.collection_file,
            should_run: false,
        }),
        !message.quits() && !(message is CollectionEndReload) ==> tui.after(message) == tui,
{
}

/// Telling the program to quit calls for nothing else.
pub proof fn quitting_asks_for_nothing<H: Host>(
    tui: Tui<H>,
    message: Message<H>,
    id: RequestId,
    now: Timestamp,
)
    ensures
        tui.response(message, id, now) matches Ok(effects) && effects.len() == 0 <==> message is Quit
            || (message matches Message::Input { action, .. } && action is Some
            && action->0 is ForceQuit),
{
}

/// A recipe is known exactly under the text of its ID: IDs that differ in any character are
/// different IDs.
pub proof fn recipes_go_by_the_whole_id<H: Host>(
    tui: Tui<H>,
    recipe_id: RecipeId,
    other_id: RecipeId,
)
    ensures
        tui.knows(recipe_id) <==> tui.collection_file.collection.recipes().contains_key(
            recipe_id.0@,
        ),
        recipe_id@ == other_id@ <==> recipe_id.0@ == other_id.0@,
{
}

/// What templates are rendered against is what the controller holds, with the profile that is
/// asked for, nothing overridden, and no template around.
pub proof fn templates_see_the_controller<H: Host>(
    tui: Tui<H>,
    profile_id: Option<ProfileId>,
    real_prompt: bool,
)
    ensures
        ({
            let context = tui.context(profile_id, real_prompt);
            &&& context.selected_profile == profile_id
            &&& context.collection == tui.collection_file.collection
            &&& context.http_engine == Some(tui.http_engine)
            &&& context.database == tui.database
            &&& context.overrides is None
            &&& context.prompter is Messages <==> real_prompt
            &&& context.recursion_count == 0
        }),
{
}

/// A request that is sent is shown under the ID that it was given, with the profile and the recipe
/// that were asked for, and is then built under that same ID, from the recipe that the collection
/// has under the ID of the recipe and with the options that were asked for. Nothing else is done.
pub proof fn the_request_shown_is_the_one_built<H: Host>(
    tui: Tui<H>,
    config: RequestConfig<H>,
    id: RequestId,
    now: Timestamp,
)
    requires
        tui.collection_file.collection.recipes().contains_key(config.recipe_id.0@),
    ensures
        tui.response(Message::HttpBeginRequest(config), id, now) matches Ok(effects) && effects
            =~= seq![
            Effect::View(
                ViewCommand::SetRequestState(
                    RequestState::Building {
                        id,
                        start_time: now,
                        profile_id: config.profile_id,
                        recipe_id: config.recipe_id,
                    },
                ),
            ),
            Effect::Spawn(
                Task::BuildRequest {
                    seed: RequestSeed {
                        id,
                        recipe: tui.collection_file.collection.recipes()[config.recipe_id.0@],
                        options: config.options,
                    },
                    context: TemplateContext {
                        selected_profile: config.profile_id,
                        collection: tui.collection_file.collection,
                        http_engine: Some(tui.http_engine),
                        database: tui.database,
                        overrides: None,
                        prompter: Prompter::Messages,
                        recursion_count: 0,
                    },
                    database: tui.database,
                },
            ),
        ],
{
}

/// A request is launched by one message alone, and only if the collection has its recipe.
pub proof fn only_known_recipes_are_launched<H: Host>(tui: Tui<H>, message: Message<H>)
    ensures
        tui.launches(message) <==> (message matches Message::HttpBeginRequest(config)
            && tui.collection_file.collection.recipes().contains_key(config.recipe_id.0@)),
{
}

/// A time is valid exactly if it is not before the epoch and its fraction is less than a second.
pub proof fn times_are_counted_from_the_epoch(time: Timestamp)
    ensures
        time.valid() <==> time.seconds >= 0 && time.nanos <= 999_999_999,
{
}

/// It makes no difference whether a request is launched at a given time or by a message that is
/// handled at that time.
pub proof fn launching_is_what_the_message_does<H: Host>(
    tui: Tui<H>,
    config: RequestConfig<H>,
    id: RequestId,
    now: Timestamp,
)
    ensures
        tui.sending(config, id, now) == tui.response(Message::HttpBeginRequest(config), id, now),
{
}

/// Whatever of a request is to be copied, it is built from just what the request would be built
/// from if it were sent: the given ID, the recipe that the collection has, the options and the
/// profile that were asked for. Nothing else is done, and nothing is shown.
pub proof fn copying_builds_what_sending_would<H: Host>(
    tui: Tui<H>,
    config: RequestConfig<H>,
    id: RequestId,
    now: Timestamp,
)
    requires
        tui.collection_file.collection.recipes().contains_key(config.recipe_id.0@),
    ensures
        ({
            let seed = RequestSeed {
                id,
                recipe: tui.collection_file.collection.recipes()[config.recipe_id.0@],
                options: config.options,
            };
            let context = TemplateContext {
                selected_profile: config.profile_id,
                collection: tui.collection_file.collection,
                http_engine: Some(tui.http_engine),
                database: tui.database,
                overrides: None,
                prompter: Prompter::Messages,
                recursion_count: 0,
            };
            &&& tui.response(Message::CopyRequestUrl(config), id, now) matches Ok(effects)
                && effects =~= seq![Effect::Spawn(Task::BuildUrl { seed, context })]
            &&& tui.response(Message::CopyRequestBody(config), id, now) matches Ok(effects)
                && effects =~= seq![Effect::Spawn(Task::BuildBody { seed, context })]
            &&& tui.response(Message::CopyRequestCurl(config), id, now) matches Ok(effects)
                && effects =~= seq![Effect::Spawn(Task::BuildCurl { seed, context })]
            &&& tui.seed(config, id) == seed
        }),
{
}

/// A task about a request is spawned, and it alone, if the collection has the recipe. If it has
/// not, the error names the recipe.
pub proof fn tasks_are_spawned_for_known_recipes<H: Host>(
    tui: Tui<H>,
    config: RequestConfig<H>,
    task: Task<H>,
)
    ensures
        if tui.collection_file.collection.recipes().contains_key(config.recipe_id.0@) {
            tui.spawned(config, task) matches Ok(effects) && effects =~= seq![Effect::Spawn(task)]
        } else {
            tui.spawned(config, task) matches Err(error) && error == (TuiError::<
                H,
            >::UnknownRecipe { recipe_id: config.recipe_id })
        },
{
}

/// Whatever is asked of a recipe that the collection does not have is refused, with an error that
/// names the recipe, and the controller is left as it was.
pub proof fn unknown_recipes_are_refused<H: Host>(
    tui: Tui<H>,
    config: RequestConfig<H>,
    message: Message<H>,
    id: RequestId,
    now: Timestamp,
)
    requires
        !tui.collection_file.collection.recipes().contains_key(config.recipe_id.0@),
        message == Message::HttpBeginRequest(config) || message == Message::CopyRequestUrl(config)
            || message == Message::CopyRequestBody(config) || message == Message::CopyRequestCurl(
            config,
        ),
    ensures
        tui.response(message, id, now) == Err::<Seq<Effect<H>>, TuiError<H>>(
            (TuiError::UnknownRecipe { recipe_id: config.recipe_id }),
        ),
        tui.after(message) == tui,
{
}

/// Data is saved whether or not a path is suggested for it: the one thing done is to save that
/// very data, with that very suggestion.
pub proof fn data_is_saved_as_asked<H: Host>(
    tui: Tui<H>,
    default_path: Option<String>,
    data: Vec<u8>,
    id: RequestId,
    now: Timestamp,
)
    ensures
        tui.response(Message::SaveFile { default_path, data }, id, now) matches Ok(effects)
            && effects =~= seq![Effect::Spawn(Task::SaveFile { default_path, data })],
{
}

/// Texts are copied and shown as they come, each on its own.
pub proof fn texts_reach_the_view_unchanged<H: Host>(
    tui: Tui<H>,
    text: String,
    id: RequestId,
    now: Timestamp,
)
    ensures
        tui.response(Message::CopyText(text), id, now) matches Ok(effects) && effects =~= seq![
            Effect::View(ViewCommand::CopyText(text)),
        ],
        tui.response(Message::Notify(text), id, now) matches Ok(effects) && effects =~= seq![
            Effect::View(ViewCommand::Notify(text)),
        ],
{
}

/// Errors come up before anything else that the user is asked: each opens one modal, of high
/// priority, and prompts and confirmations open one each, of low priority.
pub proof fn errors_come_before_questions<H: Host>(
    tui: Tui<H>,
    error: TuiError<H>,
    prompt: H::Prompt,
    confirm: H::Confirm,
    id: RequestId,
    now: Timestamp,
)
    ensures
        tui.response(Message::Error { error }, id, now) matches Ok(effects) && effects =~= seq![
            Effect::View(
                ViewCommand::OpenModal {
                    modal: Modal::Error(error),
                    priority: ModalPriority::High,
                },
            ),
        ],
        tui.response(Message::PromptStart(prompt), id, now) matches Ok(effects) && effects =~= seq![
            Effect::View(
                ViewCommand::OpenModal {
                    modal: Modal::Prompt(prompt),
                    priority: ModalPriority::Low,
                },
            ),
        ],
        tui.response(Message::ConfirmStart(confirm), id, now) matches Ok(effects) && effects
            =~= seq![
            Effect::View(
                ViewCommand::OpenModal {
                    modal: Modal::Confirm(confirm),
                    priority: ModalPriority::Low,
                },
            ),
        ],
{
}

/// What is reported about a request is what the view shows of it, and the controller does nothing
/// else about it.
pub proof fn reports_about_requests_are_shown<H: Host>(
    tui: Tui<H>,
    build_error: H::BuildError,
    request: Arc<H::Request>,
    exchange: H::Exchange,
    request_error: H::RequestError,
    id: RequestId,
    now: Timestamp,
)
    ensures
        tui.response(Message::HttpBuildError { error: build_error }, id, now) matches Ok(effects)
            && effects =~= seq![
            Effect::View(
                ViewCommand::SetRequestState(RequestState::BuildError { error: build_error }),
            ),
        ],
        tui.response(Message::HttpLoading { request }, id, now) matches Ok(effects) && effects
            =~= seq![
            Effect::View(ViewCommand::SetRequestState(RequestState::Loading { request })),
        ],
        tui.response(Message::HttpComplete(Ok(exchange)), id, now) matches Ok(effects) && effects
            =~= seq![
            Effect::View(ViewCommand::SetRequestState(RequestState::Response { exchange })),
        ],
        tui.response(Message::HttpComplete(Err(request_error)), id, now) matches Ok(effects)
            && effects =~= seq![
            Effect::View(
                ViewCommand::SetRequestState(RequestState::RequestError { error: request_error }),
            ),
        ],
{
}

/// A preview is rendered once, from the template, for the profile and into the destination that
/// were asked for, and with a placeholder for whatever the user would be asked.
pub proof fn previews_are_rendered_as_asked<H: Host>(
    tui: Tui<H>,
    template: H::Template,
    profile_id: Option<ProfileId>,
    destination: H::Destination,
    id: RequestId,
    now: Timestamp,
)
    ensures
        tui.response(Message::TemplatePreview { template, profile_id, destination }, id, now)
            matches Ok(effects) && effects =~= seq![
            Effect::Spawn(
                Task::RenderPreview {
                    template,
                    context: TemplateContext {
                        selected_profile: profile_id,
                        collection: tui.collection_file.collection,
                        http_engine: Some(tui.http_engine),
                        database: tui.database,
                        overrides: None,
                        prompter: Prompter::Preview,
                        recursion_count: 0,
                    },
                    destination,
                },
            ),
        ],
{
}

/// The collection is edited in, and loaded again from, the one file that it came from.
pub proof fn the_collection_keeps_its_file<H: Host>(tui: Tui<H>, id: RequestId, now: Timestamp)
    ensures
        tui.response(Message::CollectionEdit, id, now) matches Ok(effects) && effects =~= seq![
            Effect::OpenFile { path: tui.collection_file.path },
        ],
        tui.response(Message::CollectionStartReload, id, now) matches Ok(effects) && effects
            =~= seq![Effect::Spawn(Task::ReloadCollection { path: tui.collection_file.path })],
{
}

/// A collection that was loaded again takes the place of the one before, whatever the two hold,
/// and all else stays. The old view is given up, and then a view of the new collection is made.
pub proof fn a_reloaded_collection_takes_over<H: Host>(
    tui: Tui<H>,
    collection: Arc<Collection<H>>,
    id: RequestId,
    now: Timestamp,
)
    ensures
        tui.after(Message::CollectionEndReload(collection)) == (Tui {
            database: tui.database,
            http_engine: tui.http_engine,
            collection_file: CollectionFile { path: tui.collection_file.path, collection },
            should_run: tui.should_run,
        }),
        tui.response(Message::CollectionEndReload(collection), id, now) matches Ok(effects)
            && effects =~= seq![
            Effect::View(ViewCommand::Drop),
            Effect::View(
                ViewCommand::Create {
                    collection_file: CollectionFile { path: tui.collection_file.path, collection },
                    database: tui.database,
                },
            ),
        ],
{
}

/// After a reload, requests are built from the new collection: a recipe that it has is the one
/// that is built, and one that it lacks is refused, whatever the collection before it had.
pub proof fn requests_follow_the_reload<H: Host>(
    tui: Tui<H>,
    collection: Arc<Collection<H>>,
    config: RequestConfig<H>,
    id: RequestId,
    now: Timestamp,
)
    ensures
        ({
            let result = tui.after(Message::CollectionEndReload(collection)).response(
                Message::HttpBeginRequest(config),
                id,
                now,
            );
            if collection.recipes().contains_key(config.recipe_id.0@) {
                &&& result matches Ok(effects)
                &&& effects.len() == 2
                &&& effects[1] matches Effect::Spawn(Task::BuildRequest { seed, context, .. })
                &&& seed.recipe == collection.recipes()[config.recipe_id.0@]
                &&& context.collection == collection
            } else {
                result matches Err(TuiError::UnknownRecipe { recipe_id }) && recipe_id
                    == config.recipe_id
            }
        }),
{
}

} // verus!
