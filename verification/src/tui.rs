use crate::clock::{current_time, Timestamp};
use crate::collection::{Collection, CollectionFile, ProfileId, RecipeId};
use crate::effect::{Effect, Modal, ModalPriority, ViewCommand};
use crate::error::TuiError;
use crate::host::Host;
use crate::message::{Action, Message};
use crate::request::{
    Prompter, RequestConfig, RequestId, RequestSeed, RequestState, TemplateContext,
};
use crate::sharing::share;
use crate::task::Task;
use std::sync::Arc;
use vstd::prelude::*;

verus! {

/// The controller: what the interface knows between two messages.
pub struct Tui<H: Host> {
    /// Where requests and the state of the view are kept.
    pub database: Arc<H::Database>,
    /// The engine that builds requests.
    pub http_engine: Arc<H::HttpEngine>,
    /// The collection that is shown, and its file.
    pub collection_file: CollectionFile<H>,
    /// Cleared when the program is asked to quit.
    pub should_run: bool,
}

/// What handling a message comes to, over the sequence of effects.
pub open spec fn outcome<H: Host>(result: Result<Vec<Effect<H>>, TuiError<H>>) -> Result<
    Seq<Effect<H>>,
    TuiError<H>,
> {
    match result {
        Ok(effects) => Ok(effects@),
        Err(error) => Err(error),
    }
}

/// A single effect.
pub(crate) fn just<H: Host>(effect: Effect<H>) -> (effects: Vec<Effect<H>>)
    ensures
        effects@ == seq![effect],
{
    vec![effect]
}

impl<H: Host> Tui<H> {
    /// What templates are rendered against right now, for the given profile.
    pub open spec fn context(
        self,
        profile_id: Option<ProfileId>,
        real_prompt: bool,
    ) -> TemplateContext<H> {
        TemplateContext {
            selected_profile: profile_id,
            collection: self.collection_file.collection,
            http_engine: Some(self.http_engine),
            database: self.database,
            overrides: None,
            prompter: if real_prompt {
                Prompter::Messages
            } else {
                Prompter::Preview
            },
            recursion_count: 0,
        }
    }

    /// Whether the collection holds the recipe that is asked for.
    pub open spec fn knows(self, recipe_id: RecipeId) -> bool {
        self.collection_file.collection.recipes().contains_key(recipe_id@)
    }

    /// What the request that is asked for is built from.
    pub open spec fn seed(self, config: RequestConfig<H>, id: RequestId) -> RequestSeed<H> {
        RequestSeed {
            id,
            recipe: self.collection_file.collection.recipes()[config.recipe_id@],
            options: config.options,
        }
    }

    /// The task, where the recipe that is asked for is known, and an error where it is not.
    pub open spec fn spawned(self, config: RequestConfig<H>, task: Task<H>) -> Result<
        Seq<Effect<H>>,
        TuiError<H>,
    > {
        if self.knows(config.recipe_id) {
            Ok(seq![Effect::Spawn(task)])
        } else {
            Err(TuiError::UnknownRecipe { recipe_id: config.recipe_id })
        }
    }

    /// The effects of a request that is to be sent: it is shown as being built, then built.
    pub open spec fn sending(
        self,
        config: RequestConfig<H>,
        id: RequestId,
        start_time: Timestamp,
    ) -> Result<Seq<Effect<H>>, TuiError<H>> {
        if self.knows(config.recipe_id) {
            Ok(
                seq![
                    Effect::View(
                        ViewCommand::SetRequestState(
                            RequestState::Building {
                                id,
                                start_time,
                                profile_id: config.profile_id,
                                recipe_id: config.recipe_id,
                            },
                        ),
                    ),
                    Effect::Spawn(
                        Task::BuildRequest {
                            seed: self.seed(config, id),
                            context: self.context(config.profile_id, true),
                            database: self.database,
                        },
                    ),
                ],
            )
        } else {
            Err(TuiError::UnknownRecipe { recipe_id: config.recipe_id })
        }
    }

    /// Whether the message launches a request. That is when the clock is read.
    pub open spec fn launches(self, message: Message<H>) -> bool {
        message matches Message::HttpBeginRequest(config) && self.knows(config.recipe_id)
    }

    /// What a message calls for. `id` names the request that the message may ask for, and `now`
    /// is when its building starts.
    pub open spec fn response(self, message: Message<H>, id: RequestId, now: Timestamp) -> Result<
        Seq<Effect<H>>,
        TuiError<H>,
    > {
        match message {
            Message::CollectionStartReload => Ok(
                seq![
                    Effect::Spawn(Task::ReloadCollection { path: self.collection_file.path }),
                ],
            ),
            Message::CollectionEndReload(collection) => Ok(
                seq![
                    Effect::View(ViewCommand::Drop),
                    Effect::View(
                        ViewCommand::Create {
                            collection_file: CollectionFile {
                                path: self.collection_file.path,
                                collection,
                            },
                            database: self.database,
                        },
                    ),
                ],
            ),
            Message::CollectionEdit => Ok(
                seq![Effect::OpenFile { path: self.collection_file.path }],
            ),
            Message::CopyRequestUrl(config) => self.spawned(
                config,
                Task::BuildUrl {
                    seed: self.seed(config, id),
                    context: self.context(config.profile_id, true),
                },
            ),
            Message::CopyRequestBody(config) => self.spawned(
                config,
                Task::BuildBody {
                    seed: self.seed(config, id),
                    context: self.context(config.profile_id, true),
                },
            ),
            Message::CopyRequestCurl(config) => self.spawned(
                config,
                Task::BuildCurl {
                    seed: self.seed(config, id),
                    context: self.context(config.profile_id, true),
                },
            ),
            Message::CopyText(text) => Ok(seq![Effect::View(ViewCommand::CopyText(text))]),
            Message::SaveFile { default_path, data } => Ok(
                seq![Effect::Spawn(Task::SaveFile { default_path, data })],
            ),
            Message::Error { error } => Ok(
                seq![
                    Effect::View(
                        ViewCommand::OpenModal {
                            modal: Modal::Error(error),
                            priority: ModalPriority::High,
                        },
                    ),
                ],
            ),
            Message::HttpBeginRequest(config) => self.sending(config, id, now),
            Message::HttpBuildError { error } => Ok(
                seq![
                    Effect::View(ViewCommand::SetRequestState(RequestState::BuildError { error })),
                ],
            ),
            Message::HttpLoading { request } => Ok(
                seq![
                    Effect::View(ViewCommand::SetRequestState(RequestState::Loading { request })),
                ],
            ),
            Message::HttpComplete(Ok(exchange)) => Ok(
                seq![
                    Effect::View(ViewCommand::SetRequestState(RequestState::Response { exchange })),
                ],
            ),
            Message::HttpComplete(Err(error)) => Ok(
                seq![
                    Effect::View(
                        ViewCommand::SetRequestState(RequestState::RequestError { error }),
                    ),
                ],
            ),
            Message::Input { action: Some(Action::ForceQuit), .. } => Ok(seq![]),
            Message::Input { event, action } => Ok(
                seq![Effect::View(ViewCommand::HandleInput { event, action })],
            ),
            Message::Notify(text) => Ok(seq![Effect::View(ViewCommand::Notify(text))]),
            Message::PromptStart(prompt) => Ok(
                seq![
                    Effect::View(
                        ViewCommand::OpenModal {
                            modal: Modal::Prompt(prompt),
                            priority: ModalPriority::Low,
                        },
                    ),
                ],
            ),
            Message::ConfirmStart(confirm) => Ok(
                seq![
                    Effect::View(
                        ViewCommand::OpenModal {
                            modal: Modal::Confirm(confirm),
                            priority: ModalPriority::Low,
                        },
                    ),
                ],
            ),
            Message::TemplatePreview { template, profile_id, destination } => Ok(
                seq![
                    Effect::Spawn(
                        Task::RenderPreview {
                            template,
                            context: self.context(profile_id, false),
                            destination,
                        },
                    ),
                ],
            ),
            Message::Quit => Ok(seq![]),
        }
    }

    /// What the controller is after a message.
    pub open spec fn after(self, message: Message<H>) -> Self {
        match message {
            Message::CollectionEndReload(collection) => Tui {
                collection_file: CollectionFile { path: self.collection_file.path, collection },
                ..self
            },
            _ => Tui { should_run: self.should_run && !message.quits(), ..self },
        }
    }

    /// The recipe with the given ID.
    pub fn get_recipe(&self, recipe_id: &RecipeId) -> (result: Result<Arc<H::Recipe>, TuiError<H>>)
        ensures
            self.knows(*recipe_id) ==> result == Ok::<Arc<H::Recipe>, TuiError<H>>(
                self.collection_file.collection.recipes()[recipe_id@],
            ),
            !self.knows(*recipe_id) ==> result == Err::<Arc<H::Recipe>, TuiError<H>>(
                (TuiError::UnknownRecipe { recipe_id: *recipe_id }),
            ),
    {
        match self.collection_file.collection.get_recipe(recipe_id) {
            Some(recipe) => Ok(recipe),
            None => Err(TuiError::UnknownRecipe { recipe_id: recipe_id.clone() }),
        }
    }

    /// Exposes the state of the controller to templates. Where `real_prompt` is not set, nobody
    /// is asked for anything while they are rendered.
    pub fn template_context(&self, profile_id: Option<ProfileId>, real_prompt: bool) -> (context:
        TemplateContext<H>)
        ensures
            context == self.context(profile_id, real_prompt),
    {
        TemplateContext {
            selected_profile: profile_id,
            collection: share(&self.collection_file.collection),
            http_engine: Some(share(&self.http_engine)),
            database: share(&self.database),
            overrides: None,
            prompter: if real_prompt {
                Prompter::Messages
            } else {
                Prompter::Preview
            },
            recursion_count: 0,
        }
    }

    /// Renders the URL of a request, to be copied.
    pub fn copy_request_url(&self, config: RequestConfig<H>, id: RequestId) -> (result: Result<
        Vec<Effect<H>>,
        TuiError<H>,
    >)
        ensures
            outcome(result) == self.spawned(
                config,
                (Task::BuildUrl {
                    seed: self.seed(config, id),
                    context: self.context(config.profile_id, true),
                }),
            ),
    {
        let recipe = match self.get_recipe(&config.recipe_id) {
            Ok(recipe) => recipe,
            Err(error) => return Err(error),
        };
        let seed = RequestSeed { id, recipe, options: config.options };
        let context = self.template_context(config.profile_id, true);
        Ok(just(Effect::Spawn(Task::BuildUrl { seed, context })))
    }

    /// Renders the body of a request, to be copied.
    pub fn copy_request_body(&self, config: RequestConfig<H>, id: RequestId) -> (result: Result<
        Vec<Effect<H>>,
        TuiError<H>,
    >)
        ensures
            outcome(result) == self.spawned(
                config,
                (Task::BuildBody {
                    seed: self.seed(config, id),
                    context: self.context(config.profile_id, true),
                }),
            ),
    {
        let recipe = match self.get_recipe(&config.recipe_id) {
            Ok(recipe) => recipe,
            Err(error) => return Err(error),
        };
        let seed = RequestSeed { id, recipe, options: config.options };
        let context = self.template_context(config.profile_id, true);
        Ok(just(Effect::Spawn(Task::BuildBody { seed, context })))
    }

    /// Renders a request, to be copied as the equivalent curl command.
    pub fn copy_request_curl(&self, config: RequestConfig<H>, id: RequestId) -> (result: Result<
        Vec<Effect<H>>,
        TuiError<H>,
    >)
        ensures
            outcome(result) == self.spawned(
                config,
                (Task::BuildCurl {
                    seed: self.seed(config, id),
                    context: self.context(config.profile_id, true),
                }),
            ),
    {
        let recipe = match self.get_recipe(&config.recipe_id) {
            Ok(recipe) => recipe,
            Err(error) => return Err(error),
        };
        let seed = RequestSeed { id, recipe, options: config.options };
        let context = self.template_context(config.profile_id, true);
        Ok(just(Effect::Spawn(Task::BuildCurl { seed, context })))
    }

    /// Launches a request whose recipe was found.
    fn launch(
        &self,
        config: RequestConfig<H>,
        recipe: Arc<H::Recipe>,
        id: RequestId,
        start_time: Timestamp,
    ) -> (effects: Vec<Effect<H>>)
        requires
            self.knows(config.recipe_id),
            recipe == self.collection_file.collection.recipes()[config.recipe_id@],
        ensures
            self.sending(config, id, start_time) == Ok::<Seq<Effect<H>>, TuiError<H>>(effects@),
    {
        let context = self.template_context(config.profile_id.clone(), true);
        let seed = RequestSeed { id, recipe, options: config.options };
        let state = RequestState::Building {
            id,
            start_time,
            profile_id: config.profile_id,
            recipe_id: config.recipe_id,
        };
        let database = share(&self.database);
        vec![
            Effect::View(ViewCommand::SetRequestState(state)),
            Effect::Spawn(Task::BuildRequest { seed, context, database }),
        ]
    }

    /// Launches a request whose building starts at the given time.
    pub fn send_request_at(
        &self,
        config: RequestConfig<H>,
        id: RequestId,
        start_time: Timestamp,
    ) -> (result: Result<Vec<Effect<H>>, TuiError<H>>)
        ensures
            outcome(result) == self.sending(config, id, start_time),
    {
        match self.get_recipe(&config.recipe_id) {
            Ok(recipe) => Ok(self.launch(config, recipe, id, start_time)),
            Err(error) => Err(error),
        }
    }

    /// Launches a request, now. The clock is read only once the recipe is found, and what it shows
    /// then is when the building starts.
    pub fn send_request(&self, config: RequestConfig<H>, id: RequestId) -> (result: Result<
        Vec<Effect<H>>,
        TuiError<H>,
    >)
        ensures
            exists|now: Timestamp|
                now.valid() && (self.knows(config.recipe_id) ==> now.was_shown()) && outcome(result)
                    == #[trigger] self.sending(config, id, now),
    {
        match self.get_recipe(&config.recipe_id) {
            Ok(recipe) => {
                let now = current_time();
                let effects = self.launch(config, recipe, id, now);
                assert(self.sending(config, id, now) == Ok::<Seq<Effect<H>>, TuiError<H>>(effects@));
                Ok(effects)
            },
            Err(error) => {
                let ghost now = Timestamp { seconds: 0, nanos: 0 };
                assert(self.sending(config, id, now) == Err::<Seq<Effect<H>>, TuiError<H>>(error));
                Err(error)
            },
        }
    }

    /// Renders a template into its destination. As this is for show, the user is not asked for
    /// anything.
    pub fn render_template_preview(
        &self,
        template: H::Template,
        profile_id: Option<ProfileId>,
        destination: H::Destination,
    ) -> (effects: Vec<Effect<H>>)
        ensures
            effects@ == seq![
                Effect::Spawn(
                    (Task::RenderPreview {
                        template,
                        context: self.context(profile_id, false),
                        destination,
                    }),
                ),
            ],
    {
        let context = self.template_context(profile_id, false);
        just(Effect::Spawn(Task::RenderPreview { template, context, destination }))
    }

    /// Shows another collection. The whole view is rebuilt, and the old one is given up first,
    /// so that what it saves is what the new one restores.
    pub fn reload_collection(&mut self, collection: Arc<Collection<H>>) -> (effects: Vec<Effect<H>>)
        ensures
            *final(self) == old(self).after(Message::CollectionEndReload(collection)),
            effects@ == seq![
                Effect::View(ViewCommand::Drop),
                Effect::View(
                    (ViewCommand::Create {
                        collection_file: final(self).collection_file,
                        database: old(self).database,
                    }),
                ),
            ],
    {
        self.collection_file.collection = collection;
        let collection_file = self.collection_file.share();
        let database = share(&self.database);
        vec![
            Effect::View(ViewCommand::Drop),
            Effect::View(ViewCommand::Create { collection_file, database }),
        ]
    }

    /// Ends the main loop, once the current iteration is done.
    pub fn quit(&mut self)
        ensures
            *final(self) == (Tui { should_run: false, ..*old(self) }),
    {
        self.should_run = false;
    }

    /// Handles a message, and says what it calls for. An error is for the user to see. `id` names
    /// the request that the message may ask for.
    pub fn handle_message(&mut self, message: Message<H>, id: RequestId) -> (result: Result<
        Vec<Effect<H>>,
        TuiError<H>,
    >)
        ensures
            *final(self) == old(self).after(message),
            exists|now: Timestamp|
                now.valid() && (old(self).launches(message) ==> now.was_shown()) && outcome(result)
                    == #[trigger] old(self).response(message, id, now),
    {
        let ghost before = *self;
        let result = match message {
            Message::CollectionStartReload => Ok(
                just(
                    Effect::Spawn(
                        Task::ReloadCollection { path: share(&self.collection_file.path) },
                    ),
                ),
            ),
            Message::CollectionEndReload(collection) => Ok(self.reload_collection(collection)),
            Message::CollectionEdit => Ok(
                just(Effect::OpenFile { path: share(&self.collection_file.path) }),
            ),
            Message::CopyRequestUrl(config) => self.copy_request_url(config, id),
            Message::CopyRequestBody(config) => self.copy_request_body(config, id),
            Message::CopyRequestCurl(config) => self.copy_request_curl(config, id),
            Message::CopyText(text) => Ok(just(Effect::View(ViewCommand::CopyText(text)))),
            Message::SaveFile { default_path, data } => Ok(
                just(Effect::Spawn(Task::SaveFile { default_path, data })),
            ),
            Message::Error { error } => Ok(just(open_modal(Modal::Error(error), ModalPriority::High))),
            Message::HttpBeginRequest(config) => {
                let result = self.send_request(config, id);
                proof {
                    let now = choose|now: Timestamp|
                        now.valid() && (before.knows(config.recipe_id) ==> now.was_shown())
                            && outcome(result) == #[trigger] before.sending(config, id, now);
                    assert(outcome(result) == before.response(message, id, now));
                }
                return result;
            },
            Message::HttpBuildError { error } => Ok(
                just(set_request_state(RequestState::BuildError { error })),
            ),
            Message::HttpLoading { request } => Ok(
                just(set_request_state(RequestState::Loading { request })),
            ),
            Message::HttpComplete(Ok(exchange)) => Ok(
                just(set_request_state(RequestState::Response { exchange })),
            ),
            Message::HttpComplete(Err(error)) => Ok(
                just(set_request_state(RequestState::RequestError { error })),
            ),
            // This one does not reach the view, where a text box could take it for itself.
            Message::Input { action: Some(Action::ForceQuit), .. } => {
                self.quit();
                Ok(Vec::new())
            },
            Message::Input { event, action } => Ok(
                just(Effect::View(ViewCommand::HandleInput { event, action })),
            ),
            Message::Notify(text) => Ok(just(Effect::View(ViewCommand::Notify(text)))),
            Message::PromptStart(prompt) => Ok(
                just(open_modal(Modal::Prompt(prompt), ModalPriority::Low)),
            ),
            Message::ConfirmStart(confirm) => Ok(
                just(open_modal(Modal::Confirm(confirm), ModalPriority::Low)),
            ),
            Message::TemplatePreview { template, profile_id, destination } => Ok(
                self.render_template_preview(template, profile_id, destination),
            ),
            Message::Quit => {
                self.quit();
                Ok(Vec::new())
            },
        };
        proof {
            let now = Timestamp { seconds: 0, nanos: 0 };
            assert(outcome(result) == before.response(message, id, now));
        }
        result
    }
}

pub(crate) fn open_modal<H: Host>(modal: Modal<H>, priority: ModalPriority) -> (effect: Effect<H>)
    ensures
        effect == Effect::View((ViewCommand::OpenModal { modal, priority })),
{
    Effect::View(ViewCommand::OpenModal { modal, priority })
}

fn set_request_state<H: Host>(state: RequestState<H>) -> (effect: Effect<H>)
    ensures
        effect == Effect::View(ViewCommand::SetRequestState(state)),
{
    Effect::View(ViewCommand::SetRequestState(state))
}

} // verus!
