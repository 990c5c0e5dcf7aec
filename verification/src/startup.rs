use crate::collection::{Collection, CollectionFile};
use crate::effect::ViewCommand;
use crate::error::TuiError;
use crate::host::Host;
use crate::message::Message;
use crate::sharing::share;
use crate::tui::Tui;
use std::sync::Arc;
use vstd::pervasive::unreached;
use vstd::prelude::*;

verus! {

/// Work that starting the program consists of.
pub enum StartEffect<H: Host> {
    /// See to it that a panic gives the terminal back before anything is printed.
    InstallPanicHandler,
    /// Find the collection file, which the user may have named.
    ResolvePath { requested: Option<Arc<H::Path>> },
    /// Read the configuration.
    LoadConfig,
    /// Make the message queue.
    CreateQueue,
    /// Open the database, for the collection at a path.
    OpenDatabase { path: Arc<H::Path> },
    /// Set up what lives as long as the program: the engines and the rest of the context.
    InitContext { config: H::Config },
    /// Load the collection.
    LoadCollection { path: Arc<H::Path> },
    /// Put a message on the queue.
    Send(Message<H>),
    /// Tell the view something.
    View(ViewCommand<H>),
    /// Take over the terminal.
    InitTerminal,
}

/// What the start waits for, with all that was gathered so far.
pub enum Startup<H: Host> {
    Path,
    Config { path: Arc<H::Path> },
    Database { path: Arc<H::Path>, config: H::Config },
    Context { path: Arc<H::Path>, database: Arc<H::Database> },
    Collection {
        path: Arc<H::Path>,
        database: Arc<H::Database>,
        http_engine: Arc<H::HttpEngine>,
    },
    Terminal { tui: Tui<H> },
}

/// What came of the last effect that the start asked for.
pub enum StartEvent<H: Host> {
    PathResolved(Result<Arc<H::Path>, H::Error>),
    ConfigLoaded(Result<H::Config, H::Error>),
    DatabaseOpened(Result<Arc<H::Database>, H::Error>),
    ContextReady { http_engine: Arc<H::HttpEngine> },
    CollectionLoaded(Result<Arc<Collection<H>>, H::Error>),
    TerminalReady(Result<(), H::Error>),
}

/// How the start goes on.
pub enum Progress<H: Host> {
    /// The effects are due, in order; what came of the last one is waited for.
    Pending { startup: Startup<H>, effects: Vec<StartEffect<H>> },
    /// The main loop can run.
    Ready(Tui<H>),
    /// The program cannot run, and panics with this error. The main loop is never entered.
    Panic(TuiError<H>),
}

impl<H: Host> Progress<H> {
    /// Whether these effects are due before that is waited for.
    pub open spec fn pending(self, startup: Startup<H>, effects: Seq<StartEffect<H>>) -> bool {
        self matches Progress::Pending { startup: s, effects: e } && s == startup && e@ =~= effects
    }
}

impl<H: Host> Startup<H> {
    /// Whether the event is what the start waits for.
    pub open spec fn waits_for(self, event: StartEvent<H>) -> bool {
        match self {
            Startup::Path => event is PathResolved,
            Startup::Config { .. } => event is ConfigLoaded,
            Startup::Database { .. } => event is DatabaseOpened,
            Startup::Context { .. } => event is ContextReady,
            Startup::Collection { .. } => event is CollectionLoaded,
            Startup::Terminal { .. } => event is TerminalReady,
        }
    }

    /// The last leg: the view is made, and the terminal is taken over right before the controller
    /// takes charge of giving it back. `reports` comes before.
    pub open spec fn arrival(tui: Tui<H>, reports: Seq<StartEffect<H>>) -> Seq<StartEffect<H>> {
        reports + seq![
            StartEffect::View(
                ViewCommand::Create {
                    collection_file: tui.collection_file,
                    database: tui.database,
                },
            ),
            StartEffect::InitTerminal,
        ]
    }

    /// Whether this is how the start goes on after an event.
    ///
    /// Every error prevents the program from running, so it is a panic, but for one: if the
    /// collection cannot be loaded, the error is reported and the program goes on with an empty
    /// collection at the same path, so that the user can mend the file while it is being watched.
    pub open spec fn leads_to(self, event: StartEvent<H>, progress: Progress<H>) -> bool {
        match (self, event) {
            (Startup::Path, StartEvent::PathResolved(Ok(path))) => progress.pending(
                Startup::Config { path },
                seq![StartEffect::LoadConfig],
            ),
            (Startup::Config { path }, StartEvent::ConfigLoaded(Ok(config))) => progress.pending(
                Startup::Database { path, config },
                seq![StartEffect::CreateQueue, StartEffect::OpenDatabase { path }],
            ),
            (
                Startup::Database { path, config },
                StartEvent::DatabaseOpened(Ok(database)),
            ) => progress.pending(
                Startup::Context { path, database },
                seq![StartEffect::InitContext { config }],
            ),
            (
                Startup::Context { path, database },
                StartEvent::ContextReady { http_engine },
            ) => progress.pending(
                Startup::Collection { path, database, http_engine },
                seq![StartEffect::LoadCollection { path }],
            ),
            (
                Startup::Collection { path, database, http_engine },
                StartEvent::CollectionLoaded(Ok(collection)),
            ) => {
                let tui = Tui {
                    database,
                    http_engine,
                    collection_file: CollectionFile { path, collection },
                    should_run: true,
                };
                progress.pending(Startup::Terminal { tui }, Self::arrival(tui, seq![]))
            },
            (
                Startup::Collection { path, database, http_engine },
                StartEvent::CollectionLoaded(Err(error)),
            ) => {
                &&& progress matches Progress::Pending { startup: Startup::Terminal { tui }, effects }
                &&& effects@ =~= Self::arrival(
                    tui,
                    seq![StartEffect::Send(Message::Error { error: TuiError::Other(error) })],
                )
                &&& tui.database == database
                &&& tui.http_engine == http_engine
                &&& tui.collection_file.path == path
                &&& tui.collection_file.collection.recipes() == Map::<
                    Seq<char>,
                    Arc<H::Recipe>,
                >::empty()
                &&& tui.collection_file.collection.data() is None
                &&& tui.should_run
            },
            (Startup::Terminal { tui }, StartEvent::TerminalReady(Ok(()))) => progress
                == Progress::Ready(tui),
            (_, StartEvent::PathResolved(Err(error))) => progress == Progress::<H>::Panic(
                TuiError::Other(error),
            ),
            (_, StartEvent::ConfigLoaded(Err(error))) => progress == Progress::<H>::Panic(
                TuiError::Other(error),
            ),
            (_, StartEvent::DatabaseOpened(Err(error))) => progress == Progress::<H>::Panic(
                TuiError::Other(error),
            ),
            (_, StartEvent::TerminalReady(Err(error))) => progress == Progress::<H>::Panic(
                TuiError::Other(error),
            ),
            _ => false,
        }
    }

    /// Whether the event is what the start waits for.
    pub fn accepts(&self, event: &StartEvent<H>) -> (accepts: bool)
        ensures
            accepts == self.waits_for(*event),
    {
        match (self, event) {
            (Startup::Path, StartEvent::PathResolved(_)) => true,
            (Startup::Config { .. }, StartEvent::ConfigLoaded(_)) => true,
            (Startup::Database { .. }, StartEvent::DatabaseOpened(_)) => true,
            (Startup::Context { .. }, StartEvent::ContextReady { .. }) => true,
            (Startup::Collection { .. }, StartEvent::CollectionLoaded(_)) => true,
            (Startup::Terminal { .. }, StartEvent::TerminalReady(_)) => true,
            _ => false,
        }
    }

    /// Goes on with the start after the event that it waits for.
    pub fn resume(self, event: StartEvent<H>) -> (progress: Progress<H>)
        requires
            self.waits_for(event),
        ensures
            self.leads_to(event, progress),
    {
        match (self, event) {
            (Startup::Path, StartEvent::PathResolved(Ok(path))) => Progress::Pending {
                startup: Startup::Config { path },
                effects: vec![StartEffect::LoadConfig],
            },
            (Startup::Config { path }, StartEvent::ConfigLoaded(Ok(config))) => {
                let effects = vec![
                    StartEffect::CreateQueue,
                    StartEffect::OpenDatabase { path: share(&path) },
                ];
                Progress::Pending { startup: Startup::Database { path, config }, effects }
            },
            (
                Startup::Database { path, config },
                StartEvent::DatabaseOpened(Ok(database)),
            ) => Progress::Pending {
                startup: Startup::Context { path, database },
                effects: vec![StartEffect::InitContext { config }],
            },
            (Startup::Context { path, database }, StartEvent::ContextReady { http_engine }) => {
                let effects = vec![StartEffect::LoadCollection { path: share(&path) }];
                Progress::Pending {
                    startup: Startup::Collection { path, database, http_engine },
                    effects,
                }
            },
            (
                Startup::Collection { path, database, http_engine },
                StartEvent::CollectionLoaded(result),
            ) => {
                let mut effects = Vec::new();
                let collection_file = match result {
                    Ok(collection) => CollectionFile { path, collection },
                    Err(error) => {
                        effects.push(
                            StartEffect::Send(Message::Error { error: TuiError::Other(error) }),
                        );
                        CollectionFile::with_path(path)
                    },
                };
                let view = ViewCommand::Create {
                    collection_file: collection_file.share(),
                    database: share(&database),
                };
                effects.push(StartEffect::View(view));
                effects.push(StartEffect::InitTerminal);
                let tui = Tui { database, http_engine, collection_file, should_run: true };
                Progress::Pending { startup: Startup::Terminal { tui }, effects }
            },
            (Startup::Terminal { tui }, StartEvent::TerminalReady(Ok(()))) => Progress::Ready(tui),
            (_, StartEvent::PathResolved(Err(error))) => Progress::Panic(TuiError::Other(error)),
            (_, StartEvent::ConfigLoaded(Err(error))) => Progress::Panic(TuiError::Other(error)),
            (_, StartEvent::DatabaseOpened(Err(error))) => Progress::Panic(TuiError::Other(error)),
            (_, StartEvent::TerminalReady(Err(error))) => Progress::Panic(TuiError::Other(error)),
            _ => unreached(),
        }
    }
}

impl<H: Host> Tui<H> {
    /// Starts the program. The user may have named a collection file.
    pub fn start(collection_path: Option<Arc<H::Path>>) -> (started: (
        Startup<H>,
        Vec<StartEffect<H>>,
    ))
        ensures
            started.0 == Startup::<H>::Path,
            started.1@ == seq![
                StartEffect::<H>::InstallPanicHandler,
                (StartEffect::ResolvePath { requested: collection_path }),
            ],
    {
        let effects = vec![
            StartEffect::InstallPanicHandler,
            StartEffect::ResolvePath { requested: collection_path },
        ];
        (Startup::Path, effects)
    }
}

} // verus!
