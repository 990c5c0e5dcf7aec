//! What holds of the start of the program.
use crate::clock::Timestamp;
use crate::collection::{Collection, CollectionFile, RecipeId};
use crate::effect::{Effect, Modal, ModalPriority, ViewCommand};
use crate::error::TuiError;
use crate::host::Host;
use crate::message::Message;
use crate::request::RequestId;
use crate::run::MainLoop;
use crate::startup::{Progress, StartEffect, StartEvent, Startup};
use crate::tui::Tui;
use std::sync::Arc;
use vstd::prelude::*;

verus! {

/// Whether the start, from where it is, comes to `end` with the given events, and asks for the
/// given effects on the way.
pub open spec fn starts<H: Host>(
    startup: Startup<H>,
    events: Seq<StartEvent<H>>,
    effects: Seq<StartEffect<H>>,
    end: Progress<H>,
) -> bool
    decreases events.len(), 0int,
{
    &&& events.len() > 0
    &&& startup.waits_for(events.first())
    &&& exists|progress: Progress<H>| #[trigger]
        startup.leads_to(events.first(), progress) && arrives(
            progress,
            events.drop_first(),
            effects,
            end,
        )
}

/// Whether a start that has come to `progress` ends as given.
pub open spec fn arrives<H: Host>(
    progress: Progress<H>,
    events: Seq<StartEvent<H>>,
    effects: Seq<StartEffect<H>>,
    end: Progress<H>,
) -> bool
    decreases events.len(), 1int,
{
    match progress {
        Progress::Pending { startup, effects: due } => {
            &&& due@.is_prefix_of(effects)
            &&& starts(startup, events, effects.skip(due@.len() as int), end)
        },
        _ => events.len() == 0 && effects.len() == 0 && end == progress,
    }
}

/// The error that an event of the start brings, if it brings one that the program panics with.
pub open spec fn start_error<H: Host>(event: StartEvent<H>) -> Option<H::Error> {
    match event {
        StartEvent::PathResolved(Err(error)) => Some(error),
        StartEvent::ConfigLoaded(Err(error)) => Some(error),
        StartEvent::DatabaseOpened(Err(error)) => Some(error),
        StartEvent::TerminalReady(Err(error)) => Some(error),
        _ => None,
    }
}

/// The terminal is taken over last. A start that fails before that has not touched it, and the
/// program runs exactly if it was taken over. Whatever the start fails with is the error that the
/// program panics with, and a collection that cannot be loaded is no such error.
pub proof fn terminal_is_taken_last<H: Host>(
    startup: Startup<H>,
    events: Seq<StartEvent<H>>,
    effects: Seq<StartEffect<H>>,
    end: Progress<H>,
)
    requires
        !(startup is Terminal),
        starts(startup, events, effects, end),
    ensures
        forall|i: int|
            0 <= i < effects.len() && (#[trigger] effects[i] is InitTerminal) ==> i == effects.len()
                - 1 && events.last() is TerminalReady,
        match end {
            Progress::Ready(tui) => {
                &&& tui.should_run
                &&& effects.len() >= 2
                &&& effects[effects.len() - 2] == StartEffect::View(
                    (ViewCommand::Create {
                        collection_file: tui.collection_file,
                        database: tui.database,
                    }),
                )
                &&& effects.last() is InitTerminal
                &&& events.last() matches StartEvent::TerminalReady(Ok(_))
            },
            Progress::Panic(error) => {
                &&& start_error(events.last()) is Some
                &&& error == TuiError::<H>::Other(start_error(events.last())->0)
            },
            Progress::Pending { .. } => false,
        },
    decreases events.len(),
{
    let progress = choose|progress: Progress<H>| #[trigger]
        startup.leads_to(events.first(), progress) && arrives(
            progress,
            events.drop_first(),
            effects,
            end,
        );
    if let Progress::Pending { startup: next, effects: due } = progress {
        let rest = effects.skip(due@.len() as int);
        assert(effects =~= due@ + rest);
        if next is Terminal {
            let last = choose|last: Progress<H>| #[trigger]
                next.leads_to(events[1], last) && arrives(
                    last,
                    events.drop_first().drop_first(),
                    rest,
                    end,
                );
            assert(events.drop_first().first() == events[1]);
            assert(effects =~= due@);
        } else {
            terminal_is_taken_last(next, events.drop_first(), rest, end);
            assert(events.drop_first().last() == events.last());
            if end is Ready {
                assert(effects[effects.len() - 2] == rest[rest.len() - 2]);
                assert(effects.last() == rest.last());
            }
            assert forall|i: int|
                0 <= i < effects.len() && (#[trigger] effects[i] is InitTerminal) implies i
                == effects.len() - 1 && events.last() is TerminalReady by {
                if i >= due@.len() {
                    assert(effects[i] == rest[i - due@.len()]);
                }
            }
        }
    }
}

/// Whether what comes of an effect is an event of the start.
pub open spec fn is_answered<H: Host>(effect: StartEffect<H>) -> bool {
    match effect {
        StartEffect::InstallPanicHandler => false,
        StartEffect::CreateQueue => false,
        StartEffect::Send(_) => false,
        StartEffect::View(_) => false,
        _ => true,
    }
}

/// Whether the event is what comes of the effect.
pub open spec fn answers<H: Host>(event: StartEvent<H>, effect: StartEffect<H>) -> bool {
    match effect {
        StartEffect::ResolvePath { .. } => event is PathResolved,
        StartEffect::LoadConfig => event is ConfigLoaded,
        StartEffect::OpenDatabase { .. } => event is DatabaseOpened,
        StartEffect::InitContext { .. } => event is ContextReady,
        StartEffect::LoadCollection { .. } => event is CollectionLoaded,
        StartEffect::InitTerminal => event is TerminalReady,
        _ => false,
    }
}

/// The start waits for exactly what comes of the last effect that it asked for, and nothing comes
/// of the others.
pub proof fn the_last_effect_is_waited_for<H: Host>(
    startup: Startup<H>,
    event: StartEvent<H>,
    progress: Progress<H>,
    next: StartEvent<H>,
    i: int,
)
    requires
        startup.leads_to(event, progress),
    ensures
        progress matches Progress::Pending { startup: waiting, effects } ==> {
            &&& effects@.len() > 0
            &&& waiting.waits_for(next) <==> answers(next, effects@.last())
            &&& 0 <= i < effects@.len() - 1 ==> !is_answered(effects@[i])
        },
{
}

/// A collection that cannot be loaded costs the user nothing but its recipes: the error is put on
/// the queue, where it comes up as a modal, no recipe is known, and the same file is watched, so
/// that a later reload brings the collection in.
pub proof fn broken_collection_can_be_mended<H: Host>(
    startup: Startup<H>,
    error: H::Error,
    progress: Progress<H>,
    recipe_id: RecipeId,
    collection: Arc<Collection<H>>,
    id: RequestId,
    now: Timestamp,
)
    requires
        startup is Collection,
        startup.leads_to(StartEvent::CollectionLoaded(Err(error)), progress),
    ensures
        progress matches Progress::Pending { startup: next, effects } && {
            let report = Message::Error { error: TuiError::Other(error) };
            let tui = next->Terminal_tui;
            &&& next is Terminal
            &&& effects@ =~= seq![
                StartEffect::Send(report),
                StartEffect::View(
                    ViewCommand::Create {
                        collection_file: tui.collection_file,
                        database: startup->Collection_database,
                    },
                ),
                StartEffect::InitTerminal,
            ]
            &&& tui.response(report, id, now) == Ok::<Seq<Effect<H>>, TuiError<H>>(
                seq![
                    Effect::View(
                        ViewCommand::OpenModal {
                            modal: Modal::Error(TuiError::Other(error)),
                            priority: ModalPriority::High,
                        },
                    ),
                ],
            )
            &&& tui.should_run
            &&& tui.database == startup->Collection_database
            &&& tui.http_engine == startup->Collection_http_engine
            &&& tui.collection_file.path == startup->Collection_path
            &&& tui.collection_file.collection.data() is None
            &&& !tui.collection_file.collection.recipes().contains_key(recipe_id.0@)
            &&& !tui.knows(recipe_id)
            &&& MainLoop::opening(tui)[2] == (Effect::<H>::Watch {
                path: startup->Collection_path,
            })
            &&& tui.after(Message::CollectionEndReload(collection)).collection_file == (
            CollectionFile { path: startup->Collection_path, collection })
        },
{
}

/// The program runs with the collection that was loaded, whatever is in it, from the path that was
/// found, and with the database and the engine that were set up. The view is made of just that,
/// and then the terminal is taken over.
pub proof fn the_loaded_collection_is_shown<H: Host>(
    path: Arc<H::Path>,
    database: Arc<H::Database>,
    http_engine: Arc<H::HttpEngine>,
    collection: Arc<Collection<H>>,
    progress: Progress<H>,
)
    requires
        (Startup::<H>::Collection { path, database, http_engine }).leads_to(
            StartEvent::CollectionLoaded(Ok(collection)),
            progress,
        ),
    ensures
        progress matches Progress::Pending { startup: Startup::Terminal { tui }, effects } && {
            &&& tui == (Tui {
                database,
                http_engine,
                collection_file: CollectionFile { path, collection },
                should_run: true,
            })
            &&& effects@ =~= seq![
                StartEffect::View(
                    ViewCommand::Create {
                        collection_file: CollectionFile { path, collection },
                        database,
                    },
                ),
                StartEffect::InitTerminal,
            ]
        },
{
}

/// A collection that was loaded and then the terminal: that is the start of the program, and what
/// the main loop gets is that collection.
pub proof fn the_loaded_collection_is_run<H: Host>(
    path: Arc<H::Path>,
    database: Arc<H::Database>,
    http_engine: Arc<H::HttpEngine>,
    collection: Arc<Collection<H>>,
    progress: Progress<H>,
    ready: StartEvent<H>,
    end: Progress<H>,
)
    requires
        (Startup::<H>::Collection { path, database, http_engine }).leads_to(
            StartEvent::CollectionLoaded(Ok(collection)),
            progress,
        ),
        ready matches StartEvent::TerminalReady(Ok(_)),
        progress matches Progress::Pending { startup, .. } && startup.leads_to(ready, end),
    ensures
        end == Progress::Ready(
            (Tui {
                database,
                http_engine,
                collection_file: CollectionFile { path, collection },
                should_run: true,
            }),
        ),
{
}

/// Taking over the terminal changes nothing about what was gathered before it.
pub proof fn the_terminal_changes_nothing<H: Host>(
    tui: Tui<H>,
    ready: StartEvent<H>,
    progress: Progress<H>,
)
    requires
        ready matches StartEvent::TerminalReady(Ok(_)),
        (Startup::Terminal { tui }).leads_to(ready, progress),
    ensures
        progress == Progress::Ready(tui),
{
}

/// The path that was found is the one that everything after it works with, and the configuration
/// is read once it is found.
pub proof fn the_path_found_is_kept<H: Host>(path: Arc<H::Path>, progress: Progress<H>)
    requires
        Startup::<H>::Path.leads_to(StartEvent::PathResolved(Ok(path)), progress),
    ensures
        progress matches Progress::Pending { startup: Startup::Config { path: kept }, effects }
            && kept == path && effects@ =~= seq![StartEffect::LoadConfig],
{
}

/// With the configuration at hand, the queue is made, and then the database of that path is opened.
pub proof fn the_queue_is_made_before_the_database<H: Host>(
    path: Arc<H::Path>,
    config: H::Config,
    progress: Progress<H>,
)
    requires
        (Startup::<H>::Config { path }).leads_to(StartEvent::ConfigLoaded(Ok(config)), progress),
    ensures
        progress matches Progress::Pending { startup, effects } && {
            &&& startup == (Startup::<H>::Database { path, config })
            &&& effects@ =~= seq![StartEffect::CreateQueue, StartEffect::OpenDatabase { path }]
        },
{
}

/// With the database at hand, the rest of the context is set up from the configuration that was
/// read.
pub proof fn the_context_is_made_of_the_config<H: Host>(
    path: Arc<H::Path>,
    config: H::Config,
    database: Arc<H::Database>,
    progress: Progress<H>,
)
    requires
        (Startup::<H>::Database { path, config }).leads_to(
            StartEvent::DatabaseOpened(Ok(database)),
            progress,
        ),
    ensures
        progress matches Progress::Pending { startup, effects } && {
            &&& startup == (Startup::<H>::Context { path, database })
            &&& effects@ =~= seq![StartEffect::InitContext { config }]
        },
{
}

/// With the context at hand, the collection is loaded from the path that was found.
pub proof fn the_collection_is_loaded_from_its_path<H: Host>(
    path: Arc<H::Path>,
    database: Arc<H::Database>,
    http_engine: Arc<H::HttpEngine>,
    progress: Progress<H>,
)
    requires
        (Startup::<H>::Context { path, database }).leads_to(
            StartEvent::ContextReady { http_engine },
            progress,
        ),
    ensures
        progress matches Progress::Pending { startup, effects } && {
            &&& startup == (Startup::<H>::Collection { path, database, http_engine })
            &&& effects@ =~= seq![StartEffect::LoadCollection { path }]
        },
{
}

/// Whatever else fails keeps the program from running: it panics with that very error.
pub proof fn other_start_errors_are_panics<H: Host>(
    startup: Startup<H>,
    event: StartEvent<H>,
    error: H::Error,
    progress: Progress<H>,
)
    requires
        startup.waits_for(event),
        startup.leads_to(event, progress),
        event == StartEvent::<H>::PathResolved(Err(error)) || event == StartEvent::<
            H,
        >::ConfigLoaded(Err(error)) || event == StartEvent::<H>::DatabaseOpened(Err(error))
            || event == StartEvent::<H>::TerminalReady(Err(error)),
    ensures
        progress == Progress::<H>::Panic(TuiError::Other(error)),
{
}

/// Each kind of event is waited for at one point of the start.
pub proof fn each_event_has_its_point<H: Host>(startup: Startup<H>, event: StartEvent<H>)
    ensures
        startup.waits_for(event) <==> match event {
            StartEvent::PathResolved(_) => startup is Path,
            StartEvent::ConfigLoaded(_) => startup is Config,
            StartEvent::DatabaseOpened(_) => startup is Database,
            StartEvent::ContextReady { .. } => startup is Context,
            StartEvent::CollectionLoaded(_) => startup is Collection,
            StartEvent::TerminalReady(_) => startup is Terminal,
        },
{
}

/// The first step of a start that goes on.
proof fn lemma_first_step<H: Host>(
    startup: Startup<H>,
    events: Seq<StartEvent<H>>,
    effects: Seq<StartEffect<H>>,
    tui: Tui<H>,
) -> (progress: Progress<H>)
    requires
        !(startup is Terminal),
        starts(startup, events, effects, Progress::Ready(tui)),
    ensures
        events.len() > 0,
        startup.waits_for(events[0]),
        startup.leads_to(events[0], progress),
        progress matches Progress::Pending { startup: next, effects: due } && {
            &&& due@.len() <= effects.len()
            &&& effects =~= due@ + effects.skip(due@.len() as int)
            &&& starts(
                next,
                events.drop_first(),
                effects.skip(due@.len() as int),
                Progress::Ready(tui),
            )
        },
{
    let progress = choose|progress: Progress<H>| #[trigger]
        startup.leads_to(events.first(), progress) && arrives(
            progress,
            events.drop_first(),
            effects,
            Progress::Ready(tui),
        );
    progress
}

/// A program that runs was started in one way: the path, the configuration, the database, the
/// context and the collection came in that order, and then the terminal. What the main loop gets
/// is made of what came, all of it and nothing else, and only a collection that could not be
/// loaded is replaced by an empty one.
pub proof fn the_program_runs_with_what_came<H: Host>(
    events: Seq<StartEvent<H>>,
    effects: Seq<StartEffect<H>>,
    tui: Tui<H>,
)
    requires
        starts(Startup::Path, events, effects, Progress::Ready(tui)),
    ensures
        events.len() == 6,
        events[0] matches StartEvent::PathResolved(Ok(path)) && tui.collection_file.path == path,
        events[1] matches StartEvent::ConfigLoaded(Ok(_)),
        events[2] matches StartEvent::DatabaseOpened(Ok(database)) && tui.database == database,
        events[3] matches StartEvent::ContextReady { http_engine } && tui.http_engine
            == http_engine,
        events[4] matches StartEvent::CollectionLoaded(loaded) && match loaded {
            Ok(collection) => tui.collection_file.collection == collection,
            Err(_) => tui.collection_file.collection.data() is None
                && tui.collection_file.collection.recipes().dom() =~= Set::<Seq<char>>::empty(),
        },
        events[5] matches StartEvent::TerminalReady(Ok(_)),
        tui.should_run,
        ({
            let path = events[0]->PathResolved_0->Ok_0;
            let create = StartEffect::View(
                ViewCommand::Create {
                    collection_file: tui.collection_file,
                    database: tui.database,
                },
            );
            let before = seq![
                StartEffect::LoadConfig,
                StartEffect::CreateQueue,
                StartEffect::OpenDatabase { path },
                StartEffect::InitContext { config: events[1]->ConfigLoaded_0->Ok_0 },
                StartEffect::LoadCollection { path },
            ];
            match events[4]->CollectionLoaded_0 {
                Ok(_) => effects =~= before + seq![create, StartEffect::InitTerminal],
                Err(error) => effects =~= before + seq![
                    StartEffect::Send(Message::Error { error: TuiError::Other(error) }),
                    create,
                    StartEffect::InitTerminal,
                ],
            }
        }),
{
    let e1 = events.drop_first();
    let e2 = e1.drop_first();
    let e3 = e2.drop_first();
    let e4 = e3.drop_first();
    let e5 = e4.drop_first();
    let p1 = lemma_first_step(Startup::Path, events, effects, tui);
    let f1 = effects.skip(p1->effects@.len() as int);
    let p2 = lemma_first_step(p1->startup, e1, f1, tui);
    let f2 = f1.skip(p2->effects@.len() as int);
    let p3 = lemma_first_step(p2->startup, e2, f2, tui);
    let f3 = f2.skip(p3->effects@.len() as int);
    let p4 = lemma_first_step(p3->startup, e3, f3, tui);
    let f4 = f3.skip(p4->effects@.len() as int);
    let p5 = lemma_first_step(p4->startup, e4, f4, tui);
    let f5 = f4.skip(p5->effects@.len() as int);
    let last = p5->startup;
    let end = choose|end: Progress<H>| #[trigger]
        last.leads_to(e5.first(), end) && arrives(
            end,
            e5.drop_first(),
            f5,
            Progress::Ready(tui),
        );
    assert(f5.len() == 0);
    assert(e1[0] == events[1] && e2[0] == events[2] && e3[0] == events[3] && e4[0] == events[4]
        && e5[0] == events[5]);
    assert(effects =~= p1->effects@ + (p2->effects@ + (p3->effects@ + (p4->effects@
        + p5->effects@))));
}

} // verus!
