use slumber_tui::collection::{Collection, CollectionFile, RecipeId};
use slumber_tui::effect::{Effect, Modal, ModalPriority, ViewCommand};
use slumber_tui::error::TuiError;
use slumber_tui::host::Host;
use slumber_tui::message::{Action, Message};
use slumber_tui::request::{RequestConfig, RequestId, RequestState};
use slumber_tui::run::{LoopEvent, MainLoop, Phase};
use slumber_tui::startup::{Progress, StartEffect, StartEvent, Startup};
use slumber_tui::task::{Task, TaskEvent};
use slumber_tui::terminal::{TerminalScript, TerminalStep};
use slumber_tui::tui::Tui;
use std::sync::Arc;

struct Fake;

impl Host for Fake {
    type Path = &'static str;
    type Config = &'static str;
    type CollectionData = ();
    type Recipe = &'static str;
    type Options = ();
    type Database = &'static str;
    type HttpEngine = &'static str;
    type Ticket = ();
    type Request = ();
    type Exchange = ();
    type BuildError = ();
    type RequestError = ();
    type Overrides = ();
    type Template = ();
    type Destination = ();
    type InputEvent = char;
    type InputAction = ();
    type Prompt = ();
    type Confirm = ();
    type Error = &'static str;
}

const ID: RequestId = RequestId(1);

fn tui() -> Tui<Fake> {
    Tui {
        database: Arc::new("db"),
        http_engine: Arc::new("engine"),
        collection_file: CollectionFile {
            path: Arc::new("slumber.yml"),
            collection: Arc::new(Collection::empty()),
        },
        should_run: true,
    }
}

fn resume(main: &mut MainLoop<Fake>, event: LoopEvent<Fake>) -> Vec<Effect<Fake>> {
    assert!(main.accepts(&event));
    main.resume(event)
}

/// A main loop that has drawn the view and waits for a message.
fn receiving() -> MainLoop<Fake> {
    let (mut main, _) = MainLoop::run(tui());
    resume(&mut main, LoopEvent::Watched(Ok(())));
    resume(&mut main, LoopEvent::Drawn(Ok(())));
    assert!(matches!(main.phase, Phase::Receiving));
    main
}

fn is_settling(effect: &Effect<Fake>) -> bool {
    matches!(effect, Effect::View(ViewCommand::HandleEvents))
}

#[test]
fn loop_starts_with_its_background_work() {
    let (main, effects) = MainLoop::run(tui());
    assert_eq!(effects.len(), 3);
    assert!(matches!(effects[0], Effect::Spawn(Task::ListenForSignals)));
    assert!(matches!(effects[1], Effect::SpawnInputLoop));
    assert!(matches!(&effects[2], Effect::Watch { path } if **path == "slumber.yml"));
    assert!(matches!(main.phase, Phase::Watching));
    assert!(!main.accepts(&LoopEvent::Settled));
}

#[test]
fn loop_draws_before_it_waits() {
    let (mut main, _) = MainLoop::run(tui());
    let effects = resume(&mut main, LoopEvent::Watched(Ok(())));
    assert!(matches!(effects[..], [Effect::Draw]));
    let effects = resume(&mut main, LoopEvent::Drawn(Ok(())));
    assert!(matches!(effects[..], [Effect::Receive { timeout_millis: 250 }]));
}

#[test]
fn loop_redraws_when_nothing_happens() {
    let mut main = receiving();
    let effects = resume(&mut main, LoopEvent::TimedOut);
    assert_eq!(effects.len(), 1);
    assert!(is_settling(&effects[0]));
    let effects = resume(&mut main, LoopEvent::Settled);
    assert!(matches!(effects[..], [Effect::Draw]));
}

#[test]
fn loop_handles_a_message_and_settles() {
    let mut main = receiving();
    let message = Message::Notify("hi".to_string());
    let effects = resume(&mut main, LoopEvent::Received { message, id: ID });
    assert_eq!(effects.len(), 2);
    assert!(matches!(&effects[0], Effect::View(ViewCommand::Notify(text)) if text == "hi"));
    assert!(is_settling(&effects[1]));
}

#[test]
fn loop_shows_errors_and_goes_on() {
    let mut main = receiving();
    let message = Message::HttpBeginRequest(RequestConfig {
        profile_id: None,
        recipe_id: RecipeId("nope".to_string()),
        options: (),
    });
    let effects = resume(&mut main, LoopEvent::Received { message, id: ID });
    assert_eq!(effects.len(), 2);
    assert!(matches!(
        &effects[0],
        Effect::View(ViewCommand::OpenModal {
            modal: Modal::Error(TuiError::UnknownRecipe { recipe_id }),
            priority: ModalPriority::High,
        }) if recipe_id.0 == "nope"
    ));
    assert!(is_settling(&effects[1]));
    let effects = resume(&mut main, LoopEvent::Settled);
    assert!(matches!(effects[..], [Effect::Draw]));
}

#[test]
fn loop_waits_for_the_editor_to_open() {
    let mut main = receiving();
    let event = LoopEvent::Received { message: Message::CollectionEdit, id: ID };
    let effects = resume(&mut main, event);
    assert!(matches!(&effects[..], [Effect::OpenFile { path }] if **path == "slumber.yml"));
    assert!(matches!(main.phase, Phase::Opening));
    let effects = resume(&mut main, LoopEvent::Opened(Ok(())));
    assert_eq!(effects.len(), 1);
    assert!(is_settling(&effects[0]));
}

#[test]
fn loop_shows_that_the_editor_did_not_open() {
    let mut main = receiving();
    let event = LoopEvent::Received { message: Message::CollectionEdit, id: ID };
    resume(&mut main, event);
    let effects = resume(&mut main, LoopEvent::Opened(Err("no editor")));
    assert_eq!(effects.len(), 2);
    assert!(matches!(
        effects[0],
        Effect::View(ViewCommand::OpenModal {
            modal: Modal::Error(TuiError::OpenFile { source: "no editor" }),
            priority: ModalPriority::High,
        })
    ));
    assert!(is_settling(&effects[1]));
    assert!(matches!(main.phase, Phase::Settling));
}

#[test]
fn loop_ends_after_the_iteration_that_quits() {
    let quits = vec![
        Message::Quit,
        Message::Input { event: 'c', action: Some(Action::ForceQuit) },
    ];
    for message in quits {
        let mut main = receiving();
        let effects = resume(&mut main, LoopEvent::Received { message, id: ID });
        assert_eq!(effects.len(), 1);
        assert!(is_settling(&effects[0]));
        assert!(resume(&mut main, LoopEvent::Settled).is_empty());
        assert!(matches!(main.phase, Phase::Stopped(Ok(()))));
        assert!(!main.accepts(&LoopEvent::TimedOut));
    }
}

#[test]
fn loop_does_not_start_without_a_watcher() {
    let (mut main, _) = MainLoop::run(tui());
    assert!(resume(&mut main, LoopEvent::Watched(Err("inotify"))).is_empty());
    assert!(matches!(main.phase, Phase::Stopped(Err(TuiError::Other("inotify")))));
}

#[test]
fn loop_ends_when_it_cannot_draw() {
    let (mut main, _) = MainLoop::run(tui());
    resume(&mut main, LoopEvent::Watched(Ok(())));
    assert!(resume(&mut main, LoopEvent::Drawn(Err("stdout"))).is_empty());
    assert!(matches!(main.phase, Phase::Stopped(Err(TuiError::Other("stdout")))));
}

#[test]
fn loop_that_was_told_to_quit_early_never_draws() {
    let mut stopped = tui();
    stopped.quit();
    let (mut main, _) = MainLoop::run(stopped);
    assert!(resume(&mut main, LoopEvent::Watched(Ok(()))).is_empty());
    assert!(matches!(main.phase, Phase::Stopped(Ok(()))));
}

/// What comes of an effect, if the loop is told. Each reception takes the next message.
fn answer(effect: &Effect<Fake>, queue: &mut Vec<Message<Fake>>) -> Option<LoopEvent<Fake>> {
    match effect {
        Effect::Watch { .. } => Some(LoopEvent::Watched(Ok(()))),
        Effect::Draw => Some(LoopEvent::Drawn(Ok(()))),
        Effect::Receive { .. } if queue.is_empty() => Some(LoopEvent::TimedOut),
        Effect::Receive { .. } => {
            Some(LoopEvent::Received { message: queue.remove(0), id: ID })
        }
        Effect::OpenFile { .. } => Some(LoopEvent::Opened(Ok(()))),
        Effect::View(ViewCommand::HandleEvents) => Some(LoopEvent::Settled),
        _ => None,
    }
}

#[test]
fn loop_runs_until_told_to_quit() {
    let mut queue = vec![
        Message::CollectionEdit,
        Message::Notify("hi".to_string()),
        Message::CollectionEndReload(Arc::new(Collection::empty())),
        Message::Input { event: 'x', action: None },
        Message::Quit,
        Message::Notify("too late".to_string()),
    ];
    let (mut main, mut effects) = MainLoop::run(tui());
    let mut drawings: usize = 0;
    while !effects.is_empty() {
        let answers: Vec<LoopEvent<Fake>> =
            effects.iter().filter_map(|effect| answer(effect, &mut queue)).collect();
        assert_eq!(answers.len(), 1);
        assert!(answer(&effects[effects.len() - 1], &mut Vec::new()).is_some());
        drawings += effects.iter().filter(|effect| matches!(effect, Effect::Draw)).count();
        for event in answers {
            effects = resume(&mut main, event);
        }
    }
    assert!(matches!(main.phase, Phase::Stopped(Ok(()))));
    assert_eq!(drawings, 5);
    assert_eq!(queue.len(), 1);
}

/// The states that the view is told about, when a request is sent and comes to these events.
fn states(events: Vec<TaskEvent<Fake>>) -> Vec<RequestState<Fake>> {
    let mut collection = Collection::empty();
    collection.add_recipe(RecipeId("a".to_string()), Arc::new("GET /"));
    let mut tui = tui();
    tui.reload_collection(Arc::new(collection));
    let begin = Message::HttpBeginRequest(RequestConfig {
        profile_id: None,
        recipe_id: RecipeId("a".to_string()),
        options: (),
    });
    let mut effects = tui.handle_message(begin, ID).ok().unwrap();
    for event in events {
        let step = event.resume();
        effects.extend(tui.handle_message(step.message.unwrap(), ID).ok().unwrap());
    }
    effects
        .into_iter()
        .filter_map(|effect| match effect {
            Effect::View(ViewCommand::SetRequestState(state)) => Some(state),
            _ => None,
        })
        .collect()
}

#[test]
fn request_goes_through_its_states() {
    let database = Arc::new("db");
    let built = TaskEvent::RequestBuilt {
        outcome: Ok(((), Arc::new(()))),
        database: Arc::clone(&database),
    };
    assert!(matches!(
        states(vec![built, TaskEvent::RequestSent(Ok(()))])[..],
        [
            RequestState::Building { .. },
            RequestState::Loading { .. },
            RequestState::Response { .. }
        ]
    ));
    let broken = TaskEvent::RequestBuilt { outcome: Err(()), database };
    assert!(matches!(
        states(vec![broken])[..],
        [RequestState::Building { .. }, RequestState::BuildError { .. }]
    ));
}

fn go_on(startup: Startup<Fake>, event: StartEvent<Fake>) -> (Startup<Fake>, Vec<StartEffect<Fake>>) {
    assert!(startup.accepts(&event));
    match startup.resume(event) {
        Progress::Pending { startup, effects } => (startup, effects),
        _ => panic!("the start is over"),
    }
}

fn failure(startup: Startup<Fake>, event: StartEvent<Fake>) -> TuiError<Fake> {
    assert!(startup.accepts(&event));
    match startup.resume(event) {
        Progress::Panic(error) => error,
        _ => panic!("the start goes on"),
    }
}

/// A start that waits for the collection.
fn loading() -> Startup<Fake> {
    let (startup, _) = Tui::start(None);
    let (startup, _) = go_on(startup, StartEvent::PathResolved(Ok(Arc::new("slumber.yml"))));
    let (startup, _) = go_on(startup, StartEvent::ConfigLoaded(Ok("config")));
    let (startup, _) = go_on(startup, StartEvent::DatabaseOpened(Ok(Arc::new("db"))));
    let engine = Arc::new("engine");
    go_on(startup, StartEvent::ContextReady { http_engine: engine }).0
}

#[test]
fn start_goes_through_its_steps() {
    let (startup, effects) = Tui::<Fake>::start(Some(Arc::new("mine.yml")));
    assert!(matches!(
        &effects[..],
        [StartEffect::InstallPanicHandler, StartEffect::ResolvePath { requested: Some(path) }]
            if **path == "mine.yml"
    ));
    assert!(!startup.accepts(&StartEvent::ConfigLoaded(Ok("config"))));
    let path = Arc::new("mine.yml");
    let (startup, effects) = go_on(startup, StartEvent::PathResolved(Ok(path)));
    assert!(matches!(effects[..], [StartEffect::LoadConfig]));
    let (startup, effects) = go_on(startup, StartEvent::ConfigLoaded(Ok("config")));
    assert!(matches!(
        &effects[..],
        [StartEffect::CreateQueue, StartEffect::OpenDatabase { path }] if **path == "mine.yml"
    ));
    let (startup, effects) = go_on(startup, StartEvent::DatabaseOpened(Ok(Arc::new("db"))));
    assert!(matches!(effects[..], [StartEffect::InitContext { config: "config" }]));
    let engine = Arc::new("engine");
    let (startup, effects) = go_on(startup, StartEvent::ContextReady { http_engine: engine });
    assert!(matches!(
        &effects[..],
        [StartEffect::LoadCollection { path }] if **path == "mine.yml"
    ));
    let collection = Arc::new(Collection::empty());
    let loaded = StartEvent::CollectionLoaded(Ok(Arc::clone(&collection)));
    let (startup, effects) = go_on(startup, loaded);
    assert_eq!(effects.len(), 2);
    assert!(matches!(
        &effects[0],
        StartEffect::View(ViewCommand::Create { collection_file, database })
            if *collection_file.path == "mine.yml"
                && Arc::ptr_eq(&collection_file.collection, &collection)
                && **database == "db"
    ));
    assert!(matches!(effects[1], StartEffect::InitTerminal));
    match startup.resume(StartEvent::TerminalReady(Ok(()))) {
        Progress::Ready(tui) => {
            assert!(tui.should_run);
            assert_eq!(*tui.database, "db");
            assert_eq!(*tui.http_engine, "engine");
            assert_eq!(*tui.collection_file.path, "mine.yml");
            assert!(Arc::ptr_eq(&tui.collection_file.collection, &collection));
        }
        _ => panic!("the program does not run"),
    }
}

#[test]
fn start_survives_a_broken_collection() {
    let (startup, effects) = go_on(loading(), StartEvent::CollectionLoaded(Err("bad yaml")));
    assert_eq!(effects.len(), 3);
    assert!(matches!(
        effects[0],
        StartEffect::Send(Message::Error { error: TuiError::Other("bad yaml") })
    ));
    assert!(matches!(effects[1], StartEffect::View(ViewCommand::Create { .. })));
    assert!(matches!(effects[2], StartEffect::InitTerminal));
    match startup.resume(StartEvent::TerminalReady(Ok(()))) {
        Progress::Ready(mut tui) => {
            assert_eq!(*tui.collection_file.path, "slumber.yml");
            assert!(tui.get_recipe(&RecipeId("a".to_string())).is_err());
            let mut mended = Collection::empty();
            mended.add_recipe(RecipeId("a".to_string()), Arc::new("GET /"));
            tui.reload_collection(Arc::new(mended));
            assert!(tui.get_recipe(&RecipeId("a".to_string())).is_ok());
        }
        _ => panic!("the program does not run"),
    }
}

#[test]
fn start_panics_with_the_first_error() {
    let (startup, _) = Tui::start(None);
    let error = failure(startup, StartEvent::PathResolved(Err("no file")));
    assert!(matches!(error, TuiError::Other("no file")));

    let (startup, _) = Tui::start(None);
    let (startup, _) = go_on(startup, StartEvent::PathResolved(Ok(Arc::new("a.yml"))));
    let error = failure(startup, StartEvent::ConfigLoaded(Err("bad config")));
    assert!(matches!(error, TuiError::Other("bad config")));

    let (startup, _) = Tui::start(None);
    let (startup, _) = go_on(startup, StartEvent::PathResolved(Ok(Arc::new("a.yml"))));
    let (startup, _) = go_on(startup, StartEvent::ConfigLoaded(Ok("config")));
    let error = failure(startup, StartEvent::DatabaseOpened(Err("locked")));
    assert!(matches!(error, TuiError::Other("locked")));

    let loaded = StartEvent::CollectionLoaded(Ok(Arc::new(Collection::empty())));
    let (startup, _) = go_on(loading(), loaded);
    let error = failure(startup, StartEvent::TerminalReady(Err("no tty")));
    assert!(matches!(error, TuiError::Other("no tty")));
}

/// Takes all steps of a script and fails at the given one.
fn taken(mut script: TerminalScript, failing: Option<TerminalStep>) -> Vec<TerminalStep> {
    let mut steps = Vec::new();
    while let Some(step) = script.current() {
        steps.push(step);
        script.advance(Some(step) != failing);
    }
    steps
}

#[test]
fn terminal_is_taken_over_in_order() {
    assert_eq!(
        taken(TerminalScript::initialize_terminal(), None),
        [TerminalStep::EnableRawMode, TerminalStep::EnterScreen, TerminalStep::CreateHandle]
    );
    assert_eq!(
        taken(TerminalScript::restore_terminal(), None),
        [TerminalStep::DisableRawMode, TerminalStep::LeaveScreen]
    );
}

#[test]
fn terminal_steps_end_with_the_first_failure() {
    assert_eq!(
        taken(TerminalScript::initialize_terminal(), Some(TerminalStep::EnterScreen)),
        [TerminalStep::EnableRawMode, TerminalStep::EnterScreen]
    );
    assert_eq!(
        taken(TerminalScript::restore_terminal(), Some(TerminalStep::DisableRawMode)),
        [TerminalStep::DisableRawMode]
    );
}
