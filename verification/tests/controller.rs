use slumber_tui::clock::Timestamp;
use slumber_tui::collection::{Collection, CollectionFile, ProfileId, RecipeId};
use slumber_tui::effect::{Effect, Modal, ModalPriority, ViewCommand};
use slumber_tui::error::TuiError;
use slumber_tui::host::Host;
use slumber_tui::message::{Action, Message};
use slumber_tui::request::{Prompter, RequestConfig, RequestId, RequestState, TemplateContext};
use slumber_tui::task::Task;
use slumber_tui::tui::Tui;
use std::sync::Arc;

struct Fake;

impl Host for Fake {
    type Path = &'static str;
    type Config = u8;
    type CollectionData = &'static str;
    type Recipe = &'static str;
    type Options = u32;
    type Database = &'static str;
    type HttpEngine = &'static str;
    type Ticket = u64;
    type Request = &'static str;
    type Exchange = &'static str;
    type BuildError = &'static str;
    type RequestError = &'static str;
    type Overrides = u8;
    type Template = &'static str;
    type Destination = u8;
    type InputEvent = char;
    type InputAction = &'static str;
    type Prompt = &'static str;
    type Confirm = &'static str;
    type Error = &'static str;
}

const ID: RequestId = RequestId(17);

fn collection() -> Arc<Collection<Fake>> {
    let mut collection = Collection::with_data(Arc::new("profiles"));
    collection.add_recipe(RecipeId("login".to_string()), Arc::new("POST /login"));
    collection.add_recipe(RecipeId("list".to_string()), Arc::new("GET /fish"));
    Arc::new(collection)
}

fn tui() -> Tui<Fake> {
    Tui {
        database: Arc::new("db"),
        http_engine: Arc::new("engine"),
        collection_file: CollectionFile { path: Arc::new("slumber.yml"), collection: collection() },
        should_run: true,
    }
}

fn config(recipe: &str) -> RequestConfig<Fake> {
    RequestConfig {
        profile_id: Some(ProfileId("local".to_string())),
        recipe_id: RecipeId(recipe.to_string()),
        options: 4,
    }
}

fn handle(tui: &mut Tui<Fake>, message: Message<Fake>) -> Vec<Effect<Fake>> {
    match tui.handle_message(message, ID) {
        Ok(effects) => effects,
        Err(_) => panic!("the message cannot be handled"),
    }
}

fn single(tui: &mut Tui<Fake>, message: Message<Fake>) -> Effect<Fake> {
    let mut effects = handle(tui, message);
    assert_eq!(effects.len(), 1);
    effects.remove(0)
}

fn check_context(context: &TemplateContext<Fake>, tui: &Tui<Fake>, prompter: Prompter) {
    assert_eq!(context.selected_profile.as_ref().map(|id| id.0.as_str()), Some("local"));
    assert!(Arc::ptr_eq(&context.collection, &tui.collection_file.collection));
    assert_eq!(context.http_engine.as_deref(), Some(&"engine"));
    assert_eq!(*context.database, "db");
    assert!(context.overrides.is_none());
    assert_eq!(context.prompter, prompter);
    assert_eq!(context.recursion_count, 0);
}

#[test]
fn recipes_are_found_by_id() {
    let collection = collection();
    let recipe = collection.get_recipe(&RecipeId("list".to_string()));
    assert_eq!(recipe.as_deref(), Some(&"GET /fish"));
    assert!(collection.get_recipe(&RecipeId("lis".to_string())).is_none());
    assert_eq!(collection.loaded_data().as_deref(), Some(&"profiles"));
}

#[test]
fn a_recipe_replaces_the_one_with_its_id() {
    let mut collection = Collection::<Fake>::empty();
    assert!(collection.get_recipe(&RecipeId("a".to_string())).is_none());
    assert!(collection.loaded_data().is_none());
    collection.add_recipe(RecipeId("a".to_string()), Arc::new("one"));
    collection.add_recipe(RecipeId("b".to_string()), Arc::new("two"));
    collection.add_recipe(RecipeId("a".to_string()), Arc::new("three"));
    assert_eq!(*collection.get_recipe(&RecipeId("a".to_string())).unwrap(), "three");
    assert_eq!(*collection.get_recipe(&RecipeId("b".to_string())).unwrap(), "two");
}

#[test]
fn recipes_are_shared_and_not_copied() {
    let recipe = Arc::new("GET /");
    let mut collection = Collection::<Fake>::empty();
    collection.add_recipe(RecipeId("a".to_string()), Arc::clone(&recipe));
    let found = collection.get_recipe(&RecipeId("a".to_string())).unwrap();
    assert!(Arc::ptr_eq(&recipe, &found));
    assert_eq!(Arc::strong_count(&recipe), 3);
}

#[test]
fn file_without_collection_is_empty() {
    let file = CollectionFile::<Fake>::with_path(Arc::new("gone.yml"));
    assert_eq!(*file.path, "gone.yml");
    assert!(file.collection.get_recipe(&RecipeId(String::new())).is_none());
    assert!(file.collection.loaded_data().is_none());
    let other = file.share();
    assert!(Arc::ptr_eq(&file.path, &other.path));
    assert!(Arc::ptr_eq(&file.collection, &other.collection));
}

#[test]
fn reload_loads_from_the_same_path() {
    let mut tui = tui();
    let effect = single(&mut tui, Message::CollectionStartReload);
    assert!(matches!(
        effect,
        Effect::Spawn(Task::ReloadCollection { path }) if *path == "slumber.yml"
    ));
}

#[test]
fn reload_rebuilds_the_view_after_dropping_the_old_one() {
    let mut tui = tui();
    let mut fresh = Collection::empty();
    fresh.add_recipe(RecipeId("new".to_string()), Arc::new("GET /new"));
    let fresh = Arc::new(fresh);
    let effects = handle(&mut tui, Message::CollectionEndReload(Arc::clone(&fresh)));
    assert_eq!(effects.len(), 2);
    assert!(matches!(effects[0], Effect::View(ViewCommand::Drop)));
    match &effects[1] {
        Effect::View(ViewCommand::Create { collection_file, database }) => {
            assert_eq!(*collection_file.path, "slumber.yml");
            assert!(Arc::ptr_eq(&collection_file.collection, &fresh));
            assert_eq!(**database, "db");
        }
        _ => panic!("no view is made"),
    }
    assert!(tui.get_recipe(&RecipeId("login".to_string())).is_err());
    assert_eq!(tui.get_recipe(&RecipeId("new".to_string())).ok().as_deref(), Some(&"GET /new"));
    assert!(tui.should_run);
}

#[test]
fn edit_opens_the_collection_file() {
    let mut tui = tui();
    let effect = single(&mut tui, Message::CollectionEdit);
    assert!(matches!(effect, Effect::OpenFile { path } if *path == "slumber.yml"));
}

#[test]
fn copy_url_builds_the_url() {
    let mut tui = tui();
    match single(&mut tui, Message::CopyRequestUrl(config("list"))) {
        Effect::Spawn(Task::BuildUrl { seed, context }) => {
            assert_eq!(seed.id, ID);
            assert_eq!(*seed.recipe, "GET /fish");
            assert_eq!(seed.options, 4);
            check_context(&context, &tui, Prompter::Messages);
        }
        _ => panic!("the URL is not built"),
    }
}

#[test]
fn copy_body_builds_the_body() {
    let mut tui = tui();
    match single(&mut tui, Message::CopyRequestBody(config("login"))) {
        Effect::Spawn(Task::BuildBody { seed, context }) => {
            assert_eq!(*seed.recipe, "POST /login");
            check_context(&context, &tui, Prompter::Messages);
        }
        _ => panic!("the body is not built"),
    }
}

#[test]
fn copy_curl_builds_the_command() {
    let mut tui = tui();
    match single(&mut tui, Message::CopyRequestCurl(config("login"))) {
        Effect::Spawn(Task::BuildCurl { seed, context }) => {
            assert_eq!(*seed.recipe, "POST /login");
            check_context(&context, &tui, Prompter::Messages);
        }
        _ => panic!("the command is not built"),
    }
}

#[test]
fn unknown_recipes_are_refused_everywhere() {
    let messages = vec![
        Message::CopyRequestUrl(config("nope")),
        Message::CopyRequestBody(config("nope")),
        Message::CopyRequestCurl(config("nope")),
        Message::HttpBeginRequest(config("nope")),
    ];
    let mut tui = tui();
    for message in messages {
        match tui.handle_message(message, ID) {
            Err(error) => {
                assert!(matches!(
                    &error,
                    TuiError::UnknownRecipe { recipe_id } if recipe_id.0 == "nope"
                ));
                assert_eq!(error.message().as_deref(), Some("No recipe with ID `nope`"));
            }
            Ok(_) => panic!("an unknown recipe is accepted"),
        }
    }
    assert!(tui.should_run);
}

#[test]
fn sending_shows_the_request_before_it_is_built() {
    let tui = tui();
    let start_time = Timestamp { seconds: 1_720_000_000, nanos: 5 };
    let mut effects = match tui.send_request_at(config("login"), ID, start_time) {
        Ok(effects) => effects,
        Err(_) => panic!("the recipe is not known"),
    };
    assert_eq!(effects.len(), 2);
    match effects.remove(1) {
        Effect::Spawn(Task::BuildRequest { seed, context, database }) => {
            assert_eq!(seed.id, ID);
            assert_eq!(*seed.recipe, "POST /login");
            assert_eq!(seed.options, 4);
            check_context(&context, &tui, Prompter::Messages);
            assert!(Arc::ptr_eq(&database, &tui.database));
        }
        _ => panic!("the request is not built"),
    }
    match effects.remove(0) {
        Effect::View(ViewCommand::SetRequestState(RequestState::Building {
            id,
            start_time: shown,
            profile_id,
            recipe_id,
        })) => {
            assert_eq!(id, ID);
            assert_eq!(shown, start_time);
            assert_eq!(profile_id.unwrap().0, "local");
            assert_eq!(recipe_id.0, "login");
        }
        _ => panic!("the request is not shown"),
    }
}

#[test]
fn sending_reads_the_clock() {
    let mut tui = tui();
    let effects = handle(&mut tui, Message::HttpBeginRequest(config("list")));
    match &effects[0] {
        Effect::View(ViewCommand::SetRequestState(RequestState::Building {
            start_time, ..
        })) => {
            // Any clock that is roughly right shows a time in the years 2020 to 2200.
            assert!(1_577_836_800 < start_time.seconds && start_time.seconds < 7_258_118_400);
            assert!(start_time.nanos < 1_000_000_000);
        }
        _ => panic!("the request is not shown"),
    }
}

#[test]
fn http_messages_set_the_request_state() {
    let mut tui = tui();
    assert!(matches!(
        single(&mut tui, Message::HttpBuildError { error: "template" }),
        Effect::View(ViewCommand::SetRequestState(RequestState::BuildError { error: "template" }))
    ));
    assert!(matches!(
        single(&mut tui, Message::HttpLoading { request: Arc::new("GET") }),
        Effect::View(ViewCommand::SetRequestState(RequestState::Loading { request }))
            if *request == "GET"
    ));
    assert!(matches!(
        single(&mut tui, Message::HttpComplete(Ok("200 OK"))),
        Effect::View(ViewCommand::SetRequestState(RequestState::Response { exchange: "200 OK" }))
    ));
    assert!(matches!(
        single(&mut tui, Message::HttpComplete(Err("refused"))),
        Effect::View(ViewCommand::SetRequestState(RequestState::RequestError { error: "refused" }))
    ));
}

#[test]
fn modals_have_the_right_priority() {
    let mut tui = tui();
    assert!(matches!(
        single(&mut tui, Message::Error { error: TuiError::Other("oops") }),
        Effect::View(ViewCommand::OpenModal {
            modal: Modal::Error(TuiError::Other("oops")),
            priority: ModalPriority::High,
        })
    ));
    assert!(matches!(
        single(&mut tui, Message::PromptStart("password")),
        Effect::View(ViewCommand::OpenModal {
            modal: Modal::Prompt("password"),
            priority: ModalPriority::Low,
        })
    ));
    assert!(matches!(
        single(&mut tui, Message::ConfirmStart("overwrite?")),
        Effect::View(ViewCommand::OpenModal {
            modal: Modal::Confirm("overwrite?"),
            priority: ModalPriority::Low,
        })
    ));
}

#[test]
fn texts_and_files_are_passed_on() {
    let mut tui = tui();
    assert!(matches!(
        single(&mut tui, Message::CopyText("text".to_string())),
        Effect::View(ViewCommand::CopyText(text)) if text == "text"
    ));
    assert!(matches!(
        single(&mut tui, Message::Notify("done".to_string())),
        Effect::View(ViewCommand::Notify(text)) if text == "done"
    ));
    let save = Message::SaveFile { default_path: Some("a.json".to_string()), data: vec![1, 2] };
    assert!(matches!(
        single(&mut tui, save),
        Effect::Spawn(Task::SaveFile { default_path: Some(path), data })
            if path == "a.json" && data == [1, 2]
    ));
}

#[test]
fn previews_do_not_ask_the_user() {
    let mut tui = tui();
    let message = Message::TemplatePreview {
        template: "{{host}}",
        profile_id: Some(ProfileId("local".to_string())),
        destination: 9,
    };
    match single(&mut tui, message) {
        Effect::Spawn(Task::RenderPreview { template, context, destination }) => {
            assert_eq!(template, "{{host}}");
            assert_eq!(destination, 9);
            check_context(&context, &tui, Prompter::Preview);
        }
        _ => panic!("the preview is not rendered"),
    }
}

#[test]
fn input_goes_to_the_view() {
    let mut tui = tui();
    assert!(matches!(
        single(&mut tui, Message::Input { event: 'x', action: None }),
        Effect::View(ViewCommand::HandleInput { event: 'x', action: None })
    ));
    assert!(matches!(
        single(&mut tui, Message::Input { event: 'q', action: Some(Action::Other("quit")) }),
        Effect::View(ViewCommand::HandleInput {
            event: 'q',
            action: Some(Action::Other("quit")),
        })
    ));
    assert!(tui.should_run);
}

#[test]
fn forced_quit_does_not_reach_the_view() {
    let mut tui = tui();
    let message = Message::Input { event: 'c', action: Some(Action::ForceQuit) };
    assert!(handle(&mut tui, message).is_empty());
    assert!(!tui.should_run);
}

#[test]
fn quitting_cannot_be_undone() {
    let mut tui = tui();
    assert!(handle(&mut tui, Message::Quit).is_empty());
    assert!(!tui.should_run);
    handle(&mut tui, Message::CollectionEndReload(collection()));
    handle(&mut tui, Message::CollectionStartReload);
    assert!(!tui.should_run);
}

#[test]
fn errors_have_texts() {
    let texts: Vec<Option<String>> = vec![
        TuiError::<Fake>::UnknownRecipe { recipe_id: RecipeId("a b".to_string()) }.message(),
        TuiError::<Fake>::OpenFile { source: "no editor" }.message(),
        TuiError::<Fake>::NoBody.message(),
        TuiError::<Fake>::BodyNotText { body: vec![255] }.message(),
        TuiError::<Fake>::PreviewTaken.message(),
    ];
    let expected = [
        "No recipe with ID `a b`",
        "Error opening {path:?}",
        "Request has no body",
        "Cannot copy request body",
        "Multiple writes to template preview lock",
    ];
    for (text, expected) in texts.iter().zip(expected) {
        assert_eq!(text.as_deref(), Some(expected));
    }
    assert!(TuiError::<Fake>::Other("own text").message().is_none());
}
