use slumber_tui::collection::Collection;
use slumber_tui::error::TuiError;
use slumber_tui::host::Host;
use slumber_tui::message::Message;
use slumber_tui::task::{Task, TaskEvent};
use slumber_tui::watch::{FileEvent, ModifyKind, WatchReaction};
use std::sync::Arc;

struct Fake;

impl Host for Fake {
    type Path = ();
    type Config = ();
    type CollectionData = ();
    type Recipe = ();
    type Options = ();
    type Database = &'static str;
    type HttpEngine = ();
    type Ticket = u64;
    type Request = &'static str;
    type Exchange = &'static str;
    type BuildError = &'static str;
    type RequestError = &'static str;
    type Overrides = ();
    type Template = ();
    type Destination = ();
    type InputEvent = ();
    type InputAction = ();
    type Prompt = ();
    type Confirm = ();
    type Error = &'static str;
}

/// The message of a task that is over.
fn last(event: TaskEvent<Fake>) -> Option<Message<Fake>> {
    let step = event.resume();
    assert!(step.next.is_none());
    step.message
}

fn copied(event: TaskEvent<Fake>) -> String {
    match last(event) {
        Some(Message::CopyText(text)) => text,
        _ => panic!("nothing is copied"),
    }
}

fn error(event: TaskEvent<Fake>) -> TuiError<Fake> {
    match last(event) {
        Some(Message::Error { error }) => error,
        _ => panic!("no error is reported"),
    }
}

#[test]
fn reloaded_collection_is_handed_over() {
    let collection = Arc::new(Collection::empty());
    match last(TaskEvent::Reloaded(Ok(Arc::clone(&collection)))) {
        Some(Message::CollectionEndReload(handed)) => assert!(Arc::ptr_eq(&handed, &collection)),
        _ => panic!("the collection is lost"),
    }
}

#[test]
fn signal_quits() {
    assert!(matches!(last(TaskEvent::Signalled(Ok(()))), Some(Message::Quit)));
}

#[test]
fn saved_file_is_silent() {
    assert!(last(TaskEvent::Saved(Ok(()))).is_none());
}

#[test]
fn url_and_command_are_copied() {
    assert_eq!(copied(TaskEvent::UrlBuilt(Ok("http://a/".to_string()))), "http://a/");
    assert_eq!(copied(TaskEvent::CurlBuilt(Ok("curl -X GET".to_string()))), "curl -X GET");
}

#[test]
fn built_request_is_written_as_a_command() {
    let step = TaskEvent::<Fake>::RecordBuilt(Ok((3, Arc::new("GET /")))).resume();
    assert!(step.message.is_none());
    assert!(matches!(step.next, Some(Task::WriteCurl { request }) if *request == "GET /"));
}

#[test]
fn text_body_is_copied() {
    assert_eq!(copied(TaskEvent::BodyBuilt(Ok(Some(Vec::new())))), "");
    let body = "fish: \u{e4}\u{20ac}\u{1f41f}".as_bytes().to_vec();
    assert_eq!(copied(TaskEvent::BodyBuilt(Ok(Some(body)))), "fish: \u{e4}\u{20ac}\u{1f41f}");
}

#[test]
fn binary_body_is_refused() {
    // A lone continuation byte, a truncated sequence, an overlong one, and a surrogate.
    let bodies: [Vec<u8>; 4] =
        [vec![0x61, 0x80], vec![0xe2, 0x82], vec![0xc0, 0xaf], vec![0xed, 0xa0, 0x80]];
    for bytes in bodies {
        match error(TaskEvent::BodyBuilt(Ok(Some(bytes.clone())))) {
            TuiError::BodyNotText { body } => assert_eq!(body, bytes),
            _ => panic!("another error is reported"),
        }
    }
}

#[test]
fn missing_body_is_refused() {
    assert!(matches!(error(TaskEvent::BodyBuilt(Ok(None))), TuiError::NoBody));
}

#[test]
fn preview_is_written_once() {
    assert!(last(TaskEvent::PreviewRendered { stored: true }).is_none());
    assert!(matches!(
        error(TaskEvent::PreviewRendered { stored: false }),
        TuiError::PreviewTaken
    ));
}

#[test]
fn all_but_one_of_several_previews_are_refused() {
    let lock = std::sync::OnceLock::new();
    let mut refused = Vec::new();
    for chunks in ["one", "two", "three"] {
        let stored = lock.set(chunks).is_ok();
        if let Some(Message::Error { error }) = last(TaskEvent::PreviewRendered { stored }) {
            assert!(matches!(error, TuiError::PreviewTaken));
            refused.push(chunks);
        }
    }
    assert_eq!(lock.get(), Some(&"one"));
    assert_eq!(refused, ["two", "three"]);
}

#[test]
fn errors_are_reported() {
    let events = vec![
        TaskEvent::Reloaded(Err("disk")),
        TaskEvent::Saved(Err("disk")),
        TaskEvent::Signalled(Err("disk")),
        TaskEvent::UrlBuilt(Err("disk")),
        TaskEvent::BodyBuilt(Err("disk")),
        TaskEvent::RecordBuilt(Err("disk")),
        TaskEvent::CurlBuilt(Err("disk")),
    ];
    for event in events {
        assert!(matches!(error(event), TuiError::Other("disk")));
    }
}

#[test]
fn built_request_is_sent() {
    let step = TaskEvent::<Fake>::RequestBuilt {
        outcome: Ok((3, Arc::new("GET /"))),
        database: Arc::new("db"),
    }
    .resume();
    assert!(matches!(
        step.message,
        Some(Message::HttpLoading { request }) if *request == "GET /"
    ));
    assert!(matches!(
        step.next,
        Some(Task::SendRequest { ticket: 3, database }) if *database == "db"
    ));
}

#[test]
fn request_that_cannot_be_built_is_not_sent() {
    let event = TaskEvent::RequestBuilt { outcome: Err("no host"), database: Arc::new("db") };
    assert!(matches!(last(event), Some(Message::HttpBuildError { error: "no host" })));
}

#[test]
fn outcome_of_a_request_is_handed_over() {
    assert!(matches!(
        last(TaskEvent::RequestSent(Ok("200"))),
        Some(Message::HttpComplete(Ok("200")))
    ));
    assert!(matches!(
        last(TaskEvent::RequestSent(Err("timeout"))),
        Some(Message::HttpComplete(Err("timeout")))
    ));
}

#[test]
fn only_new_content_reloads() {
    let reaction = WatchReaction::<Fake>::react(Ok(FileEvent::Modify(ModifyKind::Data)));
    assert!(matches!(reaction, WatchReaction::Send(Message::CollectionStartReload)));
    let others = [
        FileEvent::Any,
        FileEvent::Access,
        FileEvent::Create,
        FileEvent::Modify(ModifyKind::Any),
        FileEvent::Modify(ModifyKind::Metadata),
        FileEvent::Modify(ModifyKind::Name),
        FileEvent::Modify(ModifyKind::Other),
        FileEvent::Remove,
        FileEvent::Other,
    ];
    for event in others {
        assert!(matches!(WatchReaction::<Fake>::react(Ok(event)), WatchReaction::Ignore));
    }
    assert!(matches!(WatchReaction::<Fake>::react(Err("gone")), WatchReaction::Log("gone")));
}
