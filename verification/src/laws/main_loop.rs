//! What holds of the main loop over any number of iterations.
use crate::clock::Timestamp;
use crate::collection::{Collection, CollectionFile};
use crate::effect::{Effect, Modal, ModalPriority, ViewCommand};
use crate::error::TuiError;
use crate::host::Host;
use crate::message::Message;
use crate::request::{RequestConfig, RequestId};
use crate::run::{LoopEvent, MainLoop, Phase};
use crate::task::Task;
use crate::tui::Tui;
use std::sync::Arc;
use vstd::prelude::*;

verus! {

/// An event of the main loop, and the time at which it is dealt with.
pub type TimedEvent<H> = (LoopEvent<H>, Timestamp);

/// Where the main loop gets to with a series of events.
pub open spec fn course<H: Host>(main: MainLoop<H>, events: Seq<TimedEvent<H>>) -> MainLoop<H>
    decreases events.len(),
{
    if events.len() == 0 {
        main
    } else {
        course(main, events.drop_last()).step(events.last().0, events.last().1).0
    }
}

/// Whether each event is what the main loop waits for when it comes.
pub open spec fn in_turn<H: Host>(main: MainLoop<H>, events: Seq<TimedEvent<H>>) -> bool
    decreases events.len(),
{
    events.len() > 0 ==> {
        &&& in_turn(main, events.drop_last())
        &&& course(main, events.drop_last()).waits_for(events.last().0)
    }
}

/// Whether an event can come right after another one.
pub open spec fn follows<H: Host>(event: LoopEvent<H>, earlier: LoopEvent<H>) -> bool {
    match event {
        LoopEvent::Watched(_) => false,
        LoopEvent::Drawn(_) => earlier matches LoopEvent::Watched(Ok(_)) || earlier is Settled,
        LoopEvent::Received { .. } => earlier matches LoopEvent::Drawn(Ok(_)),
        LoopEvent::TimedOut => earlier matches LoopEvent::Drawn(Ok(_)),
        LoopEvent::Opened(_) => earlier matches LoopEvent::Received { message, .. } && message
            is CollectionEdit,
        LoopEvent::Settled => {
            ||| earlier matches LoopEvent::Received { message, .. } && !(message is CollectionEdit)
            ||| earlier is TimedOut
            ||| earlier is Opened
        },
    }
}

/// The main loop keeps to its order: the view is drawn before anything else and in every
/// iteration, each drawing is followed by one message at most, and after that the view works off
/// its events before it is drawn again.
pub proof fn iterations_keep_their_order<H: Host>(
    tui: Tui<H>,
    events: Seq<TimedEvent<H>>,
    i: int,
)
    requires
        in_turn(MainLoop { tui, phase: Phase::Watching }, events),
        0 <= i < events.len(),
    ensures
        i == 0 ==> events[i].0 is Watched,
        i > 0 ==> follows(events[i].0, events[i - 1].0),
    decreases events.len(),
{
    let start = MainLoop { tui, phase: Phase::Watching };
    let earlier = events.drop_last();
    if i < events.len() - 1 {
        iterations_keep_their_order(tui, earlier, i);
        assert(earlier[i] == events[i]);
        assert(i > 0 ==> earlier[i - 1] == events[i - 1]);
    } else if i > 0 {
        let before = course(start, earlier.drop_last());
        assert(earlier.last() == events[i - 1]);
        assert(in_turn(start, earlier));
        assert(before.waits_for(earlier.last().0));
    }
}

/// Whether what comes of an effect is an event of the main loop.
pub open spec fn is_answered<H: Host>(effect: Effect<H>) -> bool {
    match effect {
        Effect::Watch { .. } => true,
        Effect::Draw => true,
        Effect::Receive { .. } => true,
        Effect::OpenFile { .. } => true,
        Effect::View(ViewCommand::HandleEvents) => true,
        _ => false,
    }
}

/// Whether the event is what comes of the effect.
pub open spec fn answers<H: Host>(event: LoopEvent<H>, effect: Effect<H>) -> bool {
    match effect {
        Effect::Watch { .. } => event is Watched,
        Effect::Draw => event is Drawn,
        Effect::Receive { .. } => event is Received || event is TimedOut,
        Effect::OpenFile { .. } => event is Opened,
        Effect::View(ViewCommand::HandleEvents) => event is Settled,
        _ => false,
    }
}

/// The main loop waits for exactly what comes of the last effect that it asked for, and nothing
/// comes of the others. It asks for nothing exactly if it is over.
pub proof fn the_last_effect_is_waited_for<H: Host>(
    main: MainLoop<H>,
    event: LoopEvent<H>,
    now: Timestamp,
    next: LoopEvent<H>,
    i: int,
)
    requires
        main.waits_for(event),
    ensures
        ({
            let (after, effects) = main.step(event, now);
            &&& effects.len() == 0 <==> after.phase is Stopped
            &&& effects.len() > 0 ==> (after.waits_for(next) <==> answers(next, effects.last()))
            &&& 0 <= i < effects.len() - 1 ==> !is_answered(effects[i])
        }),
{
}

/// At its start, too, the main loop waits for what comes of the last effect.
pub proof fn the_watcher_is_waited_for<H: Host>(tui: Tui<H>, next: LoopEvent<H>, i: int)
    ensures
        ({
            let main = MainLoop { tui, phase: Phase::Watching };
            let effects = MainLoop::opening(tui);
            &&& effects.len() > 0
            &&& main.waits_for(next) <==> answers(next, effects.last())
            &&& 0 <= i < effects.len() - 1 ==> !is_answered(effects[i])
        }),
{
}

/// The main loop comes to a good end only if it was told to quit. Until then it goes on, through
/// everything that fails except for setting up the watcher and drawing.
pub proof fn runs_until_told_to_quit<H: Host>(tui: Tui<H>, events: Seq<TimedEvent<H>>)
    requires
        tui.should_run,
        in_turn(MainLoop { tui, phase: Phase::Watching }, events),
    ensures
        ({
            let main = course(MainLoop { tui, phase: Phase::Watching }, events);
            &&& main.tui.should_run <==> forall|i: int|
                0 <= i < events.len() ==> !((#[trigger] events[i]).0 matches LoopEvent::Received {
                    message,
                    ..
                } && message.quits())
            &&& main.phase matches Phase::Stopped(Ok(_)) ==> !main.tui.should_run
            &&& main.phase matches Phase::Stopped(Err(_)) ==> events.last().0 is Watched
                || events.last().0 is Drawn
        }),
    decreases events.len(),
{
    if events.len() > 0 {
        let earlier = events.drop_last();
        runs_until_told_to_quit(tui, earlier);
        assert(forall|i: int| 0 <= i < earlier.len() ==> earlier[i] == events[i]);
        assert(events.last() == events[events.len() - 1]);
    }
}

/// Whether the event is a message that tells the program to quit.
pub open spec fn tells_to_quit<H: Host>(event: LoopEvent<H>) -> bool {
    event matches LoopEvent::Received { message, .. } && message.quits()
}

/// Where the main loop is once it was told to quit: about to be over, or over.
proof fn lemma_after_quitting<H: Host>(main: MainLoop<H>, events: Seq<TimedEvent<H>>, i: int)
    requires
        in_turn(main, events),
        0 <= i < events.len(),
        tells_to_quit(events[i].0),
    ensures
        !course(main, events).tui.should_run,
        if i == events.len() - 1 {
            course(main, events).phase is Settling
        } else {
            course(main, events).phase is Stopped
        },
    decreases events.len(),
{
    if i < events.len() - 1 {
        assert(events.drop_last()[i] == events[i]);
        lemma_after_quitting(main, events.drop_last(), i);
    }
}

/// Nothing is handled after the message that tells the program to quit, however the loop goes.
pub proof fn nothing_is_handled_after_quitting<H: Host>(
    main: MainLoop<H>,
    events: Seq<TimedEvent<H>>,
    i: int,
    j: int,
)
    requires
        in_turn(main, events),
        0 <= i < j < events.len(),
        tells_to_quit(events[i].0),
    ensures
        j == i + 1,
        events[j].0 is Settled,
{
    assert(events.drop_last()[i] == events[i]);
    lemma_after_quitting(main, events.drop_last(), i);
}

/// The messages that came in, in order.
pub open spec fn received<H: Host>(events: Seq<TimedEvent<H>>) -> Seq<Message<H>>
    decreases events.len(),
{
    if events.len() == 0 {
        seq![]
    } else {
        let earlier = received(events.drop_last());
        match events.last().0 {
            LoopEvent::Received { message, .. } => earlier.push(message),
            _ => earlier,
        }
    }
}

/// Whether each message that comes in is the first of those on the queue that has not come in
/// yet, where `sent` is all that is put on the queue.
pub open spec fn takes_from<H: Host>(events: Seq<TimedEvent<H>>, sent: Seq<Message<H>>) -> bool
    decreases events.len(),
{
    events.len() > 0 ==> {
        &&& takes_from(events.drop_last(), sent)
        &&& events.last().0 matches LoopEvent::Received { message, .. } ==> {
            let taken = received(events.drop_last()).len();
            taken < sent.len() && sent[taken as int] == message
        }
    }
}

/// What the controller is after a series of messages.
pub open spec fn after_all<H: Host>(tui: Tui<H>, messages: Seq<Message<H>>) -> Tui<H>
    decreases messages.len(),
{
    if messages.len() == 0 {
        tui
    } else {
        after_all(tui, messages.drop_last()).after(messages.last())
    }
}

/// With a queue that hands out messages in the order in which they were sent, the controller
/// handles a prefix of what was sent, in that order and each message once, and nothing else
/// changes it. Only the last one of that prefix can be a message that tells the program to quit.
pub proof fn messages_are_handled_in_order<H: Host>(
    main: MainLoop<H>,
    events: Seq<TimedEvent<H>>,
    sent: Seq<Message<H>>,
)
    requires
        in_turn(main, events),
        takes_from(events, sent),
    ensures
        received(events).is_prefix_of(sent),
        course(main, events).tui == after_all(main.tui, received(events)),
        forall|k: int|
            0 <= k < received(events).len() - 1 ==> !(#[trigger] received(events)[k]).quits(),
    decreases events.len(),
{
    if events.len() > 0 {
        let earlier = events.drop_last();
        messages_are_handled_in_order(main, earlier, sent);
        if let LoopEvent::Received { message, .. } = events.last().0 {
            assert(received(events).drop_last() =~= received(earlier));
            let last = received(earlier).len() - 1;
            if last >= 0 && received(earlier)[last].quits() {
                let i = lemma_last_reception(earlier);
                assert(events[i] == earlier[i]);
                nothing_is_handled_after_quitting(main, events, i, events.len() - 1);
            }
        }
    }
}

/// The event that brought in the last message.
proof fn lemma_last_reception<H: Host>(events: Seq<TimedEvent<H>>) -> (i: int)
    requires
        received(events).len() > 0,
    ensures
        0 <= i < events.len(),
        events[i].0 is Received,
        events[i].0->message == received(events).last(),
    decreases events.len(),
{
    if events.last().0 is Received {
        events.len() - 1
    } else {
        let i = lemma_last_reception(events.drop_last());
        assert(events.drop_last()[i] == events[i]);
        i
    }
}

/// Once told to quit, the main loop lets the view work off its events and is over, without
/// drawing or taking another message.
pub proof fn quitting_ends_the_loop<H: Host>(
    main: MainLoop<H>,
    message: Message<H>,
    id: RequestId,
    now: Timestamp,
    later: Timestamp,
)
    requires
        main.phase is Receiving,
        message.quits(),
    ensures
        ({
            let (settling, effects) = main.step(LoopEvent::Received { message, id }, now);
            let (stopped, more) = settling.step(LoopEvent::Settled, later);
            &&& effects =~= seq![Effect::View(ViewCommand::<H>::HandleEvents)]
            &&& settling.phase is Settling
            &&& more.len() == 0
            &&& stopped.phase == Phase::<H>::Stopped(Ok(()))
        }),
{
}

/// A message that cannot be handled does not stop the main loop: the error is shown, the
/// controller stays as it was, and the loop goes on.
pub proof fn message_errors_are_shown<H: Host>(
    main: MainLoop<H>,
    message: Message<H>,
    id: RequestId,
    now: Timestamp,
)
    requires
        main.tui.response(message, id, now) is Err,
    ensures
        ({
            let error = main.tui.response(message, id, now)->Err_0;
            let (after, effects) = main.step(LoopEvent::Received { message, id }, now);
            &&& after == (MainLoop { tui: main.tui, phase: Phase::Settling })
            &&& effects =~= seq![
                Effect::View(
                    ViewCommand::OpenModal {
                        modal: Modal::Error(error),
                        priority: ModalPriority::High,
                    },
                ),
                Effect::View(ViewCommand::HandleEvents),
            ]
        }),
{
}

/// Nor does a file that cannot be opened.
pub proof fn files_that_do_not_open_are_shown<H: Host>(
    main: MainLoop<H>,
    source: H::Error,
    now: Timestamp,
)
    ensures
        ({
            let (after, effects) = main.step(LoopEvent::Opened(Err(source)), now);
            &&& after == (MainLoop { tui: main.tui, phase: Phase::Settling })
            &&& effects =~= seq![
                Effect::View(
                    ViewCommand::OpenModal {
                        modal: Modal::Error(TuiError::OpenFile { source }),
                        priority: ModalPriority::High,
                    },
                ),
                Effect::View(ViewCommand::HandleEvents),
            ]
        }),
{
}

/// A file that opens leaves no trace: the iteration ends as if no message had come.
pub proof fn opened_files_leave_no_trace<H: Host>(
    main: MainLoop<H>,
    event: LoopEvent<H>,
    now: Timestamp,
)
    requires
        event matches LoopEvent::Opened(Ok(_)) || event is TimedOut,
    ensures
        main.step(event, now).0 == (MainLoop { tui: main.tui, phase: Phase::Settling }),
        main.step(event, now).1 =~= seq![Effect::View(ViewCommand::<H>::HandleEvents)],
{
}

/// All that a message calls for is done, in the order in which it is called for, and after that
/// the view works off its events. The one exception is the editing of the collection: what it
/// calls for is done, and the view waits until the file is open.
pub proof fn every_effect_of_a_message_is_due<H: Host>(
    main: MainLoop<H>,
    message: Message<H>,
    id: RequestId,
    now: Timestamp,
)
    requires
        main.tui.response(message, id, now) is Ok,
    ensures
        ({
            let due = main.tui.response(message, id, now)->Ok_0;
            let (after, effects) = main.step(LoopEvent::Received { message, id }, now);
            &&& after.tui == main.tui.after(message)
            &&& message is CollectionEdit ==> effects =~= due && after.phase is Opening
            &&& !(message is CollectionEdit) ==> effects =~= due + seq![
                Effect::View(ViewCommand::HandleEvents),
            ] && after.phase is Settling
        }),
{
}

/// A request that is asked for is shown and built in the very iteration that takes the message.
pub proof fn requests_are_built_at_once<H: Host>(
    main: MainLoop<H>,
    config: RequestConfig<H>,
    id: RequestId,
    now: Timestamp,
)
    requires
        main.tui.collection_file.collection.recipes().contains_key(config.recipe_id.0@),
    ensures
        ({
            let event = LoopEvent::Received { message: Message::HttpBeginRequest(config), id };
            let effects = main.step(event, now).1;
            &&& effects.len() == 3
            &&& effects[0] is View
            &&& effects[1] matches Effect::Spawn(Task::BuildRequest { seed, .. })
            &&& seed.id == id
            &&& effects[2] == Effect::View(ViewCommand::<H>::HandleEvents)
        }),
{
}

/// A collection that was loaded again is shown in the very iteration that takes the message, and
/// from then on it is the collection of the controller.
pub proof fn reloads_are_shown_at_once<H: Host>(
    main: MainLoop<H>,
    collection: Arc<Collection<H>>,
    id: RequestId,
    now: Timestamp,
)
    ensures
        ({
            let file = CollectionFile { path: main.tui.collection_file.path, collection };
            let event = LoopEvent::Received { message: Message::CollectionEndReload(collection), id };
            let (after, effects) = main.step(event, now);
            &&& after.tui.collection_file == file
            &&& effects =~= seq![
                Effect::View(ViewCommand::Drop),
                Effect::View(
                    ViewCommand::Create { collection_file: file, database: main.tui.database },
                ),
                Effect::View(ViewCommand::HandleEvents),
            ]
        }),
{
}

/// Editing the collection opens its file and waits for that, before the view works off its events.
pub proof fn editing_waits_for_the_file<H: Host>(main: MainLoop<H>, id: RequestId, now: Timestamp)
    ensures
        ({
            let event = LoopEvent::Received { message: Message::<H>::CollectionEdit, id };
            let (after, effects) = main.step(event, now);
            &&& after == (MainLoop { tui: main.tui, phase: Phase::Opening })
            &&& effects =~= seq![Effect::OpenFile { path: main.tui.collection_file.path }]
        }),
{
}

/// An iteration starts exactly if the program is to run, with the drawing of the view. Otherwise
/// the loop is over, without an error and without asking for anything.
pub proof fn iterations_start_with_drawing<H: Host>(
    main: MainLoop<H>,
    event: LoopEvent<H>,
    now: Timestamp,
)
    requires
        event matches LoopEvent::Watched(Ok(_)) || event is Settled,
    ensures
        ({
            let (after, effects) = main.step(event, now);
            &&& after.tui == main.tui
            &&& main.tui.should_run ==> after.phase is Drawing && effects =~= seq![Effect::Draw]
            &&& !main.tui.should_run ==> after.phase is Stopped && after.phase->0 is Ok
                && effects.len() == 0
        }),
{
}

/// Two failures end the loop: that of the watcher and that of the drawing. The loop ends with the
/// error as it came, and asks for nothing.
pub proof fn fatal_errors_end_the_loop<H: Host>(
    main: MainLoop<H>,
    event: LoopEvent<H>,
    error: H::Error,
    now: Timestamp,
)
    requires
        event == LoopEvent::<H>::Watched(Err(error)) || event == LoopEvent::<H>::Drawn(Err(error)),
    ensures
        main.step(event, now).0 == (MainLoop {
            tui: main.tui,
            phase: Phase::Stopped(Err(TuiError::Other(error))),
        }),
        main.step(event, now).1.len() == 0,
{
}

/// Once the view is drawn, one message is waited for, for a quarter of a second at most.
pub proof fn messages_are_waited_for_one_tick<H: Host>(
    main: MainLoop<H>,
    event: LoopEvent<H>,
    now: Timestamp,
)
    requires
        event matches LoopEvent::Drawn(Ok(_)),
    ensures
        main.step(event, now).0 == (MainLoop { tui: main.tui, phase: Phase::Receiving }),
        main.step(event, now).1 =~= seq![Effect::Receive { timeout_millis: 250 }],
{
}

/// Only messages change the controller, and each does what handling it does.
pub proof fn only_messages_change_the_controller<H: Host>(
    main: MainLoop<H>,
    event: LoopEvent<H>,
    now: Timestamp,
)
    ensures
        main.step(event, now).0.tui == match event {
            LoopEvent::Received { message, .. } => main.tui.after(message),
            _ => main.tui,
        },
{
}

/// Each kind of event is waited for in one phase. A loop that is over waits for nothing.
pub proof fn each_event_has_its_phase<H: Host>(main: MainLoop<H>, event: LoopEvent<H>)
    ensures
        main.waits_for(event) <==> match event {
            LoopEvent::Watched(_) => main.phase is Watching,
            LoopEvent::Drawn(_) => main.phase is Drawing,
            LoopEvent::Received { .. } => main.phase is Receiving,
            LoopEvent::TimedOut => main.phase is Receiving,
            LoopEvent::Opened(_) => main.phase is Opening,
            LoopEvent::Settled => main.phase is Settling,
        },
{
}

/// The loop is set going by listening for signals and for input, and by watching the file of the
/// collection, in that order.
pub proof fn the_loop_listens_before_it_draws<H: Host>(tui: Tui<H>)
    ensures
        MainLoop::opening(tui) =~= seq![
            Effect::Spawn(Task::ListenForSignals),
            Effect::SpawnInputLoop,
            Effect::Watch { path: tui.collection_file.path },
        ],
{
}

/// Where no message comes, the view is drawn again within a tick, and nothing else changes.
pub proof fn idle_iterations_redraw<H: Host>(main: MainLoop<H>, now: Timestamp)
    requires
        main.phase is Receiving,
        main.tui.should_run,
    ensures
        ({
            let (settling, effects) = main.step(LoopEvent::TimedOut, now);
            let (drawing, more) = settling.step(LoopEvent::Settled, now);
            &&& effects =~= seq![Effect::View(ViewCommand::<H>::HandleEvents)]
            &&& more =~= seq![Effect::<H>::Draw]
            &&& drawing == (MainLoop { tui: main.tui, phase: Phase::Drawing })
        }),
{
}

} // verus!
