use crate::clock::Timestamp;
use crate::effect::{Effect, Modal, ModalPriority, ViewCommand};
use crate::error::TuiError;
use crate::host::Host;
use crate::message::Message;
use crate::request::RequestId;
use crate::sharing::share;
use crate::task::Task;
use crate::tui::{just, open_modal, Tui};
use vstd::prelude::*;

verus! {

/// How long an iteration of the main loop waits for a message, in milliseconds. The view is
/// drawn again at least that often, so that what it shows about time stays current.
pub const TICK_TIME_MILLIS: u64 = 250;

/// What the main loop waits for.
pub enum Phase<H: Host> {
    /// The watcher on the collection file is being set up.
    Watching,
    /// The view is being drawn.
    Drawing,
    /// A message is being waited for.
    Receiving,
    /// A file is being opened for the user.
    Opening,
    /// The view works off its events.
    Settling,
    /// Nothing: the loop is over.
    Stopped(Result<(), TuiError<H>>),
}

/// What came of the last effect that the main loop asked for.
pub enum LoopEvent<H: Host> {
    Watched(Result<(), H::Error>),
    Drawn(Result<(), H::Error>),
    /// A message was on the queue. `id` names the request that the message may ask for.
    Received { message: Message<H>, id: RequestId },
    /// No message came in time.
    TimedOut,
    Opened(Result<(), H::Error>),
    Settled,
}

/// The main loop: the controller, and how far it is within an iteration.
///
/// An iteration draws the view, takes at most one message off the queue and handles it, and lets
/// the view work off its events. The loop ends with the iteration in which it was asked to quit.
pub struct MainLoop<H: Host> {
    pub tui: Tui<H>,
    pub phase: Phase<H>,
}

impl<H: Host> MainLoop<H> {
    /// Whether the event is what the loop waits for.
    pub open spec fn waits_for(self, event: LoopEvent<H>) -> bool {
        match self.phase {
            Phase::Watching => event is Watched,
            Phase::Drawing => event is Drawn,
            Phase::Receiving => event is Received || event is TimedOut,
            Phase::Opening => event is Opened,
            Phase::Settling => event is Settled,
            Phase::Stopped(_) => false,
        }
    }

    /// The effects that set the loop going.
    pub open spec fn opening(tui: Tui<H>) -> Seq<Effect<H>> {
        seq![
            Effect::Spawn(Task::ListenForSignals),
            Effect::SpawnInputLoop,
            Effect::Watch { path: tui.collection_file.path },
        ]
    }

    /// The start of an iteration, if there is to be another one.
    pub open spec fn iteration(tui: Tui<H>) -> (Self, Seq<Effect<H>>) {
        if tui.should_run {
            (MainLoop { tui, phase: Phase::Drawing }, seq![Effect::Draw])
        } else {
            (MainLoop { tui, phase: Phase::Stopped(Ok(())) }, seq![])
        }
    }

    /// An error that ends the loop.
    pub open spec fn fatal(tui: Tui<H>, error: H::Error) -> (Self, Seq<Effect<H>>) {
        (MainLoop { tui, phase: Phase::Stopped(Err(TuiError::Other(error))) }, seq![])
    }

    /// The last part of an iteration, behind the effects of its message.
    pub open spec fn settling(tui: Tui<H>, effects: Seq<Effect<H>>) -> (Self, Seq<Effect<H>>) {
        (
            MainLoop { tui, phase: Phase::Settling },
            effects.push(Effect::View(ViewCommand::HandleEvents)),
        )
    }

    /// The effect that shows an error to the user.
    pub open spec fn shown(error: TuiError<H>) -> Effect<H> {
        Effect::View(
            ViewCommand::OpenModal { modal: Modal::Error(error), priority: ModalPriority::High },
        )
    }

    /// How the loop goes on after an event, and the effects that are due. `now` is when the
    /// building of a request starts, where the event asks for one.
    pub open spec fn step(self, event: LoopEvent<H>, now: Timestamp) -> (Self, Seq<Effect<H>>) {
        match event {
            LoopEvent::Watched(Ok(())) => MainLoop::iteration(self.tui),
            LoopEvent::Watched(Err(error)) => MainLoop::fatal(self.tui, error),
            LoopEvent::Drawn(Ok(())) => (
                MainLoop { tui: self.tui, phase: Phase::Receiving },
                seq![Effect::Receive { timeout_millis: TICK_TIME_MILLIS }],
            ),
            LoopEvent::Drawn(Err(error)) => MainLoop::fatal(self.tui, error),
            LoopEvent::Received { message, id } => {
                let tui = self.tui.after(message);
                match self.tui.response(message, id, now) {
                    Ok(effects) => if message is CollectionEdit {
                        (MainLoop { tui, phase: Phase::Opening }, effects)
                    } else {
                        MainLoop::settling(tui, effects)
                    },
                    Err(error) => MainLoop::settling(tui, seq![MainLoop::shown(error)]),
                }
            },
            LoopEvent::TimedOut => MainLoop::settling(self.tui, seq![]),
            LoopEvent::Opened(Ok(())) => MainLoop::settling(self.tui, seq![]),
            LoopEvent::Opened(Err(source)) => MainLoop::settling(
                self.tui,
                seq![MainLoop::shown(TuiError::OpenFile { source })],
            ),
            LoopEvent::Settled => MainLoop::iteration(self.tui),
        }
    }

    /// Starts the main loop.
    pub fn run(tui: Tui<H>) -> (started: (Self, Vec<Effect<H>>))
        ensures
            started.0 == (MainLoop { tui, phase: Phase::Watching }),
            started.1@ == MainLoop::opening(tui),
    {
        let path = share(&tui.collection_file.path);
        let effects = vec![
            Effect::Spawn(Task::ListenForSignals),
            Effect::SpawnInputLoop,
            Effect::Watch { path },
        ];
        (MainLoop { tui, phase: Phase::Watching }, effects)
    }

    /// Whether the event is what the loop waits for.
    pub fn accepts(&self, event: &LoopEvent<H>) -> (accepts: bool)
        ensures
            accepts == self.waits_for(*event),
    {
        match (&self.phase, event) {
            (Phase::Watching, LoopEvent::Watched(_)) => true,
            (Phase::Drawing, LoopEvent::Drawn(_)) => true,
            (Phase::Receiving, LoopEvent::Received { .. }) => true,
            (Phase::Receiving, LoopEvent::TimedOut) => true,
            (Phase::Opening, LoopEvent::Opened(_)) => true,
            (Phase::Settling, LoopEvent::Settled) => true,
            _ => false,
        }
    }

    fn start_iteration(&mut self) -> (effects: Vec<Effect<H>>)
        ensures
            (*final(self), effects@) == MainLoop::iteration(old(self).tui),
    {
        if self.tui.should_run {
            self.phase = Phase::Drawing;
            just(Effect::Draw)
        } else {
            self.phase = Phase::Stopped(Ok(()));
            Vec::new()
        }
    }

    fn stop(&mut self, error: H::Error) -> (effects: Vec<Effect<H>>)
        ensures
            (*final(self), effects@) == MainLoop::fatal(old(self).tui, error),
    {
        self.phase = Phase::Stopped(Err(TuiError::Other(error)));
        Vec::new()
    }

    fn settle(&mut self, effects: Vec<Effect<H>>) -> (all: Vec<Effect<H>>)
        ensures
            (*final(self), all@) == MainLoop::settling(old(self).tui, effects@),
    {
        self.phase = Phase::Settling;
        let mut all = effects;
        all.push(Effect::View(ViewCommand::HandleEvents));
        all
    }

    fn show(&mut self, error: TuiError<H>) -> (all: Vec<Effect<H>>)
        ensures
            (*final(self), all@) == MainLoop::settling(
                old(self).tui,
                seq![MainLoop::shown(error)],
            ),
    {
        self.settle(just(open_modal(Modal::Error(error), ModalPriority::High)))
    }

    /// Goes on with the main loop after the event that it waits for.
    pub fn resume(&mut self, event: LoopEvent<H>) -> (effects: Vec<Effect<H>>)
        requires
            old(self).waits_for(event),
        ensures
            exists|now: Timestamp|
                now.valid() && (event matches LoopEvent::Received { message, .. } ==> old(
                    self,
                ).tui.launches(message) ==> now.was_shown()) && (*final(self), effects@)
                    == #[trigger] old(self).step(event, now),
    {
        let ghost before = *self;
        let effects = match event {
            LoopEvent::Watched(Ok(())) => self.start_iteration(),
            LoopEvent::Watched(Err(error)) => self.stop(error),
            LoopEvent::Drawn(Ok(())) => {
                self.phase = Phase::Receiving;
                just(Effect::Receive { timeout_millis: TICK_TIME_MILLIS })
            },
            LoopEvent::Drawn(Err(error)) => self.stop(error),
            LoopEvent::Received { message, id } => {
                let opens = matches!(message, Message::CollectionEdit);
                let result = self.tui.handle_message(message, id);
                let ghost now = choose|now: Timestamp|
                    now.valid() && (before.tui.launches(message) ==> now.was_shown())
                        && crate::tui::outcome(result) == #[trigger] before.tui.response(
                        message,
                        id,
                        now,
                    );
                let effects = match result {
                    Ok(effects) => {
                        if opens {
                            self.phase = Phase::Opening;
                            effects
                        } else {
                            self.settle(effects)
                        }
                    },
                    Err(error) => self.show(error),
                };
                assert((*self, effects@) == before.step(event, now));
                return effects;
            },
            LoopEvent::TimedOut => self.settle(Vec::new()),
            LoopEvent::Opened(Ok(())) => self.settle(Vec::new()),
            LoopEvent::Opened(Err(source)) => self.show(TuiError::OpenFile { source }),
            LoopEvent::Settled => self.start_iteration(),
        };
        proof {
            let now = Timestamp { seconds: 0, nanos: 0 };
            assert((*self, effects@) == before.step(event, now));
        }
        effects
    }
}

} // verus!
