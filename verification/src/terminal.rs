use vstd::prelude::*;

verus! {

/// One change to the terminal. A step that fails may have taken effect in part.
#[derive(Clone, Copy, Debug, PartialEq, Eq, Structural)]
pub enum TerminalStep {
    /// Hand over every key as it is pressed.
    EnableRawMode,
    /// Switch to the alternate screen and capture the mouse.
    EnterScreen,
    /// Make the handle that the view is drawn with.
    CreateHandle,
    /// Let the terminal edit lines again.
    DisableRawMode,
    /// Leave the alternate screen and let go of the mouse.
    LeaveScreen,
}

/// How the terminal is set up.
#[derive(Clone, Copy, Debug, PartialEq, Eq, Structural)]
pub struct TerminalMode {
    pub raw: bool,
    pub alternate_screen: bool,
    pub mouse_captured: bool,
}

impl TerminalMode {
    /// The terminal as programs find it.
    pub open spec fn initial() -> Self {
        TerminalMode { raw: false, alternate_screen: false, mouse_captured: false }
    }

    /// The terminal as the interface needs it.
    pub open spec fn taken() -> Self {
        TerminalMode { raw: true, alternate_screen: true, mouse_captured: true }
    }

    /// What a step that succeeds makes of the terminal.
    pub open spec fn with(self, step: TerminalStep) -> Self {
        match step {
            TerminalStep::EnableRawMode => TerminalMode { raw: true, ..self },
            TerminalStep::EnterScreen => TerminalMode {
                alternate_screen: true,
                mouse_captured: true,
                ..self
            },
            TerminalStep::CreateHandle => self,
            TerminalStep::DisableRawMode => TerminalMode { raw: false, ..self },
            TerminalStep::LeaveScreen => TerminalMode {
                alternate_screen: false,
                mouse_captured: false,
                ..self
            },
        }
    }

    /// What steps that all succeed make of the terminal, one after the other.
    pub open spec fn with_all(self, steps: Seq<TerminalStep>) -> Self
        decreases steps.len(),
    {
        if steps.len() == 0 {
            self
        } else {
            self.with(steps.first()).with_all(steps.drop_first())
        }
    }
}

/// Steps that are taken in order, up to the first one that fails.
pub struct TerminalScript {
    steps: Vec<TerminalStep>,
    done: usize,
    failed: bool,
}

impl TerminalScript {
    #[verifier::type_invariant]
    closed spec fn within(self) -> bool {
        self.done <= self.steps@.len()
    }

    /// The steps that are still to be taken.
    pub closed spec fn remaining(self) -> Seq<TerminalStep> {
        if self.failed {
            seq![]
        } else {
            self.steps@.skip(self.done as int)
        }
    }

    /// Whether a step failed.
    pub closed spec fn failed(self) -> bool {
        self.failed
    }

    /// The steps that take over the terminal.
    pub open spec fn takeover() -> Seq<TerminalStep> {
        seq![TerminalStep::EnableRawMode, TerminalStep::EnterScreen, TerminalStep::CreateHandle]
    }

    /// The steps that give the terminal back.
    pub open spec fn release() -> Seq<TerminalStep> {
        seq![TerminalStep::DisableRawMode, TerminalStep::LeaveScreen]
    }

    /// Sets up the terminal for the interface.
    pub fn initialize_terminal() -> (script: Self)
        ensures
            script.remaining() == Self::takeover(),
            !script.failed(),
    {
        let script = TerminalScript {
            steps: vec![
                TerminalStep::EnableRawMode,
                TerminalStep::EnterScreen,
                TerminalStep::CreateHandle,
            ],
            done: 0,
            failed: false,
        };
        assert(script.remaining() =~= Self::takeover());
        script
    }

    /// Returns the terminal to its initial state.
    pub fn restore_terminal() -> (script: Self)
        ensures
            script.remaining() == Self::release(),
            !script.failed(),
    {
        let script = TerminalScript {
            steps: vec![TerminalStep::DisableRawMode, TerminalStep::LeaveScreen],
            done: 0,
            failed: false,
        };
        assert(script.remaining() =~= Self::release());
        script
    }

    /// The step that is to be taken now; `None` where the script is over.
    pub fn current(&self) -> (step: Option<TerminalStep>)
        ensures
            self.remaining().len() == 0 ==> step is None,
            self.remaining().len() > 0 ==> step == Some(self.remaining().first()),
    {
        proof {
            use_type_invariant(self);
        }
        if self.failed || self.done == self.steps.len() {
            None
        } else {
            Some(self.steps[self.done])
        }
    }

    /// Notes whether the current step succeeded.
    pub fn advance(&mut self, succeeded: bool)
        requires
            old(self).remaining().len() > 0,
        ensures
            succeeded ==> final(self).remaining() == old(self).remaining().drop_first()
                && !final(self).failed(),
            !succeeded ==> final(self).remaining().len() == 0 && final(self).failed(),
    {
        proof {
            use_type_invariant(&*self);
        }
        if succeeded {
            assert(self.done < self.steps.len());
            self.done = self.done + 1;
            assert(self.remaining() =~= old(self).remaining().drop_first());
        } else {
            self.failed = true;
        }
    }
}

} // verus!
