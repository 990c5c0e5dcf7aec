//! What holds of the terminal.
use crate::terminal::{TerminalMode, TerminalScript, TerminalStep};
use vstd::prelude::*;

verus! {

/// Restoring returns the terminal to its initial state, from wherever it was: after a complete
/// takeover, and just as well after one that stopped halfway.
pub proof fn restoring_undoes_the_takeover(mode: TerminalMode)
    ensures
        mode.with_all(TerminalScript::release()) == TerminalMode::initial(),
        TerminalMode::initial().with_all(TerminalScript::takeover()) == TerminalMode::taken(),
{
    reveal_with_fuel(TerminalMode::with_all, 4);
    let release = TerminalScript::release();
    assert(release.drop_first() =~= seq![TerminalStep::LeaveScreen]);
    assert(release.drop_first().drop_first() =~= seq![]);
    let takeover = TerminalScript::takeover();
    assert(takeover.drop_first() =~= seq![TerminalStep::EnterScreen, TerminalStep::CreateHandle]);
    assert(takeover.drop_first().drop_first() =~= seq![TerminalStep::CreateHandle]);
    assert(takeover.drop_first().drop_first().drop_first() =~= seq![]);
}

/// The terminal is taken over in order: raw mode, the screen along with the mouse, and at last the
/// handle to draw with. It is given back in the order in which it was taken.
pub proof fn steps_keep_their_order()
    ensures
        TerminalScript::takeover() =~= seq![
            TerminalStep::EnableRawMode,
            TerminalStep::EnterScreen,
            TerminalStep::CreateHandle,
        ],
        TerminalScript::release() =~= seq![TerminalStep::DisableRawMode, TerminalStep::LeaveScreen],
{
}

/// Each step changes its own part of the terminal, whatever the rest is like: raw mode is on or
/// off, and the screen and the mouse go together. Making the handle changes nothing.
pub proof fn steps_change_their_own_part(mode: TerminalMode, step: TerminalStep)
    ensures
        ({
            let after = mode.with(step);
            &&& after.raw == if step is EnableRawMode {
                true
            } else if step is DisableRawMode {
                false
            } else {
                mode.raw
            }
            &&& after.alternate_screen == if step is EnterScreen {
                true
            } else if step is LeaveScreen {
                false
            } else {
                mode.alternate_screen
            }
            &&& after.mouse_captured == if step is EnterScreen {
                true
            } else if step is LeaveScreen {
                false
            } else {
                mode.mouse_captured
            }
        }),
{
}

/// Programs find a terminal with nothing switched on, and the interface needs everything.
pub proof fn everything_is_taken(mode: TerminalMode)
    ensures
        mode == TerminalMode::initial() <==> !mode.raw && !mode.alternate_screen
            && !mode.mouse_captured,
        mode == TerminalMode::taken() <==> mode.raw && mode.alternate_screen
            && mode.mouse_captured,
{
}

} // verus!
