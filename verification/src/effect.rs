//! What the caller is asked to do to the outside world.
//!
//! The library performs no I/O. Each operation that needs some returns the
//! steps as values, in the order in which they are to be carried out.

use vstd::prelude::*;
use crate::protocol::strings_of;

verus! {

/// One step for the caller to carry out.
#[derive(Debug, PartialEq, Eq)]
pub enum Effect {
    /// Drop the handle of the control socket.
    CloseControl,
    /// Signal the player process to terminate.
    Kill,
    /// Block until the player process has exited.
    Reap,
    /// Remove the control socket's path; that it is absent is no failure.
    RemoveSocketFile,
    /// Start the player with these arguments, its standard streams discarded.
    Spawn { args: Vec<String> },
    /// Write this line to the control socket.
    Send { line: String },
    /// Start the catalog lookup with these arguments in the background, and
    /// keep the receiving end of its result under this ticket, in place of
    /// any earlier one.
    Lookup { ticket: u64, args: Vec<String> },
}

/// What an [`Effect`] is, with its texts as sequences of characters.
pub enum EffectView {
    CloseControl,
    Kill,
    Reap,
    RemoveSocketFile,
    Spawn { args: Seq<Seq<char>> },
    Send { line: Seq<char> },
    Lookup { ticket: u64, args: Seq<Seq<char>> },
}

impl View for Effect {
    type V = EffectView;

    open spec fn view(&self) -> EffectView {
        match self {
            Effect::CloseControl => EffectView::CloseControl,
            Effect::Kill => EffectView::Kill,
            Effect::Reap => EffectView::Reap,
            Effect::RemoveSocketFile => EffectView::RemoveSocketFile,
            Effect::Spawn { args } => EffectView::Spawn { args: strings_of(args@) },
            Effect::Send { line } => EffectView::Send { line: line@ },
            Effect::Lookup { ticket, args } => EffectView::Lookup {
                ticket: *ticket,
                args: strings_of(args@),
            },
        }
    }
}

/// The views of a sequence of steps, in the same order.
pub open spec fn effects_of(steps: Seq<Effect>) -> Seq<EffectView> {
    Seq::new(steps.len(), |i: int| steps[i]@)
}

} // verus!
