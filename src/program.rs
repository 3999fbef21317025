use vstd::prelude::*;

verus! {

#[verifier::external_type_specification]
#[verifier::external_body]
pub struct ExFrame<'a>(ratatui::Frame<'a>);

/// A state machine that the driver updates with messages and draws into the
/// inline viewport.
pub trait Program: Sized {
    /// What the program is updated with.
    type Message;

    /// Height of the inline viewport, in lines; fixed for the whole run.
    const LINES: u16;

    /// The state after `message` is applied to `self`: what `update` makes of
    /// it. An implementation outside of verified code writes it as a plain
    /// method that agrees with `update`; it is never run by the driver.
    spec fn after(self, message: Self::Message) -> Self;

    /// Applies one message to the state.
    fn update(&mut self, message: Self::Message)
        ensures
            *final(self) == old(self).after(message),
    ;

    /// Renders the current state into the frame, without changing the state.
    fn draw(&self, frame: &mut ratatui::Frame);
}

/// The state of `program` after `messages` are applied to it, first to last.
pub open spec fn after_all<P: Program>(program: P, messages: Seq<P::Message>) -> P
    decreases messages.len(),
{
    if messages.len() == 0 {
        program
    } else {
        after_all(program, messages.drop_last()).after(messages.last())
    }
}

} // verus!
