//! Whole sessions of the render loop: what holds of every run of it.

use vstd::prelude::*;
use crate::event::{Event, InputEventResult, KeyCode, KeyPress, QUIT_KEY};
use crate::render_loop::{Action, Outcome, RenderLoop, Response, Step};

verus! {

impl RenderLoop {
    /// The state after the driver has answered with `responses`, one after
    /// the other.
    pub open spec fn run(self, responses: Seq<Response>) -> RenderLoop
        decreases responses.len(),
    {
        if responses.len() == 0 {
            self
        } else {
            self.run(responses.drop_last()).next(responses.last())
        }
    }

    /// How often the driver was given `step` to carry out and answered it,
    /// in a run over `responses`.
    pub open spec fn carried_out(self, step: Step, responses: Seq<Response>) -> nat
        decreases responses.len(),
    {
        if responses.len() == 0 {
            0
        } else {
            let before = responses.drop_last();
            let earlier = self.carried_out(step, before);
            if self.run(before).pending == Action::Perform(step) {
                earlier + 1
            } else {
                earlier
            }
        }
    }

    /// Whether a draw has been carried out that no receive has followed yet:
    /// a receive is pending, or the draw itself failed.
    pub open spec fn has_drawn_ahead(self) -> bool {
        self.pending == Action::Perform(Step::Receive) || self.pending == Action::Exit(
            Outcome::Failed(Step::Draw),
        )
    }
}

/// A session that has ended stays ended: whatever the driver says after the
/// exit, the state is the same and no step is carried out.
pub proof fn lemma_exit_is_final(session: RenderLoop, responses: Seq<Response>, step: Step)
    requires
        !session.running(),
    ensures
        session.run(responses) == session,
        session.carried_out(step, responses) == 0,
    decreases responses.len(),
{
    if responses.len() > 0 {
        lemma_exit_is_final(session, responses.drop_last(), step);
    }
}

/// Once the quit key has been received, the loop never draws and never
/// receives again, whatever the driver answers: it restores the terminal and
/// ends. After the two answers to the restoring steps it has ended, and it
/// has ended with `Outcome::Quit` if both went well.
pub proof fn lemma_quit_is_terminal(event: Event, responses: Seq<Response>)
    requires
        event.verdict() == InputEventResult::Quit,
    ensures
        ({
            let receiving = RenderLoop { pending: Action::Perform(Step::Receive) };
            let quitting = receiving.next(Response::Received(event));
            &&& quitting.pending == Action::Perform(Step::DisableRawMode)
            &&& quitting.carried_out(Step::Draw, responses) == 0
            &&& quitting.carried_out(Step::Receive, responses) == 0
            &&& quitting.run(responses).pending != Action::Perform(Step::Draw)
            &&& quitting.run(responses).pending != Action::Perform(Step::Receive)
            &&& responses.len() >= 2 ==> !quitting.run(responses).running()
            &&& responses =~= seq![Response::Done, Response::Done] ==> quitting.run(
                responses,
            ).pending == Action::Exit(Outcome::Quit)
        }),
    decreases responses.len(),
{
    let quitting = RenderLoop { pending: Action::Perform(Step::DisableRawMode) };
    lemma_shutdown(quitting, responses);
    if responses =~= seq![Response::Done, Response::Done] {
        let first = responses.drop_last();
        assert(first =~= seq![Response::Done]);
        assert(first.drop_last() =~= Seq::<Response>::empty());
        assert(quitting.run(first.drop_last()) == quitting);
        assert(quitting.run(first).pending == Action::Perform(Step::ShowCursor));
    }
}

/// What holds of every run that begins with the terminal being restored.
proof fn lemma_shutdown(quitting: RenderLoop, responses: Seq<Response>)
    requires
        quitting.pending == Action::Perform(Step::DisableRawMode),
    ensures
        quitting.carried_out(Step::Draw, responses) == 0,
        quitting.carried_out(Step::Receive, responses) == 0,
        responses.len() == 0 ==> quitting.run(responses) == quitting,
        responses.len() == 1 ==> quitting.run(responses).pending == Action::Perform(
            Step::ShowCursor,
        ) || !quitting.run(responses).running(),
        responses.len() >= 2 ==> !quitting.run(responses).running(),
    decreases responses.len(),
{
    if responses.len() > 0 {
        lemma_shutdown(quitting, responses.drop_last());
    }
}

/// A key other than the quit key changes nothing: the loop goes on to the
/// next draw, as it does after a tick.
pub proof fn lemma_other_keys_are_no_ops(key: KeyPress)
    requires
        key.code != KeyCode::Char(QUIT_KEY),
    ensures
        ({
            let receiving = RenderLoop { pending: Action::Perform(Step::Receive) };
            &&& receiving.next(Response::Received(Event::Input(key))) == (RenderLoop {
                pending: Action::Perform(Step::Draw),
            })
            &&& receiving.next(Response::Received(Event::Input(key))) == receiving.next(
                Response::Received(Event::Tick),
            )
        }),
{
}

/// Draws and receives take turns, the draw first: in every run from the
/// start, as many draws have been carried out as receives, and one more
/// while the receive that follows a draw is still to be answered. So exactly
/// one draw comes before each receive, whatever the events are.
pub proof fn lemma_one_draw_before_each_receive(responses: Seq<Response>)
    ensures
        ({
            let session = RenderLoop::started();
            let draws = session.carried_out(Step::Draw, responses);
            let receives = session.carried_out(Step::Receive, responses);
            if session.run(responses).has_drawn_ahead() {
                draws == receives + 1
            } else {
                draws == receives
            }
        }),
    decreases responses.len(),
{
    if responses.len() > 0 {
        lemma_one_draw_before_each_receive(responses.drop_last());
    }
}

} // verus!
