use vstd::prelude::*;

use crate::event::{messages_in_queue_order, messages_of, Event, Input};
use crate::program::{after_all, Program};
use crate::text::{chunks_of, display_lines, insert_chunks, lines_of, Chunk};

verus! {

/// What the driver asks of the render surface after consuming one input.
#[derive(Debug)]
pub enum Step<T> {
    /// Draw the program's current state.
    Redraw,
    /// Insert each chunk's lines, in order, just above the viewport, then
    /// draw the program's current state.
    Print { chunks: Vec<Chunk> },
    /// Restore the surface (show the cursor, clear the viewport) and hand the
    /// value back to the caller of the run.
    Finish(T),
    /// Restore the surface and end the process with this exit status.
    Exit(i32),
}

/// Where a run stands.
#[derive(PartialEq, Eq, Structural, Clone, Copy, Debug)]
pub enum Phase {
    /// Inputs are being consumed.
    Running,
    /// The caller's task completed; its value was handed back.
    Finished,
    /// An interrupt arrived; the process is to exit.
    Terminated,
}

/// The decisions of a run: owns the program, consumes one input at a time
/// and says what the surface must do next.
pub struct Driver<P: Program, T> {
    program: P,
    initial: Ghost<P>,
    phase: Phase,
    received: Ghost<Seq<Input<P::Message, T>>>,
    applied: Ghost<Seq<P::Message>>,
    scrollback: Ghost<Seq<Seq<char>>>,
}

impl<P: Program, T> Driver<P, T> {
    /// The program's current state.
    pub closed spec fn state(&self) -> P {
        self.program
    }

    /// The program's state before any input.
    pub closed spec fn initial(&self) -> P {
        self.initial@
    }

    /// Where the run stands.
    pub closed spec fn phase_spec(&self) -> Phase {
        self.phase
    }

    /// Every input consumed so far, oldest first.
    pub closed spec fn received(&self) -> Seq<Input<P::Message, T>> {
        self.received@
    }

    /// Every message handed to `update` so far, oldest first.
    pub closed spec fn applied(&self) -> Seq<P::Message> {
        self.applied@
    }

    /// Every line inserted above the viewport so far, oldest first.
    pub closed spec fn scrollback(&self) -> Seq<Seq<char>> {
        self.scrollback@
    }

    /// The driver's invariant: the messages handed to `update` are exactly
    /// the messages among the inputs consumed, in the same order, and the
    /// program's state is its initial state with each of them applied once,
    /// first to last.
    pub open spec fn wf(&self) -> bool {
        &&& self.applied() == messages_of(self.received())
        &&& self.state() == after_all(self.initial(), self.applied())
    }

    /// When every input a driver has consumed came from the queue as a
    /// message, the program has been updated with exactly those messages, in
    /// the order in which the queue handed them over, and its state is the
    /// initial state with each applied once, first to last.
    pub proof fn updates_follow_queue_order(&self, msgs: Seq<P::Message>)
        requires
            self.wf(),
            self.received() == msgs.map_values(
                |m: P::Message| Input::<P::Message, T>::Event(Event::Message(m)),
            ),
        ensures
            self.applied() == msgs,
            self.state() == after_all(self.initial(), msgs),
    {
        messages_in_queue_order::<P::Message, T>(msgs);
    }

    /// A driver over `program`, before any input.
    pub fn new(program: P) -> (r: Self)
        ensures
            r.state() == program,
            r.initial() == program,
            r.phase_spec() == Phase::Running,
            r.received() == Seq::<Input<P::Message, T>>::empty(),
            r.applied() == Seq::<P::Message>::empty(),
            r.scrollback() == Seq::<Seq<char>>::empty(),
            r.wf(),
    {
        Driver {
            initial: Ghost(program),
            program,
            phase: Phase::Running,
            received: Ghost(Seq::empty()),
            applied: Ghost(Seq::empty()),
            scrollback: Ghost(Seq::empty()),
        }
    }

    /// The program, for drawing.
    pub fn program(&self) -> (r: &P)
        ensures
            *r == self.state(),
    {
        &self.program
    }

    /// Where the run stands.
    pub fn phase(&self) -> (r: Phase)
        ensures
            r == self.phase_spec(),
    {
        self.phase
    }

    /// Consumes one input. A message updates the program and asks for a
    /// redraw; text asks for its lines to be inserted above the viewport and
    /// leaves the program as it was; the task's value ends the run with that
    /// value; an interrupt ends the process with a success status.
    pub fn step(&mut self, input: Input<P::Message, T>) -> (r: Step<T>)
        requires
            old(self).phase_spec() == Phase::Running,
            old(self).wf(),
        ensures
            final(self).initial() == old(self).initial(),
            final(self).received() == old(self).received().push(input),
            final(self).wf(),
            match input {
                Input::Event(Event::Message(m)) => {
                    &&& r is Redraw
                    &&& final(self).state() == old(self).state().after(m)
                    &&& final(self).applied() == old(self).applied().push(m)
                    &&& final(self).scrollback() == old(self).scrollback()
                    &&& final(self).phase_spec() == Phase::Running
                },
                Input::Event(Event::Print(content)) => {
                    &&& r is Print
                    &&& chunks_of(r->chunks@, lines_of(content@))
                    &&& final(self).state() == old(self).state()
                    &&& final(self).applied() == old(self).applied()
                    &&& final(self).scrollback() == old(self).scrollback() + lines_of(content@)
                    &&& final(self).phase_spec() == Phase::Running
                },
                Input::Finished(v) => {
                    &&& r == Step::Finish(v)
                    &&& final(self).state() == old(self).state()
                    &&& final(self).scrollback() == old(self).scrollback()
                    &&& final(self).phase_spec() == Phase::Finished
                },
                Input::Term => {
                    &&& r == Step::<T>::Exit(0)
                    &&& final(self).state() == old(self).state()
                    &&& final(self).scrollback() == old(self).scrollback()
                    &&& final(self).phase_spec() == Phase::Terminated
                },
            },
    {
        let ghost before = self.received@;
        let ghost input_copy = input;
        self.received = Ghost(before.push(input_copy));
        proof {
            assert(self.received@.drop_last() == before);
        }
        match input {
            Input::Event(Event::Message(m)) => {
                let ghost m_copy = m;
                let ghost applied_before = self.applied@;
                self.applied = Ghost(applied_before.push(m_copy));
                self.program.update(m);
                proof {
                    assert(self.applied@.drop_last() == applied_before);
                }
                Step::Redraw
            },
            Input::Event(Event::Print(content)) => {
                let lines = display_lines(content.as_str());
                self.scrollback = Ghost(self.scrollback@ + lines_of(content@));
                proof {
                    assert(lines@.map_values(|l: String| l@) =~= lines_of(content@));
                }
                let chunks = insert_chunks(&lines);
                Step::Print { chunks }
            },
            Input::Finished(v) => {
                self.phase = Phase::Finished;
                Step::Finish(v)
            },
            Input::Term => {
                self.phase = Phase::Terminated;
                Step::Exit(0)
            },
        }
    }
}

} // verus!
