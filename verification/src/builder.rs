//! From a request for a terminal to a terminal that gets its events.

use vstd::prelude::*;

use crate::error::{TerminalError, shell_text};
use crate::event::{TermEvent, TermEventView};
use crate::shell::{
    Passwd, ProgramView, Shell, command_of, is_system, law_command, program_of,
};
use crate::terminal::{Terminal, event_views};
use crate::text::{command_line_text, joined, views};

verus! {

/// The title of a terminal that runs a shell: its command line, or the user's own shell.
pub open spec fn shell_title(shell: Option<Shell>, own: Seq<char>) -> Seq<char> {
    if is_system(shell) {
        own
    } else {
        command_of(shell->0)
    }
}

/// What came of asking the emulator for its next event.
pub enum Polled<C: ?Sized, K: ?Sized, S: ?Sized> {
    /// It had one.
    Event(TermEvent<C, K, S>),
    /// It will have no more.
    Closed,
    /// It has none now.
    Empty,
}

/// What the task that brings a terminal its events does next.
pub enum Step<C: ?Sized, K: ?Sized, S: ?Sized> {
    /// Ask the emulator for its next event.
    Poll,
    /// See whether the terminal is still there.
    Upgrade,
    /// Push these events, have the terminal rendered, and start over with the next frame.
    Push(Vec<TermEvent<C, K, S>>),
    /// End.
    Stop,
}

/// A `Polled` with the view of its event.
pub enum PolledView<C: ?Sized, K: ?Sized, S: ?Sized> {
    Event(TermEventView<C, K, S>),
    Closed,
    Empty,
}

/// A `Step` with the views of its events.
pub enum StepView<C: ?Sized, K: ?Sized, S: ?Sized> {
    Poll,
    Upgrade,
    Push(Seq<TermEventView<C, K, S>>),
    Stop,
}

impl<C: ?Sized, K: ?Sized, S: ?Sized> View for Polled<C, K, S> {
    type V = PolledView<C, K, S>;

    open spec fn view(&self) -> PolledView<C, K, S> {
        match *self {
            Polled::Event(event) => PolledView::Event(event@),
            Polled::Closed => PolledView::Closed,
            Polled::Empty => PolledView::Empty,
        }
    }
}

impl<C: ?Sized, K: ?Sized, S: ?Sized> View for Step<C, K, S> {
    type V = StepView<C, K, S>;

    open spec fn view(&self) -> StepView<C, K, S> {
        match *self {
            Step::Poll => StepView::Poll,
            Step::Upgrade => StepView::Upgrade,
            Step::Push(events) => StepView::Push(event_views(events@)),
            Step::Stop => StepView::Stop,
        }
    }
}

/// What follows a poll: another after an event, the terminal where there are none for now, the end
/// where there will be no more.
pub open spec fn step_after_poll<C: ?Sized, K: ?Sized, S: ?Sized>(
    polled: PolledView<C, K, S>,
) -> StepView<C, K, S> {
    match polled {
        PolledView::Event(_) => StepView::Poll,
        PolledView::Closed => StepView::Stop,
        PolledView::Empty => StepView::Upgrade,
    }
}

/// The events of a frame after a poll.
pub open spec fn frame_after_poll<C: ?Sized, K: ?Sized, S: ?Sized>(
    frame: Seq<TermEventView<C, K, S>>,
    polled: PolledView<C, K, S>,
) -> Seq<TermEventView<C, K, S>> {
    match polled {
        PolledView::Event(event) => frame.push(event),
        _ => frame,
    }
}

/// The events of a frame after several polls.
pub open spec fn frame_after_polls<C: ?Sized, K: ?Sized, S: ?Sized>(
    frame: Seq<TermEventView<C, K, S>>,
    polls: Seq<PolledView<C, K, S>>,
) -> Seq<TermEventView<C, K, S>>
    decreases polls.len(),
{
    if polls.len() == 0 {
        frame
    } else {
        frame_after_poll(frame_after_polls(frame, polls.drop_last()), polls.last())
    }
}

/// What follows the question whether the terminal is still there: its events, or the end.
pub open spec fn step_after_upgrade<C: ?Sized, K: ?Sized, S: ?Sized>(
    frame: Seq<TermEventView<C, K, S>>,
    alive: bool,
) -> StepView<C, K, S> {
    if alive {
        StepView::Push(frame)
    } else {
        StepView::Stop
    }
}

/// The events of the current frame, on their way to a terminal.
pub struct Subscription<C: ?Sized, K: ?Sized, S: ?Sized> {
    pub events: Vec<TermEvent<C, K, S>>,
}

impl<C: ?Sized, K: ?Sized, S: ?Sized> View for Subscription<C, K, S> {
    type V = Seq<TermEventView<C, K, S>>;

    open spec fn view(&self) -> Seq<TermEventView<C, K, S>> {
        event_views(self.events@)
    }
}

impl<C: ?Sized, K: ?Sized, S: ?Sized> Subscription<C, K, S> {
    /// The start of a frame.
    pub fn new() -> (subscription: Self)
        ensures
            subscription@ == Seq::<TermEventView<C, K, S>>::empty(),
    {
        let subscription = Subscription { events: Vec::new() };
        assert(subscription@ =~= Seq::empty());
        subscription
    }

    /// Takes what the emulator had: keeps an event and asks for the next, ends where there will be no
    /// more, and goes on to the terminal where there are none for now.
    pub fn polled(&mut self, polled: Polled<C, K, S>) -> (step: Step<C, K, S>)
        ensures
            step@ == step_after_poll(polled@),
            final(self)@ == frame_after_poll(old(self)@, polled@),
    {
        match polled {
            Polled::Event(event) => {
                let ghost kept = event@;
                self.events.push(event);
                assert(self@ =~= old(self)@.push(kept));
                Step::Poll
            },
            Polled::Closed => Step::Stop,
            Polled::Empty => Step::Upgrade,
        }
    }

    /// Takes whether the terminal is still there: hands out the events of the frame and starts the
    /// next, or ends.
    pub fn upgraded(&mut self, alive: bool) -> (step: Step<C, K, S>)
        ensures
            step@ == step_after_upgrade(old(self)@, alive),
            alive ==> final(self)@ == Seq::<TermEventView<C, K, S>>::empty(),
            !alive ==> final(self)@ == old(self)@,
    {
        if alive {
            let mut events: Vec<TermEvent<C, K, S>> = Vec::new();
            events.append(&mut self.events);
            assert(events@ =~= old(self).events@);
            assert(self@ =~= Seq::empty());
            Step::Push(events)
        } else {
            Step::Stop
        }
    }
}

/// A terminal that was launched, and the events that it does not get yet.
pub struct TerminalBuilder<C: ?Sized, K: ?Sized, S: ?Sized> {
    pub terminal: Terminal<C, K, S>,
    pub events: Subscription<C, K, S>,
}

impl<C: ?Sized, K: ?Sized, S: ?Sized> TerminalBuilder<C, K, S> {
    /// The terminal of a launch, given what the system said if it could not open the pty.
    ///
    /// A terminal that runs the user's own shell needs the user's entry in the password file.
    pub fn new(
        working_directory: Option<Vec<u8>>,
        shell: Option<Shell>,
        pty: Result<(), String>,
        pw: Option<Passwd<'_>>,
    ) -> (builder: Result<Self, TerminalError>)
        requires
            pty is Ok && is_system(shell) ==> pw is Some,
        ensures
            builder is Ok <==> pty is Ok,
            builder matches Ok(built) ==> {
                &&& built.terminal@.title == shell_title(shell, pw->0.shell@)
                &&& built.terminal@.events == Seq::<TermEventView<C, K, S>>::empty()
                &&& built.events@ == Seq::<TermEventView<C, K, S>>::empty()
            },
            builder matches Err(error) ==> {
                &&& error.directory == working_directory
                &&& error.shell == shell
                &&& error.source == pty->Err_0
            },
    {
        match pty {
            Err(source) => Err(TerminalError { directory: working_directory, shell, source }),
            Ok(_) => {
                let command = match &shell {
                    Some(shell) => shell.command(),
                    None => None,
                };
                let title = match command {
                    Some(text) => text,
                    None => pw.unwrap().shell.to_owned(),
                };
                let terminal = Terminal { title, event_stack: Vec::new() };
                assert(terminal@.events =~= Seq::empty());
                Ok(TerminalBuilder { terminal, events: Subscription::new() })
            },
        }
    }

    /// Hands out the terminal, and what brings it its events.
    pub fn subscribe(self) -> (subscribed: (Terminal<C, K, S>, Subscription<C, K, S>))
        ensures
            subscribed.0 == self.terminal,
            subscribed.1 == self.events,
    {
        (self.terminal, self.events)
    }
}

/// The events that a frame was polled for reach a terminal that is still there: all of them, in their
/// order, and nothing else; and polling goes on until there are none.
pub proof fn law_frame<C: ?Sized, K: ?Sized, S: ?Sized>(events: Seq<TermEventView<C, K, S>>)
    ensures
        ({
            let polls = events.map_values(
                |event: TermEventView<C, K, S>| PolledView::<C, K, S>::Event(event),
            );
            let frame = frame_after_polls(Seq::empty(), polls.push(PolledView::Empty));
            &&& forall|i: int|
                0 <= i < polls.len() ==> step_after_poll(#[trigger] polls[i]) is Poll
            &&& step_after_poll(PolledView::<C, K, S>::Empty) is Upgrade
            &&& step_after_upgrade(frame, true) == StepView::Push(events)
        }),
{
    let polls = events.map_values(
        |event: TermEventView<C, K, S>| PolledView::<C, K, S>::Event(event),
    );
    lemma_polled_events(events);
    assert(polls.push(PolledView::Empty).drop_last() =~= polls);
}

proof fn lemma_polled_events<C: ?Sized, K: ?Sized, S: ?Sized>(events: Seq<TermEventView<C, K, S>>)
    ensures
        frame_after_polls(
            Seq::empty(),
            events.map_values(
                |event: TermEventView<C, K, S>| PolledView::<C, K, S>::Event(event),
            ),
        ) == events,
    decreases events.len(),
{
    let polls = events.map_values(
        |event: TermEventView<C, K, S>| PolledView::<C, K, S>::Event(event),
    );
    if events.len() == 0 {
        assert(events =~= Seq::empty());
    } else {
        let front = events.drop_last();
        lemma_polled_events(front);
        assert(polls.drop_last() =~= front.map_values(
            |event: TermEventView<C, K, S>| PolledView::<C, K, S>::Event(event),
        ));
        assert(front.push(events.last()) =~= events);
    }
}

/// A shell that the settings name is launched, shown in the title and named in an error as one and
/// the same command line; only where they name none is nothing launched in its place.
pub proof fn law_named_shell(shell: Option<Shell>, own: Seq<char>, found: Option<Seq<char>>)
    ensures
        program_of(shell) is None <==> is_system(shell),
        !is_system(shell) ==> {
            &&& shell_title(shell, own) == command_of(shell->0)
            &&& shell_text(shell, found) == command_of(shell->0)
            &&& command_of(shell->0) == (match program_of(shell)->0 {
                ProgramView::Just(program) => program,
                ProgramView::WithArgs { program, args } => command_line_text(program, args),
            })
        },
{
}

/// A terminal is titled after the shell that it runs: a program by its name, one with arguments by its
/// name, a space and all of them with a space between each two, and the user's own by its path.
pub proof fn law_title_of_shell(program: String, args: Vec<String>, own: Seq<char>)
    ensures
        shell_title(Some(Shell::Program(program)), own) == program@,
        shell_title(Some(Shell::WithArguments { program, args }), own) == program@ + seq![' ']
            + joined(views(args@), seq![' ']),
        shell_title(Some(Shell::System), own) == own,
        shell_title(None, own) == own,
{
    law_command(program, args);
    assert(views(args@) =~= args@.map_values(|arg: String| arg@));
}

/// An event that was polled is kept behind those that were, and the next one is asked for; where there
/// are none for now the terminal's turn comes, and where there will be no more the end, with nothing
/// kept and nothing lost.
pub proof fn law_poll<C: ?Sized, K: ?Sized, S: ?Sized>(
    frame: Seq<TermEventView<C, K, S>>,
    event: TermEvent<C, K, S>,
)
    ensures
        ({
            let kept = frame_after_poll(frame, Polled::Event(event)@);
            &&& kept.len() == frame.len() + 1
            &&& kept.take(frame.len() as int) == frame
            &&& kept.last() == event@
        }),
        frame_after_poll(frame, Polled::<C, K, S>::Closed@) == frame,
        frame_after_poll(frame, Polled::<C, K, S>::Empty@) == frame,
        step_after_poll(Polled::Event(event)@) is Poll,
        step_after_poll(Polled::<C, K, S>::Closed@) is Stop,
        step_after_poll(Polled::<C, K, S>::Empty@) is Upgrade,
{
    assert(frame_after_poll(frame, Polled::Event(event)@).take(frame.len() as int) =~= frame);
}

/// A terminal that is still there gets all events of the frame and nothing else; without one there is
/// nothing left to do.
pub proof fn law_upgrade<C: ?Sized, K: ?Sized, S: ?Sized>(frame: Seq<TermEventView<C, K, S>>)
    ensures
        step_after_upgrade(frame, true) == StepView::<C, K, S>::Push(frame),
        step_after_upgrade(frame, false) is Stop,
{
}

/// A step and its view tell the same, and so do a frame and its view: every event, in its place.
pub proof fn law_frame_views<C: ?Sized, K: ?Sized, S: ?Sized>(
    events: Vec<TermEvent<C, K, S>>,
    frame: Subscription<C, K, S>,
)
    ensures
        Step::<C, K, S>::Poll@ is Poll,
        Step::<C, K, S>::Upgrade@ is Upgrade,
        Step::<C, K, S>::Stop@ is Stop,
        Step::Push(events)@ matches StepView::Push(pushed) && pushed.len() == events@.len()
            && forall|i: int| 0 <= i < events@.len() ==> #[trigger] pushed[i] == events@[i]@,
        frame@.len() == frame.events@.len(),
        forall|i: int| 0 <= i < frame@.len() ==> #[trigger] frame@[i] == frame.events@[i]@,
{
}

} // verus!
