//! A terminal: the events that wait for it, the title it shows, and what it asks of the emulator and
//! the pty.

use alacritty_terminal::selection::Selection;
use alacritty_terminal::term::TermMode;

use vstd::prelude::*;
use vstd::string::*;
use vstd::utf8::encode_utf8;

use crate::event::{
    Action, ActionView, CursorStyle, DEFAULT_TITLE, Event, SIZE_REQUEST_NOTICE, TermEvent,
    TermEventView, action_of, title_after,
};
use crate::selection::{
    Anchor, Direction, Point, SelectionType, clicked, dragged, extend_selection, held, held_in,
    new_selection, started,
};
use crate::size::{TermSize, WindowSize, screen_for};
use crate::text::{
    ESCAPE, convert_line_endings, law_line_endings_converted, law_without_escapes, remove_escapes,
    with_carriage_returns, without_escapes,
};

verus! {

/// What clears the screen of a program that heeds it.
pub const FORM_FEED: &'static str = "\x0c";

/// Says that pasted text follows.
pub const PASTE_START: &'static str = "\x1b[200~";

/// Says that the pasted text is over.
pub const PASTE_END: &'static str = "\x1b[201~";

/// The bit of the emulator's mode that asks for pasted text to be marked as such.
pub const BRACKETED_PASTE: u32 = 0x10;

/// A message to the thread that serves the pty.
#[derive(Copy, Clone, Debug, PartialEq, Eq, Structural)]
pub enum Msg {
    Resize(WindowSize),
    Shutdown,
}

/// What the emulator is to clear.
#[derive(Copy, Clone, Debug, PartialEq, Eq, Structural)]
pub enum ClearMode {
    Below,
    Above,
    All,
    Saved,
}

/// A terminal's title, and the events that its next rendering will process: payloads for the pty that
/// are not written yet, and whatever the emulator sent.
pub struct Terminal<C: ?Sized, K: ?Sized, S: ?Sized> {
    pub title: String,
    pub event_stack: Vec<TermEvent<C, K, S>>,
}

/// A `Terminal` with its texts as sequences.
#[verifier::ext_equal]
pub struct TerminalView<C: ?Sized, K: ?Sized, S: ?Sized> {
    pub title: Seq<char>,
    pub events: Seq<TermEventView<C, K, S>>,
}

/// The views of a list of events.
pub open spec fn event_views<C: ?Sized, K: ?Sized, S: ?Sized>(
    events: Seq<TermEvent<C, K, S>>,
) -> Seq<TermEventView<C, K, S>> {
    events.map_values(|event: TermEvent<C, K, S>| event@)
}

/// The views of a list of actions.
pub open spec fn action_views<C: ?Sized, K: ?Sized>(actions: Seq<Action<C, K>>) -> Seq<
    ActionView<C, K>,
> {
    actions.map_values(|action: Action<C, K>| action@)
}

/// The answers to a list of events.
pub open spec fn actions_of<C: ?Sized, K: ?Sized, S: ?Sized>(
    events: Seq<TermEventView<C, K, S>>,
) -> Seq<ActionView<C, K>> {
    events.map_values(|event: TermEventView<C, K, S>| action_of(event))
}

/// The title that a list of events leaves a terminal with.
pub open spec fn title_after_all<C: ?Sized, K: ?Sized, S: ?Sized>(
    title: Seq<char>,
    events: Seq<TermEventView<C, K, S>>,
) -> Seq<char>
    decreases events.len(),
{
    if events.len() == 0 {
        title
    } else {
        title_after(title_after_all(title, events.drop_last()), events.last())
    }
}

/// What waits after a rendering: everything but the payloads that it wrote.
pub open spec fn still_waiting<C: ?Sized, K: ?Sized, S: ?Sized>(
    events: Seq<TermEventView<C, K, S>>,
) -> Seq<TermEventView<C, K, S>> {
    events.filter(|event: TermEventView<C, K, S>| !(event is PtyWrite))
}

impl<C: ?Sized, K: ?Sized, S: ?Sized> View for Terminal<C, K, S> {
    type V = TerminalView<C, K, S>;

    open spec fn view(&self) -> TerminalView<C, K, S> {
        TerminalView { title: self.title@, events: event_views(self.event_stack@) }
    }
}

impl<C: ?Sized, K: ?Sized, S: ?Sized> TerminalView<C, K, S> {
    /// The terminal with an event more.
    pub open spec fn with_event(self, event: TermEventView<C, K, S>) -> Self {
        TerminalView { events: self.events.push(event), ..self }
    }
}

/// Whether pasted text is to be marked as such, given the emulator's mode.
pub open spec fn marks_pastes(mode: u32) -> bool {
    mode & BRACKETED_PASTE == BRACKETED_PASTE
}

/// Calls `TermMode::contains` for `TermMode::BRACKETED_PASTE`, which is the bit `BRACKETED_PASTE`.
/// Every bit is a mode's, so none is lost in making a `TermMode` of them.
#[verifier::external_body]
fn contains_bracketed_paste(mode: u32) -> (contains: bool)
    ensures
        contains == marks_pastes(mode),
{
    TermMode::from_bits_truncate(mode).contains(TermMode::BRACKETED_PASTE)
}

impl<C: ?Sized, K: ?Sized, S: ?Sized> Terminal<C, K, S> {
    /// Puts events on the stack, in their order, behind those that are there.
    pub fn push_events(&mut self, events: Vec<TermEvent<C, K, S>>)
        ensures
            final(self)@.title == old(self)@.title,
            final(self)@.events == old(self)@.events + event_views(events@),
    {
        let ghost pushed = events@;
        let mut events = events;
        self.event_stack.append(&mut events);
        assert(self@.events =~= old(self)@.events + event_views(pushed));
    }

    /// Takes events from the emulator and translates them to behavior on this view
    pub fn process_terminal_event(&mut self, event: TermEvent<C, K, S>) -> (action: Action<C, K>)
        ensures
            action@ == action_of(event@),
            event matches TermEvent::PtyWrite(out) ==> action matches Action::Notify(bytes) && bytes@
                == encode_utf8(out@),
            event matches TermEvent::ClipboardStore(_, data) ==> action
                matches Action::WriteToClipboard(text) && text@ == data@,
            event matches TermEvent::ClipboardLoad(_, format) ==> action
                matches Action::ReadFromClipboard(reply) && reply == format,
            event matches TermEvent::ColorRequest(index, format) ==> action
                matches Action::LookUpColor(asked, reply) && asked == index && reply == format,
            event matches TermEvent::Title(title) ==> final(self).title@ == title@,
            event is ResetTitle ==> final(self).title@ == "Terminal"@,
            !(event is Title || event is ResetTitle) ==> final(self).title@ == old(self).title@,
            final(self)@.title == title_after(old(self)@.title, event@),
            final(self).event_stack == old(self).event_stack,
    {
        match event {
            TermEvent::Wakeup => Action::Emit(Event::Wakeup),
            TermEvent::PtyWrite(out) => Action::Notify(out.as_str().as_bytes_vec()),
            TermEvent::MouseCursorDirty => Action::SetCursorStyle(CursorStyle::Arrow),
            TermEvent::Title(title) => {
                self.title = title;
                Action::Emit(Event::TitleChanged)
            },
            TermEvent::ResetTitle => {
                self.title = DEFAULT_TITLE.to_owned();
                Action::Emit(Event::TitleChanged)
            },
            TermEvent::ClipboardStore(_, data) => Action::WriteToClipboard(data),
            TermEvent::ClipboardLoad(_, format) => Action::ReadFromClipboard(format),
            TermEvent::ColorRequest(index, format) => Action::LookUpColor(index, format),
            TermEvent::CursorBlinkingChange => Action::Nothing,
            TermEvent::Bell => Action::Emit(Event::Bell),
            TermEvent::Exit => Action::Emit(Event::CloseTerminal),
            TermEvent::TextAreaSizeRequest(_) => Action::Print(SIZE_REQUEST_NOTICE.to_owned()),
        }
    }

    /// Write the input payload to the tty. It waits on the stack for the next rendering, which holds
    /// the emulator's lock; that one writes it, and takes it off the stack.
    pub fn write_to_pty(&mut self, input: String)
        ensures
            final(self)@ == old(self)@.with_event(TermEventView::PtyWrite(input@)),
    {
        self.event_stack.push(TermEvent::PtyWrite(input));
        assert(self@.events =~= old(self)@.events.push(TermEventView::PtyWrite(input@)));
    }

    /// Resize the terminal and the pty: the message for the pty, and the screen for the emulator.
    pub fn set_size(&self, new_size: WindowSize) -> (resized: (Msg, TermSize))
        ensures
            resized.0 == Msg::Resize(new_size),
            resized.1 == screen_for(new_size),
            resized.1.columns == new_size.num_cols,
            resized.1.screen_lines == new_size.num_lines,
    {
        (
            Msg::Resize(new_size),
            TermSize {
                columns: new_size.num_cols as usize,
                screen_lines: new_size.num_lines as usize,
            },
        )
    }

    /// Asks the program to clear the screen, and says what the emulator is to clear.
    pub fn clear(&mut self) -> (mode: ClearMode)
        ensures
            mode == ClearMode::Saved,
            final(self)@ == old(self)@.with_event(TermEventView::PtyWrite(FORM_FEED@)),
    {
        self.write_to_pty(FORM_FEED.to_owned());
        ClearMode::Saved
    }

    /// Writes what a keystroke stands for in the emulator's mode, if it stands for anything, and says
    /// whether it did.
    pub fn try_keystroke(&mut self, esc: Option<String>) -> (written: bool)
        ensures
            written == (esc is Some),
            final(self)@ == (match esc {
                Some(text) => old(self)@.with_event(TermEventView::PtyWrite(text@)),
                None => old(self)@,
            }),
    {
        match esc {
            Some(text) => {
                self.write_to_pty(text);
                true
            },
            None => false,
        }
    }

    /// Paste text into the terminal, given the emulator's mode
    pub fn paste(&mut self, text: &str, mode: u32)
        ensures
            final(self)@ == pasted(old(self)@, text@, mode),
    {
        if contains_bracketed_paste(mode) {
            self.write_to_pty(PASTE_START.to_owned());
            self.write_to_pty(remove_escapes(text));
            self.write_to_pty(PASTE_END.to_owned());
        } else {
            self.write_to_pty(convert_line_endings(text));
        }
    }

    /// Takes the selection out of the emulator
    pub fn take_selection(&self, slot: &mut Option<Selection>) -> (selection: Option<Selection>)
        ensures
            selection == *old(slot),
            *final(slot) is None,
    {
        slot.take()
    }

    /// Sets the selection object on the emulator
    pub fn set_selection(&self, slot: &mut Option<Selection>, selection: Option<Selection>)
        ensures
            *final(slot) == selection,
    {
        *slot = selection;
    }

    /// Processes the events on the stack, in their order. What each asks for comes back in that order
    /// too. The payloads that are thereby written to the pty leave the stack; the other events stay,
    /// and the next rendering processes them again.
    pub fn render_lock(&mut self) -> (actions: Vec<Action<C, K>>)
        ensures
            action_views(actions@) == actions_of(old(self)@.events),
            final(self)@.title == title_after_all(old(self)@.title, old(self)@.events),
            final(self)@.events == still_waiting(old(self)@.events),
    {
        let ghost events = self@.events;
        let ghost title = self@.title;
        let mut actions: Vec<Action<C, K>> = Vec::new();
        let mut waiting: Vec<TermEvent<C, K, S>> = Vec::new();
        let mut i: usize = 0;
        proof {
            assert(events.take(0) =~= Seq::empty());
            reveal(Seq::filter);
            assert(event_views(waiting@) =~= still_waiting(events.take(0)));
        }
        while i < self.event_stack.len()
            invariant
                i <= self.event_stack.len(),
                events == event_views(self.event_stack@),
                action_views(actions@) == actions_of(events.take(i as int)),
                self@.title == title_after_all(title, events.take(i as int)),
                event_views(waiting@) == still_waiting(events.take(i as int)),
            decreases self.event_stack.len() - i,
        {
            let event = self.event_stack[i].clone();
            let ghost seen = event@;
            let ghost answered = actions@;
            let ghost kept = waiting@;
            proof {
                reveal(Seq::filter);
                assert(events.take(i + 1).drop_last() =~= events.take(i as int));
                assert(events.take(i + 1).last() == seen);
            }
            let written = match event {
                TermEvent::PtyWrite(_) => true,
                _ => false,
            };
            if !written {
                waiting.push(event.clone());
                assert(event_views(waiting@) =~= event_views(kept).push(seen));
            }
            let action = self.process_terminal_event(event);
            actions.push(action);
            assert(action_views(actions@) =~= action_views(answered).push(action_of(seen)));
            assert(actions_of(events.take(i + 1)) =~= actions_of(events.take(i as int)).push(
                action_of(seen),
            ));
            i = i + 1;
        }
        assert(events.take(events.len() as int) =~= events);
        self.event_stack = waiting;
        actions
    }

    /// A placeholder for how far the screen is scrolled into the history: the same number, whatever
    /// the scroll.
    pub fn get_display_offset(&self) -> (offset: usize)
        ensures
            offset == 10,
    {
        10
    }

    /// Starts the selection that a number of clicks asks for. No click is a release.
    pub fn click(&self, slot: &mut Option<Selection>, point: Point, side: Direction, clicks: usize)
        ensures
            held_in(*final(slot)) == clicked(held_in(*old(slot)), point, side, clicks as nat),
            clicks == 0 ==> *final(slot) == *old(slot),
            clicks > 3 ==> *final(slot) is None,
            1 <= clicks <= 3 ==> {
                &&& *final(slot) is Some
                &&& held(final(slot)->0).start == (Anchor { point, side })
                &&& held(final(slot)->0).end == (Anchor { point, side })
                &&& held(final(slot)->0).kind == (if clicks == 1 {
                    SelectionType::Simple
                } else if clicks == 2 {
                    SelectionType::Semantic
                } else {
                    SelectionType::Lines
                })
            },
    {
        let selection_type = match clicks {
            0 => {
                return ;
            },
            1 => Some(SelectionType::Simple),
            2 => Some(SelectionType::Semantic),
            3 => Some(SelectionType::Lines),
            _ => None,
        };
        let selection = match selection_type {
            Some(kind) => Some(new_selection(kind, point, side)),
            None => None,
        };
        self.set_selection(slot, selection);
    }

    /// Moves the end of the selection, if there is one.
    pub fn drag(&self, slot: &mut Option<Selection>, point: Point, side: Direction)
        ensures
            held_in(*final(slot)) == dragged(held_in(*old(slot)), point, side),
    {
        if let Some(selection) = self.take_selection(slot) {
            let mut selection = selection;
            extend_selection(&mut selection, point, side);
            self.set_selection(slot, Some(selection));
        }
    }

    /// Starts a selection by cells, as a single click does.
    pub fn mouse_down(&self, slot: &mut Option<Selection>, point: Point, side: Direction)
        ensures
            held_in(*final(slot)) == Some(started(SelectionType::Simple, point, side)),
            held_in(*final(slot)) == clicked(held_in(*old(slot)), point, side, 1),
    {
        self.set_selection(slot, Some(new_selection(SelectionType::Simple, point, side)));
    }

    /// The message that ends the thread that serves the pty, sent when the terminal goes.
    pub fn shutdown_message(&self) -> (message: Msg)
        ensures
            message == Msg::Shutdown,
    {
        Msg::Shutdown
    }
}

/// The terminal after a paste. Where pastes are marked, the text goes between the marks, without the
/// escape characters that could fake the second one; elsewhere its lines end as if they were typed.
pub open spec fn pasted<C: ?Sized, K: ?Sized, S: ?Sized>(
    terminal: TerminalView<C, K, S>,
    text: Seq<char>,
    mode: u32,
) -> TerminalView<C, K, S> {
    if marks_pastes(mode) {
        terminal.with_event(TermEventView::PtyWrite(PASTE_START@)).with_event(
            TermEventView::PtyWrite(without_escapes(text)),
        ).with_event(TermEventView::PtyWrite(PASTE_END@))
    } else {
        terminal.with_event(TermEventView::PtyWrite(with_carriage_returns(text)))
    }
}

/// What is given to `write_to_pty` is written to the pty, byte for byte, by the next rendering, after
/// everything that was waiting before; and it changes nothing else about that rendering.
pub proof fn law_payload_is_written<C: ?Sized, K: ?Sized, S: ?Sized>(
    terminal: TerminalView<C, K, S>,
    input: Seq<char>,
)
    ensures
        ({
            let after = terminal.with_event(TermEventView::PtyWrite(input));
            &&& actions_of(after.events) == actions_of(terminal.events).push(
                ActionView::Notify(encode_utf8(input)),
            )
            &&& title_after_all(after.title, after.events) == title_after_all(
                terminal.title,
                terminal.events,
            )
        }),
{
    let after = terminal.with_event(TermEventView::PtyWrite(input));
    assert(after.events.drop_last() =~= terminal.events);
    assert(actions_of(after.events) =~= actions_of(terminal.events).push(
        ActionView::Notify(encode_utf8(input)),
    ));
}

/// What is given to `write_to_pty` is written once: what waits after the next rendering, and what any
/// later one asks for, is as if it had never been given.
pub proof fn law_payload_is_written_once<C: ?Sized, K: ?Sized, S: ?Sized>(
    terminal: TerminalView<C, K, S>,
    input: Seq<char>,
    later: Seq<TermEventView<C, K, S>>,
)
    ensures
        ({
            let waiting = still_waiting(
                terminal.with_event(TermEventView::PtyWrite(input)).events,
            );
            &&& waiting == still_waiting(terminal.events)
            &&& actions_of(waiting + later) == actions_of(still_waiting(terminal.events))
                + actions_of(later)
        }),
{
    reveal(Seq::filter);
    let after = terminal.with_event(TermEventView::PtyWrite(input));
    assert(after.events.drop_last() =~= terminal.events);
    law_events_in_order(terminal.title, still_waiting(terminal.events), later);
}

/// After a rendering no payload waits, so one that nothing was given to since writes nothing but the
/// replies that programs asked for; and it leaves waiting what was.
pub proof fn law_nothing_is_written_again<C: ?Sized, K: ?Sized, S: ?Sized>(
    events: Seq<TermEventView<C, K, S>>,
)
    ensures
        forall|i: int|
            0 <= i < still_waiting(events).len() ==> !(#[trigger] still_waiting(events)[i] is PtyWrite),
        forall|i: int|
            0 <= i < actions_of(still_waiting(events)).len() ==> !(#[trigger] actions_of(
                still_waiting(events),
            )[i] is Notify),
        still_waiting(still_waiting(events)) == still_waiting(events),
    decreases events.len(),
{
    reveal(Seq::filter);
    if events.len() > 0 {
        let front = events.drop_last();
        law_nothing_is_written_again(front);
        let waiting = still_waiting(events);
        assert(waiting.len() > still_waiting(front).len() ==> waiting.drop_last() =~= still_waiting(
            front,
        ));
        assert forall|i: int| 0 <= i < waiting.len() implies !(#[trigger] waiting[i] is PtyWrite) by {
            if i < still_waiting(front).len() {
                assert(waiting[i] == still_waiting(front)[i]);
            }
        }
    }
}

/// Events are answered in the order in which they came, whether they came at once or in parts.
pub proof fn law_events_in_order<C: ?Sized, K: ?Sized, S: ?Sized>(
    title: Seq<char>,
    first: Seq<TermEventView<C, K, S>>,
    second: Seq<TermEventView<C, K, S>>,
)
    ensures
        actions_of(first + second) == actions_of(first) + actions_of(second),
        title_after_all(title, first + second) == title_after_all(
            title_after_all(title, first),
            second,
        ),
    decreases second.len(),
{
    assert(actions_of(first + second) =~= actions_of(first) + actions_of(second));
    if second.len() == 0 {
        assert(first + second =~= first);
    } else {
        law_events_in_order(title, first, second.drop_last());
        assert((first + second).drop_last() =~= first + second.drop_last());
    }
}

/// The last event that sets or resets the title decides it.
pub proof fn law_last_title_counts<C: ?Sized, K: ?Sized, S: ?Sized>(
    title: Seq<char>,
    events: Seq<TermEventView<C, K, S>>,
    last: int,
)
    requires
        0 <= last < events.len(),
        events[last] is Title || events[last] is ResetTitle,
        forall|i: int|
            last < i < events.len() ==> !(#[trigger] events[i] is Title || events[i] is ResetTitle),
    ensures
        title_after_all(title, events) == (match events[last] {
            TermEventView::Title(new_title) => new_title,
            _ => "Terminal"@,
        }),
    decreases events.len(),
{
    if last < events.len() - 1 {
        assert(!(events[events.len() - 1] is Title || events[events.len() - 1] is ResetTitle));
        law_last_title_counts(title, events.drop_last(), last);
    }
}

/// Events none of which sets or resets the title leave it.
pub proof fn law_title_stays<C: ?Sized, K: ?Sized, S: ?Sized>(
    title: Seq<char>,
    events: Seq<TermEventView<C, K, S>>,
)
    requires
        forall|i: int|
            0 <= i < events.len() ==> !(#[trigger] events[i] is Title || events[i] is ResetTitle),
    ensures
        title_after_all(title, events) == title,
    decreases events.len(),
{
    if events.len() > 0 {
        assert(!(events[events.len() - 1] is Title || events[events.len() - 1] is ResetTitle));
        law_title_stays(title, events.drop_last());
    }
}

/// Rendering again, with no event in between, leaves the title that the first rendering left.
pub proof fn law_render_again<C: ?Sized, K: ?Sized, S: ?Sized>(
    title: Seq<char>,
    events: Seq<TermEventView<C, K, S>>,
)
    ensures
        title_after_all(title_after_all(title, events), still_waiting(events)) == title_after_all(
            title,
            events,
        ),
{
    lemma_same_title(title, title_after_all(title, events), events);
    lemma_title_of_waiting(title_after_all(title, events), events);
}

/// The payloads among the events play no part in the title.
proof fn lemma_title_of_waiting<C: ?Sized, K: ?Sized, S: ?Sized>(
    title: Seq<char>,
    events: Seq<TermEventView<C, K, S>>,
)
    ensures
        title_after_all(title, still_waiting(events)) == title_after_all(title, events),
    decreases events.len(),
{
    reveal(Seq::filter);
    if events.len() > 0 {
        let front = events.drop_last();
        lemma_title_of_waiting(title, front);
        if !(events.last() is PtyWrite) {
            assert(still_waiting(events).drop_last() =~= still_waiting(front));
        }
    }
}

/// Two terminals that get the same events have the same title afterwards, or each its own still.
proof fn lemma_same_title<C: ?Sized, K: ?Sized, S: ?Sized>(
    one: Seq<char>,
    other: Seq<char>,
    events: Seq<TermEventView<C, K, S>>,
)
    ensures
        title_after_all(one, events) == title_after_all(other, events) || (title_after_all(one, events)
            == one && title_after_all(other, events) == other),
    decreases events.len(),
{
    if events.len() > 0 {
        lemma_same_title(one, other, events.drop_last());
    }
}

/// Text pasted where pastes are marked is written to the pty between the two marks, and with no
/// escape character in it: the first mark after it that the program reads is the one that ends the
/// paste.
pub proof fn law_marked_paste<C: ?Sized, K: ?Sized, S: ?Sized>(
    terminal: TerminalView<C, K, S>,
    text: Seq<char>,
    mode: u32,
)
    requires
        marks_pastes(mode),
    ensures
        actions_of(pasted(terminal, text, mode).events) == actions_of(terminal.events) + seq![
            ActionView::Notify(encode_utf8(PASTE_START@)),
            ActionView::Notify(encode_utf8(without_escapes(text))),
            ActionView::Notify(encode_utf8(PASTE_END@)),
        ],
        !without_escapes(text).contains(ESCAPE),
        PASTE_END@[0] == ESCAPE,
{
    law_without_escapes(text);
    reveal_strlit("\x1b[201~");
    assert(actions_of(pasted(terminal, text, mode).events) =~= actions_of(terminal.events) + seq![
        ActionView::Notify(encode_utf8(PASTE_START@)),
        ActionView::Notify(encode_utf8(without_escapes(text))),
        ActionView::Notify(encode_utf8(PASTE_END@)),
    ]);
}

/// Text pasted where pastes are not marked is written to the pty in one piece, and with no line feed
/// in it.
pub proof fn law_unmarked_paste<C: ?Sized, K: ?Sized, S: ?Sized>(
    terminal: TerminalView<C, K, S>,
    text: Seq<char>,
    mode: u32,
)
    requires
        !marks_pastes(mode),
    ensures
        actions_of(pasted(terminal, text, mode).events) == actions_of(terminal.events).push(
            ActionView::Notify(encode_utf8(with_carriage_returns(text))),
        ),
        !with_carriage_returns(text).contains('\n'),
{
    law_line_endings_converted(text);
    law_payload_is_written(terminal, with_carriage_returns(text));
}

/// A terminal and its view tell the same: the title, and every event that waits, in its place.
pub proof fn law_terminal_view<C: ?Sized, K: ?Sized, S: ?Sized>(terminal: Terminal<C, K, S>)
    ensures
        terminal@.title == terminal.title@,
        terminal@.events.len() == terminal.event_stack@.len(),
        forall|i: int|
            0 <= i < terminal@.events.len() ==> #[trigger] terminal@.events[i]
                == terminal.event_stack@[i]@,
{
}

/// The views of lists are those of their elements, each in its place.
pub proof fn law_list_views<C: ?Sized, K: ?Sized, S: ?Sized>(
    events: Seq<TermEvent<C, K, S>>,
    actions: Seq<Action<C, K>>,
)
    ensures
        event_views(events).len() == events.len(),
        forall|i: int| 0 <= i < events.len() ==> #[trigger] event_views(events)[i] == events[i]@,
        action_views(actions).len() == actions.len(),
        forall|i: int| 0 <= i < actions.len() ==> #[trigger] action_views(actions)[i] == actions[i]@,
{
}

/// Every event that waits is answered, by one action, in its place.
pub proof fn law_every_event_is_answered<C: ?Sized, K: ?Sized, S: ?Sized>(
    events: Seq<TermEventView<C, K, S>>,
)
    ensures
        actions_of(events).len() == events.len(),
        forall|i: int|
            0 <= i < events.len() ==> #[trigger] actions_of(events)[i] == action_of(events[i]),
{
}

/// What waits after a rendering is decided event by event: a payload goes, any other event stays, and
/// of two lists stays what stays of each, in place.
pub proof fn law_still_waiting<C: ?Sized, K: ?Sized, S: ?Sized>(
    event: TermEventView<C, K, S>,
    first: Seq<TermEventView<C, K, S>>,
    second: Seq<TermEventView<C, K, S>>,
)
    ensures
        event is PtyWrite ==> still_waiting(seq![event]) == Seq::<TermEventView<C, K, S>>::empty(),
        !(event is PtyWrite) ==> still_waiting(seq![event]) == seq![event],
        still_waiting(first + second) == still_waiting(first) + still_waiting(second),
{
    reveal_with_fuel(Seq::filter, 3);
    assert(seq![event].drop_last() =~= Seq::empty());
    assert(!(event is PtyWrite) ==> still_waiting(seq![event]) =~= seq![event]);
    Seq::filter_distributes_over_add(
        first,
        second,
        |event: TermEventView<C, K, S>| !(event is PtyWrite),
    );
}

/// An event more waits behind those that did, and the title stays.
pub proof fn law_with_event<C: ?Sized, K: ?Sized, S: ?Sized>(
    terminal: TerminalView<C, K, S>,
    event: TermEventView<C, K, S>,
)
    ensures
        terminal.with_event(event).title == terminal.title,
        terminal.with_event(event).events == terminal.events + seq![event],
{
    assert(terminal.events.push(event) =~= terminal.events + seq![event]);
}

/// Pastes are marked exactly if the fifth bit of the mode is set, whatever the other bits are.
pub proof fn law_marks_pastes(mode: u32)
    ensures
        marks_pastes(mode | 0x10),
        !marks_pastes(mode & !0x10),
        marks_pastes(mode) <==> mode & 0x10 != 0,
{
    assert((mode | 0x10) & 0x10 == 0x10u32) by (bit_vector);
    assert((mode & !0x10) & 0x10 != 0x10u32) by (bit_vector);
    assert(mode & 0x10 == 0x10u32 <==> mode & 0x10 != 0) by (bit_vector);
}

/// A paste leaves the title and what was waiting. Behind that it queues, where pastes are marked, the
/// start mark, the text without its escape characters and the end mark, and elsewhere the text with
/// its line endings made carriage returns.
pub proof fn law_paste_queues<C: ?Sized, K: ?Sized, S: ?Sized>(
    terminal: TerminalView<C, K, S>,
    text: Seq<char>,
    mode: u32,
)
    ensures
        pasted(terminal, text, mode).title == terminal.title,
        mode & 0x10 != 0 ==> pasted(terminal, text, mode).events == terminal.events + seq![
            TermEventView::<C, K, S>::PtyWrite("\x1b[200~"@),
            TermEventView::<C, K, S>::PtyWrite(without_escapes(text)),
            TermEventView::<C, K, S>::PtyWrite("\x1b[201~"@),
        ],
        mode & 0x10 == 0 ==> pasted(terminal, text, mode).events == terminal.events + seq![
            TermEventView::<C, K, S>::PtyWrite(with_carriage_returns(text)),
        ],
{
    law_marks_pastes(mode);
    let after = pasted(terminal, text, mode).events;
    if mode & 0x10 != 0 {
        assert(after =~= terminal.events + seq![
            TermEventView::<C, K, S>::PtyWrite("\x1b[200~"@),
            TermEventView::<C, K, S>::PtyWrite(without_escapes(text)),
            TermEventView::<C, K, S>::PtyWrite("\x1b[201~"@),
        ]);
    } else {
        assert(after =~= terminal.events + seq![
            TermEventView::<C, K, S>::PtyWrite(with_carriage_returns(text)),
        ]);
    }
}

/// Clearing sends a form feed and nothing else.
pub proof fn law_form_feed()
    ensures
        FORM_FEED@ == seq!['\x0c'],
{
    reveal_strlit("\x0c");
    assert(FORM_FEED@ =~= seq!['\x0c']);
}

} // verus!
