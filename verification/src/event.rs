//! The emulator's events, and what the terminal asks of its surroundings in answer to each.

use std::sync::Arc;

use alacritty_terminal::term::color::Colors;

use vstd::prelude::*;
use vstd::string::*;
use vstd::utf8::encode_utf8;

verus! {

/// The title of a terminal whose program has reset it.
pub const DEFAULT_TITLE: &'static str = "Terminal";

/// What is printed when a program asks for the size of the text area.
pub const SIZE_REQUEST_NOTICE: &'static str = "Received text area resize request";

/// Upward flowing events, for changing the title and such
#[derive(Copy, Clone, Debug, PartialEq, Eq, Structural)]
pub enum Event {
    TitleChanged,
    CloseTerminal,
    Activate,
    Wakeup,
    Bell,
    KeyInput,
}

/// The clipboard that a program means.
#[derive(Copy, Clone, Debug, PartialEq, Eq, Structural)]
pub enum ClipboardType {
    Clipboard,
    Selection,
}

/// A color by its red, green and blue parts.
#[derive(Copy, Clone, Debug, PartialEq, Eq, Structural)]
pub struct Color {
    pub r: u8,
    pub g: u8,
    pub b: u8,
}

/// The shape of the mouse cursor.
#[derive(Copy, Clone, Debug, PartialEq, Eq, Structural)]
pub enum CursorStyle {
    Arrow,
}

/// An event of the terminal emulator. Three of them bring a formatter, which turns the answer into
/// the escape sequence that the program expects: `C` for the clipboard, `K` for a color, `S` for the
/// size of the text area.
pub enum TermEvent<C: ?Sized, K: ?Sized, S: ?Sized> {
    MouseCursorDirty,
    Title(String),
    ResetTitle,
    ClipboardStore(ClipboardType, String),
    ClipboardLoad(ClipboardType, Arc<C>),
    ColorRequest(usize, Arc<K>),
    PtyWrite(String),
    TextAreaSizeRequest(Arc<S>),
    CursorBlinkingChange,
    Wakeup,
    Bell,
    Exit,
}

/// A `TermEvent` with its texts as sequences of characters.
pub enum TermEventView<C: ?Sized, K: ?Sized, S: ?Sized> {
    MouseCursorDirty,
    Title(Seq<char>),
    ResetTitle,
    ClipboardStore(ClipboardType, Seq<char>),
    ClipboardLoad(ClipboardType, Arc<C>),
    ColorRequest(usize, Arc<K>),
    PtyWrite(Seq<char>),
    TextAreaSizeRequest(Arc<S>),
    CursorBlinkingChange,
    Wakeup,
    Bell,
    Exit,
}

impl<C: ?Sized, K: ?Sized, S: ?Sized> View for TermEvent<C, K, S> {
    type V = TermEventView<C, K, S>;

    open spec fn view(&self) -> TermEventView<C, K, S> {
        match *self {
            TermEvent::MouseCursorDirty => TermEventView::MouseCursorDirty,
            TermEvent::Title(title) => TermEventView::Title(title@),
            TermEvent::ResetTitle => TermEventView::ResetTitle,
            TermEvent::ClipboardStore(kind, data) => TermEventView::ClipboardStore(kind, data@),
            TermEvent::ClipboardLoad(kind, format) => TermEventView::ClipboardLoad(kind, format),
            TermEvent::ColorRequest(index, format) => TermEventView::ColorRequest(index, format),
            TermEvent::PtyWrite(out) => TermEventView::PtyWrite(out@),
            TermEvent::TextAreaSizeRequest(format) => TermEventView::TextAreaSizeRequest(format),
            TermEvent::CursorBlinkingChange => TermEventView::CursorBlinkingChange,
            TermEvent::Wakeup => TermEventView::Wakeup,
            TermEvent::Bell => TermEventView::Bell,
            TermEvent::Exit => TermEventView::Exit,
        }
    }
}

/// Calls `Arc::clone`: another pointer to the same value.
#[verifier::external_body]
fn share<T: ?Sized>(pointer: &Arc<T>) -> (other: Arc<T>)
    ensures
        other == *pointer,
{
    Arc::clone(pointer)
}

impl<C: ?Sized, K: ?Sized, S: ?Sized> Clone for TermEvent<C, K, S> {
    fn clone(&self) -> (copy: Self)
        ensures
            copy == *self,
    {
        match self {
            TermEvent::MouseCursorDirty => TermEvent::MouseCursorDirty,
            TermEvent::Title(title) => TermEvent::Title(title.clone()),
            TermEvent::ResetTitle => TermEvent::ResetTitle,
            TermEvent::ClipboardStore(kind, data) => TermEvent::ClipboardStore(*kind, data.clone()),
            TermEvent::ClipboardLoad(kind, format) => TermEvent::ClipboardLoad(*kind, share(format)),
            TermEvent::ColorRequest(index, format) => TermEvent::ColorRequest(*index, share(format)),
            TermEvent::PtyWrite(out) => TermEvent::PtyWrite(out.clone()),
            TermEvent::TextAreaSizeRequest(format) => TermEvent::TextAreaSizeRequest(share(format)),
            TermEvent::CursorBlinkingChange => TermEvent::CursorBlinkingChange,
            TermEvent::Wakeup => TermEvent::Wakeup,
            TermEvent::Bell => TermEvent::Bell,
            TermEvent::Exit => TermEvent::Exit,
        }
    }
}

/// What the terminal asks of its surroundings.
pub enum Action<C: ?Sized, K: ?Sized> {
    /// Nothing.
    Nothing,
    /// Tell the view of an event.
    Emit(Event),
    /// Write the bytes to the pty.
    Notify(Vec<u8>),
    /// Show this mouse cursor.
    SetCursorStyle(CursorStyle),
    /// Put the text on the clipboard.
    WriteToClipboard(String),
    /// Read the clipboard, and write `clipboard_reply` of what it holds to the pty.
    ReadFromClipboard(Arc<C>),
    /// Look the color up, and write `color_reply` of it to the pty.
    LookUpColor(usize, Arc<K>),
    /// Print the line.
    Print(String),
}

/// An `Action` with its texts as sequences.
pub enum ActionView<C: ?Sized, K: ?Sized> {
    Nothing,
    Emit(Event),
    Notify(Seq<u8>),
    SetCursorStyle(CursorStyle),
    WriteToClipboard(Seq<char>),
    ReadFromClipboard(Arc<C>),
    LookUpColor(usize, Arc<K>),
    Print(Seq<char>),
}

impl<C: ?Sized, K: ?Sized> View for Action<C, K> {
    type V = ActionView<C, K>;

    open spec fn view(&self) -> ActionView<C, K> {
        match *self {
            Action::Nothing => ActionView::Nothing,
            Action::Emit(event) => ActionView::Emit(event),
            Action::Notify(bytes) => ActionView::Notify(bytes@),
            Action::SetCursorStyle(style) => ActionView::SetCursorStyle(style),
            Action::WriteToClipboard(data) => ActionView::WriteToClipboard(data@),
            Action::ReadFromClipboard(format) => ActionView::ReadFromClipboard(format),
            Action::LookUpColor(index, format) => ActionView::LookUpColor(index, format),
            Action::Print(line) => ActionView::Print(line@),
        }
    }
}

/// The answer to an event.
pub open spec fn action_of<C: ?Sized, K: ?Sized, S: ?Sized>(
    event: TermEventView<C, K, S>,
) -> ActionView<C, K> {
    match event {
        TermEventView::MouseCursorDirty => ActionView::SetCursorStyle(CursorStyle::Arrow),
        TermEventView::Title(_) => ActionView::Emit(Event::TitleChanged),
        TermEventView::ResetTitle => ActionView::Emit(Event::TitleChanged),
        TermEventView::ClipboardStore(_, data) => ActionView::WriteToClipboard(data),
        TermEventView::ClipboardLoad(_, format) => ActionView::ReadFromClipboard(format),
        TermEventView::ColorRequest(index, format) => ActionView::LookUpColor(index, format),
        TermEventView::PtyWrite(out) => ActionView::Notify(encode_utf8(out)),
        TermEventView::TextAreaSizeRequest(_) => ActionView::Print(SIZE_REQUEST_NOTICE@),
        TermEventView::CursorBlinkingChange => ActionView::Nothing,
        TermEventView::Wakeup => ActionView::Emit(Event::Wakeup),
        TermEventView::Bell => ActionView::Emit(Event::Bell),
        TermEventView::Exit => ActionView::Emit(Event::CloseTerminal),
    }
}

/// The title that an event leaves a terminal with.
pub open spec fn title_after<C: ?Sized, K: ?Sized, S: ?Sized>(
    title: Seq<char>,
    event: TermEventView<C, K, S>,
) -> Seq<char> {
    match event {
        TermEventView::Title(new_title) => new_title,
        TermEventView::ResetTitle => DEFAULT_TITLE@,
        _ => title,
    }
}

/// The text that answers a request for the clipboard, before it is formatted: what the clipboard
/// holds, or nothing if it holds no text.
pub open spec fn clipboard_text(contents: Option<String>) -> Seq<char> {
    match contents {
        Some(text) => text@,
        None => Seq::empty(),
    }
}

/// The bytes that answer a request for the clipboard, given what it holds.
pub fn clipboard_reply<C: ?Sized + Fn(&str) -> String>(contents: Option<String>, format: &C) -> (bytes:
    Vec<u8>)
    requires
        forall|text: &str| text@ == clipboard_text(contents) ==> #[trigger] format.requires((text,)),
    ensures
        exists|text: &str, reply: String|
            text@ == clipboard_text(contents) && #[trigger] format.ensures((text,), reply) && bytes@
                == encode_utf8(reply@),
{
    let held = match contents {
        Some(text) => text,
        None => String::new(),
    };
    let text = held.as_str();
    let reply = format(text);
    reply.as_str().as_bytes_vec()
}

/// The colors of `alacritty_terminal`, of which a program may have set any.
#[verifier::external_type_specification]
#[verifier::external_body]
pub struct ExColors(alacritty_terminal::term::color::Colors);

/// A color of `alacritty_terminal`, which its `Colors` hold.
#[verifier::external_type_specification]
#[verifier::external_body]
pub struct ExRgb(alacritty_terminal::term::color::Rgb);

/// The number of colors that a terminal has.
pub const COLOR_COUNT: usize = 269;

/// The colors that a program has set, by their indices.
pub uninterp spec fn color_table(colors: Colors) -> Seq<Option<Color>>;

/// Indexes `Colors`: the color that the program has set under `index`, if any. There are
/// `COLOR_COUNT` of them, and no others.
#[verifier::external_body]
fn set_color(colors: &Colors, index: usize) -> (color: Option<Color>)
    requires
        index < COLOR_COUNT,
    ensures
        color == color_table(*colors)[index as int],
{
    match colors[index] {
        Some(color) => Some(Color { r: color.r, g: color.g, b: color.b }),
        None => None,
    }
}

/// Whether `color` answers a request for a color: it is the one that the program set, or, where it
/// set none, the theme's.
pub open spec fn answers<T: FnOnce() -> Color>(set: Option<Color>, theme: T, color: Color) -> bool {
    match set {
        Some(own) => color == own,
        None => theme.ensures((), color),
    }
}

/// The bytes that answer a request for a color, given the one that the program set, if it did.
pub fn format_color<T: FnOnce() -> Color, K: ?Sized + Fn(Color) -> String>(
    set: Option<Color>,
    theme: T,
    format: &K,
) -> (bytes: Vec<u8>)
    requires
        set is None ==> theme.requires(()),
        forall|color: Color|
            answers(set, theme, color) ==> #[trigger] format.requires((color,)),
    ensures
        exists|color: Color, reply: String|
            answers(set, theme, color) && #[trigger] format.ensures((color,), reply) && bytes@
                == encode_utf8(reply@),
{
    let color = match set {
        Some(own) => own,
        None => theme(),
    };
    let reply = format(color);
    reply.as_str().as_bytes_vec()
}

/// The bytes that answer a request for the color under `index`.
pub fn color_reply<T: FnOnce() -> Color, K: ?Sized + Fn(Color) -> String>(
    colors: &Colors,
    index: usize,
    theme: T,
    format: &K,
) -> (bytes: Vec<u8>)
    requires
        index < COLOR_COUNT,
        theme.requires(()),
        forall|color: Color| #[trigger] format.requires((color,)),
    ensures
        exists|color: Color, reply: String|
            answers(color_table(*colors)[index as int], theme, color) && #[trigger] format.ensures(
                (color,),
                reply,
            ) && bytes@ == encode_utf8(reply@),
{
    format_color(set_color(colors, index), theme, format)
}

/// The view hears of four things only: new content, a changed title, the bell, and the end of the
/// program. It hears of a changed title exactly when the program set or reset it, and any other event
/// leaves the title.
pub proof fn law_emitted_events<C: ?Sized, K: ?Sized, S: ?Sized>(
    title: Seq<char>,
    event: TermEventView<C, K, S>,
)
    ensures
        action_of(event) matches ActionView::Emit(emitted) ==> emitted == Event::Wakeup || emitted
            == Event::TitleChanged || emitted == Event::Bell || emitted == Event::CloseTerminal,
        action_of(event) == ActionView::<C, K>::Emit(Event::TitleChanged) <==> event is Title || event
            is ResetTitle,
        !(event is Title || event is ResetTitle) ==> title_after(title, event) == title,
{
}

/// Text that a program stores in a clipboard, whichever it means, is put on the clipboard, whole.
pub proof fn law_clipboard_store<C: ?Sized, K: ?Sized, S: ?Sized>(kind: ClipboardType, data: String)
    ensures
        action_of(TermEvent::<C, K, S>::ClipboardStore(kind, data)@) == ActionView::<
            C,
            K,
        >::WriteToClipboard(data@),
{
}

/// A request for a clipboard, whichever the program means, has the clipboard read, and brings the
/// program's own formatter to the reply; the formatter gets what the clipboard holds, or no text if
/// it holds none.
pub proof fn law_clipboard_load<C: ?Sized, K: ?Sized, S: ?Sized>(
    kind: ClipboardType,
    format: Arc<C>,
    held: String,
)
    ensures
        action_of(TermEvent::<C, K, S>::ClipboardLoad(kind, format)@) == ActionView::<
            C,
            K,
        >::ReadFromClipboard(format),
        clipboard_text(Some(held)) == held@,
        clipboard_text(None) == Seq::<char>::empty(),
{
}

/// A request for a color has the color of that very index looked up, and brings the program's own
/// formatter to the reply; the answer is the color that the program set and no other, or, where it set
/// none, one that the theme gives.
pub proof fn law_color_request<C: ?Sized, K: ?Sized, S: ?Sized, T: FnOnce() -> Color>(
    index: usize,
    format: Arc<K>,
    set: Color,
    theme: T,
    color: Color,
)
    ensures
        action_of(TermEvent::<C, K, S>::ColorRequest(index, format)@) == ActionView::<
            C,
            K,
        >::LookUpColor(index, format),
        answers(Some(set), theme, color) <==> color == set,
        answers(None, theme, color) <==> theme.ensures((), color),
        COLOR_COUNT == 269,
{
}

/// A payload for the pty is written to it, as the UTF-8 of the whole payload: the program that decodes
/// it has the payload back.
pub proof fn law_pty_write<C: ?Sized, K: ?Sized, S: ?Sized>(out: String)
    ensures
        action_of(TermEvent::<C, K, S>::PtyWrite(out)@) matches ActionView::Notify(bytes)
            && vstd::utf8::valid_utf8(bytes) && vstd::utf8::decode_utf8(bytes) == out@,
{
    vstd::utf8::encode_utf8_valid_utf8(out@);
    vstd::utf8::encode_utf8_decode_utf8(out@);
}

/// A title that a program sets becomes the terminal's, whatever it was; one that it resets becomes
/// "Terminal"; and the view hears of both.
pub proof fn law_titles<C: ?Sized, K: ?Sized, S: ?Sized>(before: Seq<char>, title: String)
    ensures
        title_after(before, TermEvent::<C, K, S>::Title(title)@) == title@,
        title_after(before, TermEvent::<C, K, S>::ResetTitle@) == "Terminal"@,
        action_of(TermEvent::<C, K, S>::Title(title)@) == ActionView::<C, K>::Emit(
            Event::TitleChanged,
        ),
        action_of(TermEvent::<C, K, S>::ResetTitle@) == ActionView::<C, K>::Emit(
            Event::TitleChanged,
        ),
{
}

/// The view hears of new content, of the bell, and of the end of the program; a mouse cursor that may
/// have changed is an arrow; a request for the size of the text area is only noted in print; and a
/// cursor that starts or stops blinking asks for nothing.
pub proof fn law_notices<C: ?Sized, K: ?Sized, S: ?Sized>(format: Arc<S>)
    ensures
        action_of(TermEvent::<C, K, S>::Wakeup@) == ActionView::<C, K>::Emit(Event::Wakeup),
        action_of(TermEvent::<C, K, S>::Bell@) == ActionView::<C, K>::Emit(Event::Bell),
        action_of(TermEvent::<C, K, S>::Exit@) == ActionView::<C, K>::Emit(Event::CloseTerminal),
        action_of(TermEvent::<C, K, S>::MouseCursorDirty@) == ActionView::<C, K>::SetCursorStyle(
            CursorStyle::Arrow,
        ),
        action_of(TermEvent::<C, K, S>::TextAreaSizeRequest(format)@) == ActionView::<C, K>::Print(
            "Received text area resize request"@,
        ),
        action_of(TermEvent::<C, K, S>::CursorBlinkingChange@) == ActionView::<C, K>::Nothing,
{
}

/// An event and its view tell the same: which event it is, and every part of it.
pub proof fn law_event_view<C: ?Sized, K: ?Sized, S: ?Sized>(event: TermEvent<C, K, S>)
    ensures
        match event {
            TermEvent::MouseCursorDirty => event@ is MouseCursorDirty,
            TermEvent::Title(title) => event@ == TermEventView::<C, K, S>::Title(title@),
            TermEvent::ResetTitle => event@ is ResetTitle,
            TermEvent::ClipboardStore(kind, data) => event@ == TermEventView::<
                C,
                K,
                S,
            >::ClipboardStore(kind, data@),
            TermEvent::ClipboardLoad(kind, format) => event@ == TermEventView::<
                C,
                K,
                S,
            >::ClipboardLoad(kind, format),
            TermEvent::ColorRequest(index, format) => event@ == TermEventView::<
                C,
                K,
                S,
            >::ColorRequest(index, format),
            TermEvent::PtyWrite(out) => event@ == TermEventView::<C, K, S>::PtyWrite(out@),
            TermEvent::TextAreaSizeRequest(format) => event@ == TermEventView::<
                C,
                K,
                S,
            >::TextAreaSizeRequest(format),
            TermEvent::CursorBlinkingChange => event@ is CursorBlinkingChange,
            TermEvent::Wakeup => event@ is Wakeup,
            TermEvent::Bell => event@ is Bell,
            TermEvent::Exit => event@ is Exit,
        },
{
}

/// An action and its view tell the same: which action it is, and every part of it.
pub proof fn law_action_view<C: ?Sized, K: ?Sized>(action: Action<C, K>)
    ensures
        match action {
            Action::Nothing => action@ is Nothing,
            Action::Emit(event) => action@ == ActionView::<C, K>::Emit(event),
            Action::Notify(bytes) => action@ == ActionView::<C, K>::Notify(bytes@),
            Action::SetCursorStyle(style) => action@ == ActionView::<C, K>::SetCursorStyle(style),
            Action::WriteToClipboard(data) => action@ == ActionView::<C, K>::WriteToClipboard(data@),
            Action::ReadFromClipboard(format) => action@ == ActionView::<C, K>::ReadFromClipboard(
                format,
            ),
            Action::LookUpColor(index, format) => action@ == ActionView::<C, K>::LookUpColor(
                index,
                format,
            ),
            Action::Print(line) => action@ == ActionView::<C, K>::Print(line@),
        },
{
}

} // verus!
