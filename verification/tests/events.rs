use std::sync::Arc;

use alacritty_terminal::term::color::{Colors, Rgb};
use alacritty_terminal::term::TermMode;
use terminal::builder::{Polled, Step, Subscription, TerminalBuilder};
use terminal::event::{
    clipboard_reply, color_reply, format_color, Action, ClipboardType, Color, CursorStyle, Event,
    TermEvent, COLOR_COUNT,
};
use terminal::shell::{Passwd, Shell};
use terminal::size::WindowSize;
use terminal::terminal::{ClearMode, Terminal, BRACKETED_PASTE};

type ClipboardFormat = dyn Fn(&str) -> String;
type ColorFormat = dyn Fn(Color) -> String;
type SizeFormat = dyn Fn(WindowSize) -> String;
type Term = Terminal<ClipboardFormat, ColorFormat, SizeFormat>;
type Queued = TermEvent<ClipboardFormat, ColorFormat, SizeFormat>;
type Asked = Action<ClipboardFormat, ColorFormat>;

fn term() -> Term {
    Terminal { title: "zsh".to_string(), event_stack: vec![] }
}

fn written(actions: &[Asked]) -> Vec<String> {
    actions
        .iter()
        .map(|action| match action {
            Action::Notify(bytes) => String::from_utf8(bytes.clone()).unwrap(),
            _ => panic!("not a write"),
        })
        .collect()
}

fn format_clipboard() -> Arc<ClipboardFormat> {
    Arc::new(|text: &str| format!("<{}>", text))
}

fn format_rgb() -> Arc<ColorFormat> {
    Arc::new(|c: Color| format!("{}/{}/{}", c.r, c.g, c.b))
}

#[test]
fn every_event_has_its_answer() {
    let mut term = term();
    assert!(matches!(
        term.process_terminal_event(TermEvent::Wakeup),
        Action::Emit(Event::Wakeup)
    ));
    assert!(matches!(
        term.process_terminal_event(TermEvent::MouseCursorDirty),
        Action::SetCursorStyle(CursorStyle::Arrow)
    ));
    assert!(matches!(
        term.process_terminal_event(TermEvent::CursorBlinkingChange),
        Action::Nothing
    ));
    assert!(matches!(
        term.process_terminal_event(TermEvent::Bell),
        Action::Emit(Event::Bell)
    ));
    assert!(matches!(
        term.process_terminal_event(TermEvent::Exit),
        Action::Emit(Event::CloseTerminal)
    ));
    let format: Arc<SizeFormat> = Arc::new(|_| String::new());
    assert!(matches!(
        term.process_terminal_event(TermEvent::TextAreaSizeRequest(format)),
        Action::Print(line) if line == "Received text area resize request"
    ));
    assert!(matches!(
        term.process_terminal_event(TermEvent::ClipboardStore(
            ClipboardType::Selection,
            "copied".to_string()
        )),
        Action::WriteToClipboard(data) if data == "copied"
    ));
    assert_eq!(term.title, "zsh");
    assert!(term.event_stack.is_empty());
}

#[test]
fn the_title_follows_the_program() {
    let mut term = term();
    assert!(matches!(
        term.process_terminal_event(TermEvent::Title("vim".to_string())),
        Action::Emit(Event::TitleChanged)
    ));
    assert_eq!(term.title, "vim");
    assert!(matches!(
        term.process_terminal_event(TermEvent::ResetTitle),
        Action::Emit(Event::TitleChanged)
    ));
    assert_eq!(term.title, "Terminal");
}

#[test]
fn the_last_title_counts() {
    let mut term = term();
    term.push_events(vec![
        TermEvent::Title("one".to_string()),
        TermEvent::ResetTitle,
        TermEvent::Title("two".to_string()),
        TermEvent::Bell,
    ]);
    assert_eq!(term.title, "zsh");
    term.render_lock();
    assert_eq!(term.title, "two");
    term.render_lock();
    assert_eq!(term.title, "two");
}

#[test]
fn input_is_written_to_the_pty() {
    let mut term = term();
    term.write_to_pty("expr 3 + 4\r".to_string());
    term.write_to_pty("é".to_string());
    assert_eq!(written(&term.render_lock()), vec!["expr 3 + 4\r", "é"]);
}

#[test]
fn rendering_answers_events_in_order() {
    let mut term = term();
    term.push_events(vec![TermEvent::Wakeup]);
    term.write_to_pty("x".to_string());
    term.push_events(vec![TermEvent::Bell, TermEvent::Exit]);
    let actions = term.render_lock();
    assert_eq!(actions.len(), 4);
    assert!(matches!(actions[0], Action::Emit(Event::Wakeup)));
    assert!(matches!(&actions[1], Action::Notify(bytes) if bytes == b"x"));
    assert!(matches!(actions[2], Action::Emit(Event::Bell)));
    assert!(matches!(actions[3], Action::Emit(Event::CloseTerminal)));
}

#[test]
fn input_is_written_once_and_other_events_stay() {
    let mut term = term();
    term.push_events(vec![TermEvent::Wakeup, TermEvent::PtyWrite("y".to_string())]);
    term.write_to_pty("x".to_string());
    term.push_events(vec![TermEvent::Bell]);
    assert_eq!(term.render_lock().len(), 4);
    for _ in 0..2 {
        let actions = term.render_lock();
        assert_eq!(actions.len(), 2);
        assert!(matches!(actions[0], Action::Emit(Event::Wakeup)));
        assert!(matches!(actions[1], Action::Emit(Event::Bell)));
        assert_eq!(term.event_stack.len(), 2);
    }
    term.write_to_pty("z".to_string());
    let actions = term.render_lock();
    assert_eq!(actions.len(), 3);
    assert!(matches!(&actions[2], Action::Notify(bytes) if bytes == b"z"));
    assert_eq!(term.render_lock().len(), 2);
}

#[test]
fn nothing_is_written_after_everything_was() {
    let mut term = term();
    term.write_to_pty("expr 3 + 4\r".to_string());
    term.paste("a\nb", 0);
    assert_eq!(written(&term.render_lock()), vec!["expr 3 + 4\r", "a\rb"]);
    assert!(term.event_stack.is_empty());
    assert!(term.render_lock().is_empty());
}

#[test]
fn a_keystroke_is_written_if_it_stands_for_something() {
    let mut term = term();
    assert!(term.try_keystroke(Some("\x1b[A".to_string())));
    assert!(!term.try_keystroke(None));
    assert_eq!(written(&term.render_lock()), vec!["\x1b[A"]);
}

#[test]
fn clearing_asks_the_program_and_the_emulator() {
    let mut term = term();
    assert_eq!(term.clear(), ClearMode::Saved);
    assert_eq!(written(&term.render_lock()), vec!["\x0c"]);
}

#[test]
fn the_bit_for_marked_pastes_is_the_emulators() {
    assert_eq!(TermMode::BRACKETED_PASTE.bits(), BRACKETED_PASTE);
}

#[test]
fn a_marked_paste_cannot_be_ended_by_its_text() {
    for mode in [BRACKETED_PASTE, u32::MAX] {
        let mut term = term();
        term.paste("a\x1b[201~; ls\r\nb\n", mode);
        assert_eq!(
            written(&term.render_lock()),
            vec!["\x1b[200~", "a[201~; ls\r\nb\n", "\x1b[201~"]
        );
    }
}

#[test]
fn an_unmarked_paste_is_typed() {
    for mode in [0, TermMode::default().bits(), !BRACKETED_PASTE] {
        let mut term = term();
        term.paste("a\x1b\r\nb\nc\r", mode);
        assert_eq!(written(&term.render_lock()), vec!["a\x1b\rb\rc\r"]);
    }
}

#[test]
fn the_clipboard_is_answered_in_the_programs_format() {
    let mut term = term();
    term.push_events(vec![TermEvent::ClipboardLoad(
        ClipboardType::Clipboard,
        format_clipboard(),
    )]);
    let actions = term.render_lock();
    let format = match &actions[0] {
        Action::ReadFromClipboard(format) => format,
        _ => panic!(),
    };
    assert_eq!(clipboard_reply(Some("held".to_string()), &**format), b"<held>");
    assert_eq!(clipboard_reply(None, &**format), b"<>");
}

#[test]
fn a_color_is_the_programs_or_else_the_themes() {
    let mut term = term();
    let action = term.process_terminal_event(TermEvent::ColorRequest(257, format_rgb()));
    let (index, format) = match action {
        Action::LookUpColor(index, format) => (index, format),
        _ => panic!(),
    };
    assert_eq!(index, 257);
    let theme = Color { r: 1, g: 2, b: 3 };
    let mut colors = Colors::default();
    assert_eq!(color_reply(&colors, index, || theme, &*format), b"1/2/3");
    colors[257] = Some(Rgb { r: 40, g: 50, b: 60 });
    assert_eq!(color_reply(&colors, index, || theme, &*format), b"40/50/60");
    assert_eq!(color_reply(&colors, COLOR_COUNT - 1, || theme, &*format), b"1/2/3");
    assert_eq!(format_color(Some(theme), || panic!(), &*format), b"1/2/3");
}

#[test]
fn the_display_offset_is_a_placeholder() {
    assert_eq!(term().get_display_offset(), 10);
}

#[test]
fn a_frame_brings_its_events_in_order() {
    let mut frame: Subscription<ClipboardFormat, ColorFormat, SizeFormat> = Subscription::new();
    let mut term = term();
    for batch in [vec!["a", "b"], vec![], vec!["c"]] {
        for text in batch.iter() {
            let event = TermEvent::PtyWrite(text.to_string());
            assert!(matches!(frame.polled(Polled::Event(event)), Step::Poll));
        }
        assert!(matches!(frame.polled(Polled::Empty), Step::Upgrade));
        match frame.upgraded(true) {
            Step::Push(events) => {
                assert_eq!(events.len(), batch.len());
                term.push_events(events);
            }
            _ => panic!(),
        }
    }
    assert_eq!(written(&term.render_lock()), vec!["a", "b", "c"]);
}

#[test]
fn events_end_with_the_emulator_or_the_terminal() {
    let mut frame: Subscription<ClipboardFormat, ColorFormat, SizeFormat> = Subscription::new();
    assert!(matches!(frame.polled(Polled::Event(Queued::Bell)), Step::Poll));
    assert!(matches!(frame.polled(Polled::Closed), Step::Stop));
    assert!(matches!(frame.upgraded(false), Step::Stop));
}

fn launch(
    shell: Option<Shell>,
    pw: Option<Passwd<'_>>,
) -> TerminalBuilder<ClipboardFormat, ColorFormat, SizeFormat> {
    match TerminalBuilder::new(None, shell, Ok(()), pw) {
        Ok(builder) => builder,
        Err(_) => panic!(),
    }
}

#[test]
fn a_terminal_is_titled_after_its_shell() {
    let pw = || Some(Passwd { _name: "ada", _dir: "/home/ada", shell: "/bin/zsh" });
    let title = |shell, pw| launch(shell, pw).subscribe().0.title;
    assert_eq!(title(None, pw()), "/bin/zsh");
    assert_eq!(title(Some(Shell::System), pw()), "/bin/zsh");
    assert_eq!(title(Some(Shell::Program("fish".to_string())), None), "fish");
    let with_arguments = Shell::WithArguments {
        program: "zsh".to_string(),
        args: vec!["-l".to_string(), "-i".to_string()],
    };
    assert_eq!(title(Some(with_arguments), pw()), "zsh -l -i");
}

#[test]
fn a_new_terminal_has_no_events() {
    let (term, frame) = launch(Some(Shell::Program("fish".to_string())), None).subscribe();
    assert!(term.event_stack.is_empty());
    assert!(frame.events.is_empty());
}

#[test]
fn a_launch_that_fails_says_what_was_asked_for() {
    let failed = TerminalBuilder::<ClipboardFormat, ColorFormat, SizeFormat>::new(
        Some(b"/nowhere".to_vec()),
        Some(Shell::Program("fish".to_string())),
        Err("os error 2".to_string()),
        None,
    );
    match failed {
        Ok(_) => panic!(),
        Err(error) => assert_eq!(
            error.fmt(None),
            "Working directory: /nowhere Shell command: `fish`, IOError: os error 2"
        ),
    }
}
