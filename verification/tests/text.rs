use terminal::text::{
    command_line, concatenate, convert_line_endings, file_name, join, remove_escapes,
};

fn strings(list: &[&str]) -> Vec<String> {
    list.iter().map(|s| s.to_string()).collect()
}

#[test]
fn join_puts_separators_between_elements_only() {
    assert_eq!(join(&strings(&[]), " "), "");
    assert_eq!(join(&strings(&["-l"]), " "), "-l");
    assert_eq!(join(&strings(&["-l", "", "-c"]), ", "), "-l, , -c");
}

#[test]
fn command_line_keeps_the_space_before_no_arguments() {
    assert_eq!(command_line("zsh", &strings(&[])), "zsh ");
    assert_eq!(command_line("zsh", &strings(&["-l", "-i"])), "zsh -l -i");
}

#[test]
fn concatenate_appends() {
    assert_eq!(concatenate("caf", "é"), "café");
    assert_eq!(concatenate("", ""), "");
}

#[test]
fn remove_escapes_removes_escapes_only() {
    assert_eq!(remove_escapes("a\x1b[201~b\x1b\x1b\n"), "a[201~b\n");
    assert_eq!(remove_escapes("плюс\r\n"), "плюс\r\n");
    assert_eq!(remove_escapes("\x1b"), "");
}

#[test]
fn every_line_ending_becomes_a_carriage_return() {
    assert_eq!(convert_line_endings("a\r\nb\nc\rd"), "a\rb\rc\rd");
    assert_eq!(convert_line_endings("\r\r\n\n\n\r"), "\r\r\r\r\r");
    assert_eq!(convert_line_endings("no ending"), "no ending");
    assert_eq!(convert_line_endings("é\n"), "é\r");
    assert_eq!(convert_line_endings(""), "");
}

#[test]
fn line_endings_agree_with_two_replacements() {
    for text in ["\r\n\r\n", "\n\r\n\r", "x\r\r\n\ny", "\r", "\n", "a\r\n", "\r\nb\n\r"] {
        assert_eq!(
            convert_line_endings(text),
            text.replace("\r\n", "\r").replace('\n', "\r")
        );
    }
}

#[test]
fn converting_line_endings_twice_changes_nothing() {
    let once = convert_line_endings("a\r\n\nb\r");
    assert_eq!(convert_line_endings(&once), once);
    assert!(!once.contains('\n'));
}

#[test]
fn line_endings_of_parts_are_those_of_the_whole_unless_split() {
    let (front, back) = ("a\n\r", "b\r\n");
    assert_eq!(
        convert_line_endings(&format!("{}{}", front, back)),
        format!("{}{}", convert_line_endings(front), convert_line_endings(back))
    );
    assert_eq!(convert_line_endings("\r\n"), "\r");
    assert_eq!(convert_line_endings("\r") + &convert_line_endings("\n"), "\r\r");
}

#[test]
fn file_name_is_what_follows_the_last_slash() {
    assert_eq!(file_name("/bin/zsh"), "zsh");
    assert_eq!(file_name("zsh"), "zsh");
    assert_eq!(file_name("/opt/sh/"), "");
    assert_eq!(file_name(""), "");
}
