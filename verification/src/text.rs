//! Text in the forms the terminal needs it: decoded paths, joined command lines, pasted input.

use vstd::prelude::*;
use vstd::string::*;
use vstd::utf8::{decode_utf8, valid_utf8};

verus! {

/// The escape character, which starts every control sequence.
pub const ESCAPE: char = '\x1b';

/// `String::push` appends the character to the end of the string.
pub assume_specification[ String::push ](text: &mut String, c: char)
    ensures
        final(text)@ == old(text)@.push(c),
;

/// The text that `String::from_utf8_lossy` makes of `bytes`.
pub uninterp spec fn lossy_utf8(bytes: Seq<u8>) -> Seq<char>;

/// Calls `String::from_utf8_lossy`: bytes that are UTF-8 are decoded as they are; in any others the
/// invalid parts give way to replacement characters. Which characters replace which bytes is not
/// said beyond the name `lossy_utf8`.
#[verifier::external_body]
pub(crate) fn decode_lossy(bytes: &[u8]) -> (text: String)
    ensures
        text@ == lossy_utf8(bytes@),
        valid_utf8(bytes@) ==> text@ == decode_utf8(bytes@),
{
    String::from_utf8_lossy(bytes).into_owned()
}

/// Calls `std::str::from_utf8`: the decoded text if, and only if, the bytes are UTF-8.
#[verifier::external_body]
pub(crate) fn decode_strict(bytes: &[u8]) -> (text: Option<&str>)
    ensures
        text is Some <==> valid_utf8(bytes@),
        text is Some ==> text->0@ == decode_utf8(bytes@),
{
    std::str::from_utf8(bytes).ok()
}

/// One text followed by another.
pub fn concatenate(first: &str, second: &str) -> (text: String)
    ensures
        text@ == first@ + second@,
{
    let mut text = first.to_owned();
    text.append(second);
    text
}

/// The views of a list of strings.
pub open spec fn views(list: Seq<String>) -> Seq<Seq<char>> {
    list.map_values(|s: String| s@)
}

/// The elements of `list` in order, with `separator` between each two.
pub open spec fn joined(list: Seq<Seq<char>>, separator: Seq<char>) -> Seq<char>
    decreases list.len(),
{
    if list.len() == 0 {
        Seq::empty()
    } else if list.len() == 1 {
        list[0]
    } else {
        joined(list.drop_last(), separator) + separator + list.last()
    }
}

/// Joins `list` with `separator`.
pub fn join(list: &Vec<String>, separator: &str) -> (text: String)
    ensures
        text@ == joined(views(list@), separator@),
{
    let mut text = String::new();
    let mut i: usize = 0;
    assert(views(list@).take(0) =~= Seq::empty());
    while i < list.len()
        invariant
            i <= list.len(),
            text@ == joined(views(list@).take(i as int), separator@),
        decreases list.len() - i,
    {
        if i > 0 {
            text.append(separator);
        }
        text.append(list[i].as_str());
        proof {
            let before = views(list@).take(i as int);
            let after = views(list@).take(i + 1);
            assert(after.drop_last() =~= before);
            assert(after.last() == list@[i as int]@);
            if i == 0 {
                assert(text@ =~= after[0]);
            }
        }
        i = i + 1;
    }
    assert(views(list@).take(list@.len() as int) =~= views(list@));
    text
}

/// A program and its arguments as one command line.
pub open spec fn command_line_text(program: Seq<char>, args: Seq<Seq<char>>) -> Seq<char> {
    program + " "@ + joined(args, " "@)
}

/// Writes a program and its arguments as one command line.
pub fn command_line(program: &str, args: &Vec<String>) -> (text: String)
    ensures
        text@ == command_line_text(program@, views(args@)),
{
    let mut text = concatenate(program, " ");
    let rest = join(args, " ");
    text.append(rest.as_str());
    text
}

/// `text` without its escape characters.
pub open spec fn without_escapes(text: Seq<char>) -> Seq<char> {
    text.filter(|c: char| c != ESCAPE)
}

/// Removes every escape character from `text`.
pub fn remove_escapes(text: &str) -> (result: String)
    ensures
        result@ == without_escapes(text@),
{
    let mut result = String::new();
    proof {
        reveal(Seq::filter);
        assert(text@.take(0) =~= Seq::empty());
    }
    for c in it: text.chars()
        invariant
            it.seq() == text@,
            result@ == without_escapes(text@.take(it.index())),
    {
        proof {
            reveal(Seq::filter);
            assert(text@.take(it.index() + 1).drop_last() =~= text@.take(it.index()));
        }
        if c != ESCAPE {
            result.push(c);
        }
    }
    assert(text@.take(text@.len() as int) =~= text@);
    result
}

/// `text` with each carriage return that a line feed follows, and that line feed, made one carriage
/// return.
pub open spec fn crlf_to_cr(text: Seq<char>) -> Seq<char>
    decreases text.len(),
{
    if text.len() == 0 {
        Seq::empty()
    } else if text.len() >= 2 && text[0] == '\r' && text[1] == '\n' {
        seq!['\r'] + crlf_to_cr(text.skip(2))
    } else {
        seq![text[0]] + crlf_to_cr(text.skip(1))
    }
}

/// `text` with a carriage return in place of each line feed.
pub open spec fn lf_to_cr(text: Seq<char>) -> Seq<char> {
    text.map_values(
        |c: char|
            if c == '\n' {
                '\r'
            } else {
                c
            },
    )
}

/// `text` with every line ending, of whatever form, made one carriage return.
pub open spec fn with_carriage_returns(text: Seq<char>) -> Seq<char> {
    lf_to_cr(crlf_to_cr(text))
}

/// The characters of `text`.
fn characters(text: &str) -> (list: Vec<char>)
    ensures
        list@ == text@,
{
    let mut list: Vec<char> = Vec::new();
    for c in it: text.chars()
        invariant
            it.seq() == text@,
            list@ == text@.take(it.index()),
    {
        assert(text@.take(it.index() + 1) =~= text@.take(it.index()).push(c));
        list.push(c);
    }
    assert(text@.take(text@.len() as int) =~= text@);
    list
}

/// Makes every line ending in `text` one carriage return, which is what the return key sends.
pub fn convert_line_endings(text: &str) -> (result: String)
    ensures
        result@ == with_carriage_returns(text@),
{
    let list = characters(text);
    let mut result = String::new();
    let mut i: usize = 0;
    assert(text@.skip(0) =~= text@);
    while i < list.len()
        invariant
            list@ == text@,
            i <= list.len(),
            with_carriage_returns(text@) == result@ + with_carriage_returns(text@.skip(i as int)),
        decreases list.len() - i,
    {
        let ghost rest = text@.skip(i as int);
        let ghost written = result@;
        if list[i] == '\r' && i + 1 < list.len() && list[i + 1] == '\n' {
            result.push('\r');
            proof {
                assert(rest.skip(2) =~= text@.skip(i + 2));
                assert(with_carriage_returns(rest) =~= seq!['\r'] + with_carriage_returns(
                    rest.skip(2),
                ));
                assert(written + (seq!['\r'] + with_carriage_returns(rest.skip(2))) =~= result@
                    + with_carriage_returns(rest.skip(2)));
            }
            i = i + 2;
        } else {
            let c = if list[i] == '\n' {
                '\r'
            } else {
                list[i]
            };
            result.push(c);
            proof {
                assert(rest.skip(1) =~= text@.skip(i + 1));
                assert(with_carriage_returns(rest) =~= seq![c] + with_carriage_returns(
                    rest.skip(1),
                ));
                assert(written + (seq![c] + with_carriage_returns(rest.skip(1))) =~= result@
                    + with_carriage_returns(rest.skip(1)));
            }
            i = i + 1;
        }
    }
    assert(text@.skip(text@.len() as int) =~= Seq::empty());
    assert(result@ + with_carriage_returns(Seq::empty()) =~= result@);
    result
}

/// What follows the last slash of `path`: all of it where it has none.
pub open spec fn last_component(path: Seq<char>) -> Seq<char>
    decreases path.len(),
{
    if path.len() == 0 || path.last() == '/' {
        Seq::empty()
    } else {
        last_component(path.drop_last()).push(path.last())
    }
}

/// The part of `path` after its last slash.
pub fn file_name(path: &str) -> (name: String)
    ensures
        name@ == last_component(path@),
{
    let mut name = String::new();
    assert(path@.take(0) =~= Seq::empty());
    for c in it: path.chars()
        invariant
            it.seq() == path@,
            name@ == last_component(path@.take(it.index())),
    {
        assert(path@.take(it.index() + 1).drop_last() =~= path@.take(it.index()));
        if c == '/' {
            name = String::new();
        } else {
            name.push(c);
        }
    }
    assert(path@.take(path@.len() as int) =~= path@);
    name
}

/// The part of a path after its last slash is an end of the path, holds no slash, and is preceded by
/// a slash unless it is the whole path.
pub proof fn law_last_component(path: Seq<char>)
    ensures
        !last_component(path).contains('/'),
        last_component(path).len() <= path.len(),
        last_component(path) == path.skip(path.len() - last_component(path).len()),
        last_component(path).len() < path.len() ==> path[path.len() - last_component(path).len() - 1]
            == '/',
    decreases path.len(),
{
    if path.len() > 0 && path.last() != '/' {
        let front = path.drop_last();
        law_last_component(front);
        let name = last_component(path);
        assert(name =~= path.skip(path.len() - name.len()));
        assert forall|i: int| 0 <= i < name.len() implies #[trigger] name[i] != '/' by {
            if i < last_component(front).len() {
                assert(last_component(front).contains(last_component(front)[i]));
            }
        }
    } else {
        assert(last_component(path) =~= path.skip(path.len() as int));
    }
}

/// Text cleared of escape characters holds none, keeps every other character, and stays as it is
/// when it held none: it can neither start nor end a control sequence.
pub proof fn law_without_escapes(text: Seq<char>)
    ensures
        !without_escapes(text).contains('\x1b'),
        forall|c: char| c != '\x1b' && text.contains(c) ==> without_escapes(text).contains(c),
        !text.contains('\x1b') ==> without_escapes(text) == text,
    decreases text.len(),
{
    reveal(Seq::filter);
    if text.len() > 0 {
        let front = text.drop_last();
        law_without_escapes(front);
        let kept = without_escapes(front);
        assert(text =~= front.push(text.last()));
        assert(!text.contains(ESCAPE) ==> !front.contains(ESCAPE)) by {
            if front.contains(ESCAPE) {
                let i = front.index_of(ESCAPE);
                assert(text[i] == ESCAPE);
            }
        }
        assert(text.contains(text.last()));
        assert forall|c: char| c != ESCAPE && text.contains(c) implies without_escapes(
            text,
        ).contains(c) by {
            let i = text.index_of(c);
            if i < front.len() {
                assert(front[i] == c);
                assert(front.contains(c));
                let j = kept.index_of(c);
                assert(without_escapes(text)[j] == c);
            } else {
                assert(without_escapes(text).last() == c);
            }
        }
        if without_escapes(text).contains(ESCAPE) {
            let i = without_escapes(text).index_of(ESCAPE);
            if i < kept.len() {
                assert(kept[i] == ESCAPE);
                assert(kept.contains(ESCAPE));
            }
        }
        if !text.contains(ESCAPE) {
            assert(without_escapes(text) =~= text);
        }
    } else {
        assert(without_escapes(text) =~= text);
    }
}

/// Line endings are converted in two parts of a text as they are in the whole, unless the parts meet
/// inside a carriage return and line feed.
pub proof fn law_line_endings_concatenate(front: Seq<char>, back: Seq<char>)
    requires
        !(front.len() > 0 && front.last() == '\r' && back.len() > 0 && back[0] == '\n'),
    ensures
        with_carriage_returns(front + back) == with_carriage_returns(front) + with_carriage_returns(
            back,
        ),
    decreases front.len(),
{
    if front.len() == 0 {
        assert(front + back =~= back);
        assert(with_carriage_returns(front) =~= Seq::empty());
        assert(with_carriage_returns(front) + with_carriage_returns(back) =~= with_carriage_returns(
            back,
        ));
    } else {
        let n: int = if front.len() >= 2 && front[0] == '\r' && front[1] == '\n' {
            2
        } else {
            1
        };
        let rest = front.skip(n);
        law_line_endings_concatenate(rest, back);
        assert((front + back).skip(n) =~= rest + back);
        let first = lf_to_cr(
            seq![
                if n == 2 {
                    '\r'
                } else {
                    front[0]
                },
            ],
        );
        assert(with_carriage_returns(front + back) =~= first + with_carriage_returns(rest + back));
        assert(with_carriage_returns(front) =~= first + with_carriage_returns(rest));
        assert(first + (with_carriage_returns(rest) + with_carriage_returns(back)) =~= (first
            + with_carriage_returns(rest)) + with_carriage_returns(back));
    }
}

/// Between any two lines a carriage return, a line feed, and the two together all come out as one
/// carriage return; a text without line endings comes out as it is.
pub proof fn law_line_endings(first: Seq<char>, second: Seq<char>)
    requires
        !first.contains('\r') && !first.contains('\n'),
        !second.contains('\r') && !second.contains('\n'),
    ensures
        with_carriage_returns(first) == first,
        with_carriage_returns(first + seq!['\r'] + second) == first + seq!['\r'] + second,
        with_carriage_returns(first + seq!['\n'] + second) == first + seq!['\r'] + second,
        with_carriage_returns(first + seq!['\r', '\n'] + second) == first + seq!['\r'] + second,
{
    lemma_without_line_endings(first);
    lemma_without_line_endings(second);
    assert(first.len() > 0 ==> first.contains(first.last()));
    assert(second.len() > 0 ==> second.contains(second[0]));
    reveal_with_fuel(crlf_to_cr, 3);
    assert(with_carriage_returns(seq!['\r']) =~= seq!['\r']);
    assert(with_carriage_returns(seq!['\n']) =~= seq!['\r']);
    assert(seq!['\r', '\n'].skip(2) =~= Seq::empty());
    assert(with_carriage_returns(seq!['\r', '\n']) =~= seq!['\r']);
    law_line_endings_concatenate(first, seq!['\r']);
    law_line_endings_concatenate(first + seq!['\r'], second);
    law_line_endings_concatenate(first, seq!['\n']);
    law_line_endings_concatenate(first + seq!['\n'], second);
    law_line_endings_concatenate(first, seq!['\r', '\n']);
    law_line_endings_concatenate(first + seq!['\r', '\n'], second);
}

proof fn lemma_without_line_endings(text: Seq<char>)
    requires
        !text.contains('\n'),
    ensures
        with_carriage_returns(text) == text,
    decreases text.len(),
{
    if text.len() > 0 {
        assert(text.contains(text[0]));
        if text.len() > 1 {
            assert(text.contains(text[1]));
        }
        let rest = text.skip(1);
        assert forall|i: int| 0 <= i < rest.len() implies #[trigger] rest[i] != '\n' by {
            assert(text.contains(text[i + 1]));
        }
        lemma_without_line_endings(rest);
        assert(with_carriage_returns(text) =~= seq![text[0]] + with_carriage_returns(rest));
    }
    assert(with_carriage_returns(text) =~= text);
}

/// A text whose line endings were converted holds no line feed, and converting it again changes
/// nothing.
pub proof fn law_line_endings_converted(text: Seq<char>)
    ensures
        !with_carriage_returns(text).contains('\n'),
        with_carriage_returns(with_carriage_returns(text)) == with_carriage_returns(text),
{
    lemma_without_line_endings(with_carriage_returns(text));
}

/// The views of a list are those of its elements, each in its place.
pub proof fn law_views(list: Seq<String>)
    ensures
        views(list).len() == list.len(),
        forall|i: int| 0 <= i < list.len() ==> #[trigger] views(list)[i] == list[i]@,
{
}

/// No elements join to nothing, one joins to itself, and two lists join to what each joins to with
/// the separator in between.
pub proof fn law_joined(
    element: Seq<char>,
    first: Seq<Seq<char>>,
    second: Seq<Seq<char>>,
    separator: Seq<char>,
)
    ensures
        joined(Seq::empty(), separator) == Seq::<char>::empty(),
        joined(seq![element], separator) == element,
        first.len() > 0 && second.len() > 0 ==> joined(first + second, separator) == joined(
            first,
            separator,
        ) + separator + joined(second, separator),
    decreases second.len(),
{
    if first.len() > 0 && second.len() > 0 {
        let all = first + second;
        let front = second.drop_last();
        assert(all.drop_last() =~= first + front);
        if front.len() == 0 {
            assert(first + front =~= first);
            assert(second.last() == second[0]);
        } else {
            law_joined(element, first, front, separator);
            let before = joined(first, separator);
            assert(joined(all, separator) =~= before + separator + joined(second, separator));
        }
    }
}

/// A command line is the program, a space, and the arguments with a space between each two; with
/// each argument more it grows by a space and that argument.
pub proof fn law_command_line(program: Seq<char>, args: Seq<Seq<char>>, last: Seq<char>)
    ensures
        command_line_text(program, args) == program + seq![' '] + joined(args, seq![' ']),
        command_line_text(program, seq![last]) == program + seq![' '] + last,
        args.len() > 0 ==> command_line_text(program, args.push(last)) == command_line_text(
            program,
            args,
        ) + seq![' '] + last,
{
    reveal_strlit(" ");
    assert(" "@ =~= seq![' ']);
    law_joined(last, args, seq![last], " "@);
    assert(args + seq![last] =~= args.push(last));
    if args.len() > 0 {
        assert(command_line_text(program, args.push(last)) =~= command_line_text(program, args)
            + seq![' '] + last);
    }
}

/// Escape characters are removed one by one: an escape character goes, any other character stays, and
/// a text loses what its parts lose, in place.
pub proof fn law_escapes_are_removed_in_place(c: char, front: Seq<char>, back: Seq<char>)
    ensures
        without_escapes(seq![c]) == (if c == '\x1b' {
            Seq::empty()
        } else {
            seq![c]
        }),
        without_escapes(front + back) == without_escapes(front) + without_escapes(back),
{
    reveal_with_fuel(Seq::filter, 3);
    assert(seq![c].drop_last() =~= Seq::empty());
    assert(without_escapes(seq![c]) =~= (if c == '\x1b' {
        Seq::empty()
    } else {
        seq![c]
    }));
    Seq::filter_distributes_over_add(front, back, |c: char| c != ESCAPE);
}

} // verus!
