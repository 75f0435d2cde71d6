//! The texts that go to the outside programs: the arguments of the catalog
//! lookup and of the player, the lines of the control protocol, and the
//! messages shown when one of them fails.

use vstd::prelude::*;
use vstd::string::*;

verus! {

/// The program that looks the catalog up.
pub const SEARCH_PROGRAM: &'static str = "yt-dlp";

/// The program that plays an item.
pub const PLAYER_PROGRAM: &'static str = "mpv";

/// The path of the control socket that the player is told to open.
pub const SOCKET_PATH: &'static str = "/tmp/mpv-socket";

/// The texts of a sequence of string slices, in the same order.
pub open spec fn texts_of(words: Seq<&str>) -> Seq<Seq<char>> {
    Seq::new(words.len(), |i: int| words[i]@)
}

/// The texts of a sequence of strings, in the same order.
pub open spec fn strings_of(words: Seq<String>) -> Seq<Seq<char>> {
    Seq::new(words.len(), |i: int| words[i]@)
}

/// The hexadecimal digit of a number below sixteen.
pub open spec fn hex_digit(n: int) -> char {
    seq!['0', '1', '2', '3', '4', '5', '6', '7', '8', '9', 'a', 'b', 'c', 'd', 'e', 'f'][n]
}

/// One character as it stands inside a JSON string: a backslash goes before
/// the double quote and the backslash, a control character below U+0020
/// becomes its escape, and every other character stays as it is.
pub open spec fn escaped_char(c: char) -> Seq<char> {
    if c == '"' {
        seq!['\\', '"']
    } else if c == '\\' {
        seq!['\\', '\\']
    } else if c == '\u{8}' {
        seq!['\\', 'b']
    } else if c == '\t' {
        seq!['\\', 't']
    } else if c == '\n' {
        seq!['\\', 'n']
    } else if c == '\u{c}' {
        seq!['\\', 'f']
    } else if c == '\r' {
        seq!['\\', 'r']
    } else if (c as u32) < 0x20 {
        seq!['\\', 'u', '0', '0', hex_digit((c as u32 / 16) as int), hex_digit((c as u32 % 16) as int)]
    } else {
        seq![c]
    }
}

/// A word as it stands inside a JSON string: its characters, each escaped.
pub open spec fn escaped(word: Seq<char>) -> Seq<char>
    decreases word.len(),
{
    if word.len() == 0 {
        Seq::empty()
    } else {
        escaped(word.drop_last()) + escaped_char(word.last())
    }
}

/// A word as a JSON string: escaped, between double quotes.
pub open spec fn quoted(word: Seq<char>) -> Seq<char> {
    "\""@ + escaped(word) + "\""@
}

/// The words, each as a JSON string, with a comma between neighbours.
pub open spec fn quoted_list(words: Seq<Seq<char>>) -> Seq<char>
    decreases words.len(),
{
    if words.len() == 0 {
        Seq::empty()
    } else if words.len() == 1 {
        quoted(words[0])
    } else {
        quoted_list(words.drop_last()) + ","@ + quoted(words.last())
    }
}

/// One line of the control protocol: a JSON object whose `command` member
/// lists the words, ended by a line feed.
pub open spec fn command_line_text(words: Seq<Seq<char>>) -> Seq<char> {
    "{\"command\": ["@ + quoted_list(words) + "]}\n"@
}

/// The arguments of the catalog lookup for a query.
pub open spec fn search_args_text(query: Seq<char>) -> Seq<Seq<char>> {
    seq!["ytsearch25:"@ + query, "--dump-json"@, "--flat-playlist"@, "--no-warnings"@]
}

/// The address at which the item with this identifier plays.
pub open spec fn watch_url_text(id: Seq<char>) -> Seq<char> {
    "https://www.youtube.com/watch?v="@ + id
}

/// The arguments of the player for the item with this identifier.
pub open spec fn player_args_text(id: Seq<char>) -> Seq<Seq<char>> {
    seq![
        "--ytdl-format=bestaudio"@,
        watch_url_text(id),
        "--no-video"@,
        "--input-ipc-server="@ + SOCKET_PATH@,
    ]
}

/// The message for a lookup that exited with a failure, around what it wrote
/// to its error stream.
pub open spec fn lookup_failure_text(stderr: Seq<char>) -> Seq<char> {
    "yt-dlp error: "@ + stderr + " \nCheck if yt-dlp is latest."@
}

/// The message shown when a lookup delivered a failure.
pub open spec fn search_failure_text(reason: Seq<char>) -> Seq<char> {
    "Videos not recived. Error: "@ + reason
}

/// The warning for a line of the lookup's output that is no record, around the
/// reason that the parser gave.
pub open spec fn parse_warning_text(reason: Seq<char>) -> Seq<char> {
    "video json parsing nothing working: "@ + reason
}

/// Whether a text holds no line feed.
pub open spec fn holds_no_line_feed(text: Seq<char>) -> bool {
    forall|i: int| 0 <= i < text.len() ==> text[i] != '\n'
}

/// An escaped word holds no line feed.
pub proof fn lemma_escaped_holds_no_line_feed(word: Seq<char>)
    ensures
        holds_no_line_feed(escaped(word)),
    decreases word.len(),
{
    if word.len() > 0 {
        lemma_escaped_holds_no_line_feed(word.drop_last());
        let c = word.last();
        if (c as u32) < 0x20 {
            assert(hex_digit((c as u32 / 16) as int) != '\n');
            assert(hex_digit((c as u32 % 16) as int) != '\n');
        }
    }
}

/// A list of quoted words holds no line feed.
pub proof fn lemma_quoted_list_holds_no_line_feed(words: Seq<Seq<char>>)
    ensures
        holds_no_line_feed(quoted_list(words)),
    decreases words.len(),
{
    reveal_strlit("\"");
    reveal_strlit(",");
    if words.len() > 0 {
        lemma_escaped_holds_no_line_feed(words.last());
        if words.len() > 1 {
            lemma_quoted_list_holds_no_line_feed(words.drop_last());
        } else {
            assert(words[0] == words.last());
        }
    }
}

/// A line of the control protocol is one line, whatever its words hold: its
/// last character is the line feed, and no character before it is one.
pub proof fn lemma_command_line_is_one_line(words: Seq<Seq<char>>)
    ensures
        command_line_text(words).len() > 0,
        command_line_text(words).last() == '\n',
        forall|i: int|
            0 <= i < command_line_text(words).len() - 1 ==> command_line_text(words)[i] != '\n',
{
    reveal_strlit("{\"command\": [");
    reveal_strlit("]}\n");
    lemma_quoted_list_holds_no_line_feed(words);
}

/// The hexadecimal digit of a number below sixteen.
fn hex_digit_of(n: u32) -> (digit: char)
    requires
        n < 16,
    ensures
        digit == hex_digit(n as int),
{
    if n == 0 {
        '0'
    } else if n == 1 {
        '1'
    } else if n == 2 {
        '2'
    } else if n == 3 {
        '3'
    } else if n == 4 {
        '4'
    } else if n == 5 {
        '5'
    } else if n == 6 {
        '6'
    } else if n == 7 {
        '7'
    } else if n == 8 {
        '8'
    } else if n == 9 {
        '9'
    } else if n == 10 {
        'a'
    } else if n == 11 {
        'b'
    } else if n == 12 {
        'c'
    } else if n == 13 {
        'd'
    } else if n == 14 {
        'e'
    } else {
        'f'
    }
}

/// Appends one character as it stands inside a JSON string.
fn push_escaped_char(text: &mut String, c: char)
    ensures
        final(text)@ == old(text)@ + escaped_char(c),
{
    let code: u32 = c as u32;
    if c == '"' {
        text.push('\\');
        text.push('"');
    } else if c == '\\' {
        text.push('\\');
        text.push('\\');
    } else if c == '\u{8}' {
        text.push('\\');
        text.push('b');
    } else if c == '\t' {
        text.push('\\');
        text.push('t');
    } else if c == '\n' {
        text.push('\\');
        text.push('n');
    } else if c == '\u{c}' {
        text.push('\\');
        text.push('f');
    } else if c == '\r' {
        text.push('\\');
        text.push('r');
    } else if code < 0x20 {
        text.push('\\');
        text.push('u');
        text.push('0');
        text.push('0');
        text.push(hex_digit_of(code / 16));
        text.push(hex_digit_of(code % 16));
    } else {
        text.push(c);
    }
    assert(text@ =~= old(text)@ + escaped_char(c));
}

/// Appends a word as it stands inside a JSON string.
fn push_escaped(text: &mut String, word: &str)
    ensures
        final(text)@ == old(text)@ + escaped(word@),
{
    assert(word@.take(0) =~= Seq::<char>::empty());
    for c in it: word.chars()
        invariant
            it.seq() == word@,
            text@ == old(text)@ + escaped(word@.take(it.index() as int)),
    {
        push_escaped_char(text, c);
        proof {
            let seen = word@.take(it.index() + 1);
            assert(seen.drop_last() =~= word@.take(it.index() as int));
            assert(seen.last() == c);
            assert(text@ =~= old(text)@ + escaped(seen));
        }
    }
    assert(word@.take(word@.len() as int) =~= word@);
}

/// Serialises the words of a command as one line of the control protocol.
/// Each word is written as a JSON string, so that the line is one JSON
/// object and holds one line feed, its last character, whatever the words
/// hold.
pub fn command_line(words: &Vec<&str>) -> (line: String)
    ensures
        line@ == command_line_text(texts_of(words@)),
{
    let ghost texts = texts_of(words@);
    let mut line = String::from_str("{\"command\": [");
    let ghost head = line@;
    let mut i: usize = 0;
    while i < words.len()
        invariant
            i <= words.len(),
            texts == texts_of(words@),
            head == "{\"command\": ["@,
            line@ == head + quoted_list(texts.take(i as int)),
        decreases words.len() - i,
    {
        if i > 0 {
            line.append(",");
        }
        line.append("\"");
        push_escaped(&mut line, words[i]);
        line.append("\"");
        proof {
            let now = texts.take(i + 1);
            assert(now.drop_last() =~= texts.take(i as int));
            assert(now.last() == words@[i as int]@);
            if i == 0 {
                assert(texts.take(0).len() == 0);
                assert(now.len() == 1);
                assert(line@ =~= head + quoted_list(now));
            } else {
                assert(now.len() > 1);
                assert(line@ =~= head + quoted_list(now));
            }
        }
        i += 1;
    }
    proof {
        assert(texts.take(i as int) =~= texts);
    }
    line.append("]}\n");
    assert(line@ =~= command_line_text(texts));
    line
}

/// The arguments with which the catalog lookup is started for a query.
pub fn search_args(query: &str) -> (args: Vec<String>)
    ensures
        strings_of(args@) == search_args_text(query@),
{
    let mut args: Vec<String> = Vec::new();
    args.push(String::from_str("ytsearch25:").concat(query));
    args.push(String::from_str("--dump-json"));
    args.push(String::from_str("--flat-playlist"));
    args.push(String::from_str("--no-warnings"));
    assert(strings_of(args@) =~= search_args_text(query@));
    args
}

/// The arguments with which the player is started for an item.
pub fn player_args(id: &str) -> (args: Vec<String>)
    ensures
        strings_of(args@) == player_args_text(id@),
{
    let mut args: Vec<String> = Vec::new();
    args.push(String::from_str("--ytdl-format=bestaudio"));
    args.push(String::from_str("https://www.youtube.com/watch?v=").concat(id));
    args.push(String::from_str("--no-video"));
    args.push(String::from_str("--input-ipc-server=").concat(SOCKET_PATH));
    assert(strings_of(args@) =~= player_args_text(id@));
    args
}

/// The message for a lookup that exited with a failure.
pub fn lookup_failure(stderr: &str) -> (message: String)
    ensures
        message@ == lookup_failure_text(stderr@),
{
    String::from_str("yt-dlp error: ").concat(stderr).concat(" \nCheck if yt-dlp is latest.")
}

/// The message shown when a lookup delivered a failure.
pub fn search_failure(reason: &str) -> (message: String)
    ensures
        message@ == search_failure_text(reason@),
{
    String::from_str("Videos not recived. Error: ").concat(reason)
}

/// The warning for a line of the lookup's output that is no record.
pub fn parse_warning(reason: &str) -> (message: String)
    ensures
        message@ == parse_warning_text(reason@),
{
    String::from_str("video json parsing nothing working: ").concat(reason)
}

} // verus!
