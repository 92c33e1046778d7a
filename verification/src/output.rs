//! What is written to standard output: the status line of the daemon and the
//! answer to `list`. Each is one line of JSON, an object and an array of
//! objects: each text in it is a JSON string, with quotes, backslashes and
//! control characters escaped.

use vstd::prelude::*;
use crate::metadata::{display_text, PlayerMetadata, PlayerRecord};
use crate::text::{free_of, substring, to_chars};

verus! {

/// The digits of base sixteen.
pub open spec fn hex_digits() -> Seq<char> {
    seq!['0', '1', '2', '3', '4', '5', '6', '7', '8', '9', 'a', 'b', 'c', 'd', 'e', 'f']
}

/// Whether a character stands for itself in a JSON string: all do but the
/// quote, the backslash and the control characters below the space.
pub open spec fn is_plain(c: char) -> bool {
    c != '"' && c != '\\' && c >= ' '
}

/// A character as it is written in a JSON string: the quote and the
/// backslash behind a backslash, a control character as `\u00` and its two
/// digits of base sixteen, any other character as it is.
pub open spec fn json_char(c: char) -> Seq<char> {
    if c == '"' {
        seq!['\\', '"']
    } else if c == '\\' {
        seq!['\\', '\\']
    } else if ' ' > c {
        seq![
            '\\',
            'u',
            '0',
            '0',
            hex_digits()[(c as u32 / 16) as int],
            hex_digits()[(c as u32 % 16) as int],
        ]
    } else {
        seq![c]
    }
}

/// A text as it is written in a JSON string, without the quotes around it.
pub open spec fn json_text(text: Seq<char>) -> Seq<char>
    decreases text.len(),
{
    if text.len() == 0 {
        Seq::empty()
    } else {
        json_text(text.drop_last()) + json_char(text.last())
    }
}

/// A text as a JSON string.
pub open spec fn json_string(text: Seq<char>) -> Seq<char> {
    seq!['"'] + json_text(text) + seq!['"']
}

/// The line that shows `display` for the player `player`: empty where there
/// is nothing to display, else an object with the members `text`, `class`,
/// `alt` and `tooltip`.
pub open spec fn status_line(display: Seq<char>, player: Seq<char>) -> Seq<char> {
    if display.len() == 0 {
        Seq::empty()
    } else {
        "{\"text\": "@ + json_string(display) + ", \"class\": "@ + json_string(
            "custom-"@ + player,
        ) + ", \"alt\": "@ + json_string(player) + ", \"tooltip\": "@ + json_string(
            "("@ + player + ") "@ + display,
        ) + "}"@
    }
}

/// One player's object in the answer to `list`, with the members `text`,
/// `class`, `alt`, `artist`, `title`, `album` and `artUrl`.
pub open spec fn list_entry(record: PlayerRecord) -> Seq<char> {
    "{\"text\": "@ + json_string(display_text(record)) + ", \"class\": "@ + json_string(
        "custom-"@ + record.name,
    ) + ", \"alt\": "@ + json_string(record.name) + ", \"artist\": "@ + json_string(record.artist)
        + ", \"title\": "@ + json_string(record.title) + ", \"album\": "@ + json_string(
        record.album,
    ) + ", \"artUrl\": "@ + json_string(record.art_url) + "}"@
}

/// The players' objects in order, with a comma between neighbours.
pub open spec fn list_entries(records: Seq<PlayerRecord>) -> Seq<char>
    decreases records.len(),
{
    if records.len() == 0 {
        Seq::empty()
    } else if records.len() == 1 {
        list_entry(records[0])
    } else {
        list_entries(records.drop_last()) + ","@ + list_entry(records.last())
    }
}

/// The answer to `list`: a JSON array with one object per player, in the
/// order of the listing.
pub open spec fn list_text(records: Seq<PlayerRecord>) -> Seq<char> {
    "["@ + list_entries(records) + "]"@
}

/// Whether `written` can stand between the quotes of a JSON string: it is
/// made of plain characters, of `\"` and `\\`, and of `\u` with four digits
/// of base sixteen.
pub open spec fn is_json_text(written: Seq<char>) -> bool
    decreases written.len(),
{
    if written.len() == 0 {
        true
    } else if is_plain(written[0]) {
        is_json_text(written.skip(1))
    } else if written[0] != '\\' || written.len() < 2 {
        false
    } else if written[1] == '"' || written[1] == '\\' {
        is_json_text(written.skip(2))
    } else {
        &&& written[1] == 'u'
        &&& written.len() >= 6
        &&& hex_digits().contains(written[2])
        &&& hex_digits().contains(written[3])
        &&& hex_digits().contains(written[4])
        &&& hex_digits().contains(written[5])
        &&& is_json_text(written.skip(6))
    }
}

/// Whether a text holds no control character.
pub open spec fn is_printable(text: Seq<char>) -> bool {
    forall|i: int| 0 <= i < text.len() ==> text[i] >= ' '
}

/// A JSON string is written text by text.
pub proof fn lemma_json_text_concat(a: Seq<char>, b: Seq<char>)
    ensures
        json_text(a + b) == json_text(a) + json_text(b),
    decreases b.len(),
{
    if b.len() == 0 {
        assert(a + b =~= a);
    } else {
        assert((a + b).drop_last() =~= a + b.drop_last());
        lemma_json_text_concat(a, b.drop_last());
    }
}

/// A text of plain characters is written as it is.
pub proof fn lemma_json_text_of_plain(text: Seq<char>)
    requires
        forall|i: int| 0 <= i < text.len() ==> is_plain(text[i]),
    ensures
        json_text(text) == text,
    decreases text.len(),
{
    if text.len() > 0 {
        lemma_json_text_of_plain(text.drop_last());
        assert(text.drop_last() + seq![text.last()] =~= text);
    }
}

/// A character, as it is written, is one step of a JSON string.
proof fn lemma_json_char_is_json_text(c: char, rest: Seq<char>)
    ensures
        is_json_text(json_char(c) + rest) == is_json_text(rest),
{
    let written = json_char(c) + rest;
    if c == '"' || c == '\\' {
        assert(written.skip(2) =~= rest);
    } else if ' ' > c {
        let code = c as u32;
        assert(hex_digits()[(code / 16) as int] == written[4]);
        assert(hex_digits()[(code % 16) as int] == written[5]);
        assert(written.skip(6) =~= rest);
    } else {
        assert(written.skip(1) =~= rest);
    }
}

/// Whatever the text, what is written of it can stand between the quotes of
/// a JSON string.
pub proof fn lemma_json_text_is_json_text(text: Seq<char>)
    ensures
        is_json_text(json_text(text)),
    decreases text.len(),
{
    if text.len() > 0 {
        let first = seq![text[0]];
        let rest = text.skip(1);
        assert(first + rest =~= text);
        lemma_json_text_concat(first, rest);
        assert(json_text(first.drop_last()) =~= Seq::<char>::empty());
        assert(json_text(first) =~= json_char(text[0]));
        lemma_json_text_is_json_text(rest);
        lemma_json_char_is_json_text(text[0], json_text(rest));
    }
}

/// However a character is written, no control character is.
proof fn lemma_json_char_is_printable(c: char)
    ensures
        is_printable(json_char(c)),
{
    if ' ' > c {
        let high = hex_digits()[(c as u32 / 16) as int];
        let low = hex_digits()[(c as u32 % 16) as int];
        assert(high >= ' ' && low >= ' ');
    }
}

/// Whatever the text, what is written of it holds no control character, so
/// no line feed.
pub proof fn lemma_json_text_is_printable(text: Seq<char>)
    ensures
        is_printable(json_text(text)),
        free_of(json_text(text), '\n'),
    decreases text.len(),
{
    if text.len() > 0 {
        lemma_json_text_is_printable(text.drop_last());
        let before = json_text(text.drop_last());
        let last = json_char(text.last());
        lemma_json_char_is_printable(text.last());
        assert forall|i: int| 0 <= i < json_text(text).len() implies json_text(text)[i]
            >= ' ' by {
            if i >= before.len() {
                assert(json_text(text)[i] == last[i - before.len()]);
            }
        }
    }
}

/// A status line is one line, whatever the label and the player's name.
pub proof fn lemma_status_line_is_one_line(display: Seq<char>, player: Seq<char>)
    ensures
        free_of(status_line(display, player), '\n'),
{
    reveal_strlit("{\"text\": ");
    reveal_strlit(", \"class\": ");
    reveal_strlit(", \"alt\": ");
    reveal_strlit(", \"tooltip\": ");
    reveal_strlit("}");
    lemma_json_text_is_printable(display);
    lemma_json_text_is_printable("custom-"@ + player);
    lemma_json_text_is_printable(player);
    lemma_json_text_is_printable("("@ + player + ") "@ + display);
}

/// The object of a record is one line.
proof fn lemma_list_entry_is_one_line(record: PlayerRecord)
    ensures
        free_of(list_entry(record), '\n'),
{
    reveal_strlit("{\"text\": ");
    reveal_strlit(", \"class\": ");
    reveal_strlit(", \"alt\": ");
    reveal_strlit(", \"artist\": ");
    reveal_strlit(", \"title\": ");
    reveal_strlit(", \"album\": ");
    reveal_strlit(", \"artUrl\": ");
    reveal_strlit("}");
    lemma_json_text_is_printable(display_text(record));
    lemma_json_text_is_printable("custom-"@ + record.name);
    lemma_json_text_is_printable(record.name);
    lemma_json_text_is_printable(record.artist);
    lemma_json_text_is_printable(record.title);
    lemma_json_text_is_printable(record.album);
    lemma_json_text_is_printable(record.art_url);
}

/// The answer to `list` is one line, whatever the records hold.
pub proof fn lemma_list_text_is_one_line(records: Seq<PlayerRecord>)
    ensures
        free_of(list_entries(records), '\n'),
        free_of(list_text(records), '\n'),
    decreases records.len(),
{
    reveal_strlit("[");
    reveal_strlit("]");
    reveal_strlit(",");
    if records.len() == 1 {
        lemma_list_entry_is_one_line(records[0]);
    } else if records.len() > 1 {
        lemma_list_text_is_one_line(records.drop_last());
        lemma_list_entry_is_one_line(records.last());
    }
}

/// One digit of base sixteen, as a text.
fn hex_text(n: u32) -> (digit: &'static str)
    requires
        n < 16,
    ensures
        digit@ == seq![hex_digits()[n as int]],
{
    proof {
        reveal_strlit("0");
        reveal_strlit("1");
        reveal_strlit("2");
        reveal_strlit("3");
        reveal_strlit("4");
        reveal_strlit("5");
        reveal_strlit("6");
        reveal_strlit("7");
        reveal_strlit("8");
        reveal_strlit("9");
        reveal_strlit("a");
        reveal_strlit("b");
        reveal_strlit("c");
        reveal_strlit("d");
        reveal_strlit("e");
        reveal_strlit("f");
    }
    let digit = match n {
        0 => "0",
        1 => "1",
        2 => "2",
        3 => "3",
        4 => "4",
        5 => "5",
        6 => "6",
        7 => "7",
        8 => "8",
        9 => "9",
        10 => "a",
        11 => "b",
        12 => "c",
        13 => "d",
        14 => "e",
        _ => "f",
    };
    assert(digit@ =~= seq![hex_digits()[n as int]]);
    digit
}

/// The number of a control character.
fn control_code(c: char) -> (code: u32)
    requires
        ' ' > c,
    ensures
        code == c as u32,
        code < 32,
{
    c as u32
}

/// Writes a text as a JSON string, quotes included.
pub fn quote_json(text: &str) -> (quoted: String)
    ensures
        quoted@ == json_string(text@),
{
    proof {
        reveal_strlit("\"");
    }
    let chars = to_chars(text);
    let n = chars.len();
    let mut quoted = String::from_str("\"");
    let mut start: usize = 0;
    let mut i: usize = 0;
    assert(quoted@ + text@.subrange(0, 0) =~= seq!['"'] + json_text(text@.take(0)));
    while i < n
        invariant
            start <= i <= n,
            n == text@.len(),
            chars@ == text@,
            quoted@ + text@.subrange(start as int, i as int) == seq!['"'] + json_text(
                text@.take(i as int),
            ),
        decreases n - i,
    {
        let c = chars[i];
        let ghost done = json_text(text@.take(i as int));
        proof {
            reveal_strlit("\\\"");
            reveal_strlit("\\\\");
            reveal_strlit("\\u00");
        }
        assert(text@.take(i + 1).drop_last() =~= text@.take(i as int));
        assert(json_text(text@.take(i + 1)) == done + json_char(c));
        if c == '"' || c == '\\' || ' ' > c {
            let plain = substring(text, start, i);
            quoted.append(plain.as_str());
            if c == '"' {
                quoted.append("\\\"");
                assert("\\\""@ =~= json_char(c));
            } else if c == '\\' {
                quoted.append("\\\\");
                assert("\\\\"@ =~= json_char(c));
            } else {
                let code = control_code(c);
                quoted.append("\\u00");
                quoted.append(hex_text(code / 16));
                quoted.append(hex_text(code % 16));
                assert("\\u00"@ + seq![hex_digits()[(code / 16) as int]] + seq![
                    hex_digits()[(code % 16) as int],
                ] =~= json_char(c));
            }
            start = i + 1;
            assert(quoted@ + text@.subrange(start as int, i + 1) =~= seq!['"'] + (done
                + json_char(c)));
        } else {
            assert(quoted@ + text@.subrange(start as int, i + 1) =~= (quoted@
                + text@.subrange(start as int, i as int)) + seq![c]);
            assert(json_char(c) =~= seq![c]);
            assert(seq!['"'] + (done + seq![c]) =~= (seq!['"'] + done) + seq![c]);
        }
        i += 1;
    }
    let plain = substring(text, start, n);
    quoted.append(plain.as_str());
    quoted.append("\"");
    assert(text@.take(n as int) =~= text@);
    assert(quoted@ =~= json_string(text@));
    quoted
}

/// Formats the daemon's status line, without its line terminator.
pub fn format_status(display: &String, player: &String) -> (line: String)
    ensures
        line@ == status_line(display@, player@),
{
    let mut line = String::new();
    if display.as_str().is_empty() {
        return line;
    }
    let mut class = String::from_str("custom-");
    class.append(player.as_str());
    let mut tooltip = String::from_str("(");
    tooltip.append(player.as_str());
    tooltip.append(") ");
    tooltip.append(display.as_str());
    line.append("{\"text\": ");
    line.append(quote_json(display.as_str()).as_str());
    line.append(", \"class\": ");
    line.append(quote_json(class.as_str()).as_str());
    line.append(", \"alt\": ");
    line.append(quote_json(player.as_str()).as_str());
    line.append(", \"tooltip\": ");
    line.append(quote_json(tooltip.as_str()).as_str());
    line.append("}");
    assert(line@ =~= status_line(display@, player@));
    line
}

/// Formats one player's object.
pub fn format_entry(player: &PlayerMetadata) -> (entry: String)
    ensures
        entry@ == list_entry(player@),
{
    let text = player.get_display();
    let mut class = String::from_str("custom-");
    class.append(player.player().as_str());
    let mut entry = String::new();
    entry.append("{\"text\": ");
    entry.append(quote_json(text.as_str()).as_str());
    entry.append(", \"class\": ");
    entry.append(quote_json(class.as_str()).as_str());
    entry.append(", \"alt\": ");
    entry.append(quote_json(player.player().as_str()).as_str());
    entry.append(", \"artist\": ");
    entry.append(quote_json(player.artist().as_str()).as_str());
    entry.append(", \"title\": ");
    entry.append(quote_json(player.title().as_str()).as_str());
    entry.append(", \"album\": ");
    entry.append(quote_json(player.album().as_str()).as_str());
    entry.append(", \"artUrl\": ");
    entry.append(quote_json(player.art_url().as_str()).as_str());
    entry.append("}");
    assert(entry@ =~= list_entry(player@));
    entry
}

/// Formats the answer to `list`, without its line terminator.
pub fn format_list(players: &Vec<PlayerMetadata>) -> (text: String)
    ensures
        text@ == list_text(players.deep_view()),
{
    let ghost records = players.deep_view();
    let mut text = String::from_str("[");
    let mut i: usize = 0;
    while i < players.len()
        invariant
            i <= players.len(),
            records == players.deep_view(),
            text@ == "["@ + list_entries(records.take(i as int)),
        decreases players.len() - i,
    {
        let entry = format_entry(&players[i]);
        assert(records.take(i + 1).drop_last() =~= records.take(i as int));
        if i > 0 {
            text.append(",");
        }
        text.append(entry.as_str());
        i += 1;
    }
    assert(records.take(i as int) =~= records);
    text.append("]");
    text
}

} // verus!
