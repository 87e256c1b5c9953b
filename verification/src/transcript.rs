//! Reading a line of a text log back: who wrote it and what it says.
use vstd::prelude::*;
use crate::messages::ModelView;
use crate::rollup::line_of;
use crate::timestamp::clock_text;

verus! {

/// Whether a character ends the name of the sender in a line.
pub open spec fn ends_name(c: char) -> bool {
    c == ';' || c == '>'
}

/// The first position from `from` on that holds a character ending the name,
/// or the length of the line where there is none.
pub open spec fn name_end(line: Seq<char>, from: int) -> int
    decreases line.len() - from,
{
    if from < 0 || from >= line.len() || ends_name(line[from]) {
        from
    } else {
        name_end(line, from + 1)
    }
}

/// The first position from `from` on that holds `>`, or the length of the
/// line where there is none.
pub open spec fn bracket_end(line: Seq<char>, from: int) -> int
    decreases line.len() - from,
{
    if from < 0 || from >= line.len() || line[from] == '>' {
        from
    } else {
        bracket_end(line, from + 1)
    }
}

/// The sender and the text of a line of a text log, where the line has the
/// shape of one: the time in brackets, the sender in angle brackets, perhaps
/// followed there by a note on its deletion, then the text up to the end of
/// the line.
pub open spec fn parsed_line(line: Seq<char>) -> Option<(Seq<char>, Seq<char>)> {
    let e = name_end(line, 12);
    let c = bracket_end(line, e);
    if line.len() >= 15 && line[0] == '[' && line[9] == ']' && line[10] == ' ' && line[11] == '<'
        && line.last() == '\n' && c + 2 <= line.len() - 1 && line[c + 1] == ' ' {
        Some((line.subrange(12, e), line.subrange(c + 2, line.len() - 1)))
    } else {
        None
    }
}

/// The name ends at the first position that holds `;` or `>`.
pub proof fn lemma_name_end(line: Seq<char>, from: int, stop: int)
    requires
        0 <= from <= stop < line.len(),
        forall|k: int| from <= k < stop ==> !ends_name(#[trigger] line[k]),
        ends_name(line[stop]),
    ensures
        name_end(line, from) == stop,
    decreases stop - from,
{
    if from < stop {
        assert(!ends_name(line[from]));
        lemma_name_end(line, from + 1, stop);
    }
}

/// The sender's brackets close at the first position that holds `>`.
pub proof fn lemma_bracket_end(line: Seq<char>, from: int, stop: int)
    requires
        0 <= from <= stop < line.len(),
        forall|k: int| from <= k < stop ==> #[trigger] line[k] != '>',
        line[stop] == '>',
    ensures
        bracket_end(line, from) == stop,
    decreases stop - from,
{
    if from < stop {
        assert(line[from] != '>');
        lemma_bracket_end(line, from + 1, stop);
    }
}

/// A time of day is eight characters, none of which closes a bracket.
pub proof fn lemma_clock_shape(unix_millis: int)
    ensures
        clock_text(unix_millis).len() == 8,
        forall|k: int| 0 <= k < 8 ==> #[trigger] clock_text(unix_millis)[k] != '>',
{
}

/// Reading back the line written for a message gives its sender and its
/// text, provided that the sender's name holds neither `;` nor `>`.
pub proof fn lemma_line_round_trip(m: ModelView)
    requires
        forall|k: int| 0 <= k < m.username.len() ==> !ends_name(#[trigger] m.username[k]),
    ensures
        parsed_line(line_of(m)) == Some((m.username, m.message)),
{
    let line = line_of(m);
    let n = m.username.len() as int;
    let t = m.message.len() as int;
    lemma_clock_shape(m.timestamp);
    let head = seq!['['] + clock_text(m.timestamp) + seq![']', ' ', '<'];
    assert(head.len() == 12);
    assert(head[0] == '[' && head[9] == ']' && head[10] == ' ' && head[11] == '<');
    match m.deleted_at {
        Some(at) => {
            lemma_clock_shape(at);
            let note = seq![';', ' ', 'd', 'e', 'l', 'e', 't', 'e', 'd', ' ', 'a', 't', ' ']
                + clock_text(at);
            assert(note.len() == 21);
            assert(note[0] == ';');
            assert forall|k: int| 0 <= k < 21 implies #[trigger] note[k] != '>' by {
                if k >= 13 {
                    assert(note[k] == clock_text(at)[k - 13]);
                }
            }
            let tail = seq!['>', ' '] + m.message + seq!['\n'];
            assert(line =~= head + m.username + note + tail);
            assert(line.len() == 12 + n + 21 + 2 + t + 1);
            assert forall|k: int| 0 <= k < 12 implies line[k] == head[k] by {}
            assert forall|k: int| 12 <= k < 12 + n implies !ends_name(#[trigger] line[k]) by {
                assert(line[k] == m.username[k - 12]);
            }
            assert(line[12 + n] == note[0]);
            lemma_name_end(line, 12, 12 + n);
            assert forall|k: int| 12 + n <= k < 12 + n + 21 implies #[trigger] line[k] != '>' by {
                assert(line[k] == note[k - 12 - n]);
            }
            assert(line[12 + n + 21] == tail[0]);
            lemma_bracket_end(line, 12 + n, 12 + n + 21);
            assert(line[12 + n + 22] == tail[1]);
            assert(line.last() == tail[t + 2]);
            assert(line.subrange(12, 12 + n) =~= m.username);
            assert(line.subrange(12 + n + 23, line.len() - 1) =~= m.message);
        },
        None => {
            let tail = seq!['>', ' '] + m.message + seq!['\n'];
            assert(line =~= head + m.username + tail);
            assert(line.len() == 12 + n + 2 + t + 1);
            assert forall|k: int| 0 <= k < 12 implies line[k] == head[k] by {}
            assert forall|k: int| 12 <= k < 12 + n implies !ends_name(#[trigger] line[k]) by {
                assert(line[k] == m.username[k - 12]);
            }
            assert(line[12 + n] == tail[0]);
            lemma_name_end(line, 12, 12 + n);
            assert(bracket_end(line, 12 + n) == 12 + n);
            assert(line[12 + n + 1] == tail[1]);
            assert(line.last() == tail[t + 2]);
            assert(line.subrange(12, 12 + n) =~= m.username);
            assert(line.subrange(12 + n + 2, line.len() - 1) =~= m.message);
        },
    }
}

/// Reads the sender and the text back from a line of a text log; `None` for
/// a line that has not the shape of one.
pub fn parse_line(line: &str) -> (r: Option<(String, String)>)
    ensures
        match r {
            Some((sender, text)) => parsed_line(line@) == Some((sender@, text@)),
            None => parsed_line(line@) is None,
        },
{
    let len = line.unicode_len();
    if len < 15 {
        return None;
    }
    if line.get_char(0) != '[' || line.get_char(9) != ']' || line.get_char(10) != ' '
        || line.get_char(11) != '<' || line.get_char(len - 1) != '\n' {
        return None;
    }
    let mut e: usize = 12;
    while e < len && line.get_char(e) != ';' && line.get_char(e) != '>'
        invariant
            12 <= e <= len,
            len == line@.len(),
            name_end(line@, 12) == name_end(line@, e as int),
        decreases len - e,
    {
        e = e + 1;
    }
    let mut c: usize = e;
    while c < len && line.get_char(c) != '>'
        invariant
            e <= c <= len,
            len == line@.len(),
            bracket_end(line@, e as int) == bracket_end(line@, c as int),
        decreases len - c,
    {
        c = c + 1;
    }
    if len - c < 3 || line.get_char(c + 1) != ' ' {
        return None;
    }
    let sender = line.substring_char(12, e).to_owned();
    let text = line.substring_char(c + 2, len - 1).to_owned();
    Some((sender, text))
}

} // verus!
