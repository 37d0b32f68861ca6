//! Splitting text at a separator character and joining it back.
//!
//! A token is cut at `.`, display text is cut into lines at `\n`, and the
//! lines of the key pane are joined with `\n` to give the candidate key.

use vstd::prelude::*;

verus! {

/// The pieces of `s` that lie between the occurrences of `sep`.
///
/// There is always at least one piece; a text with `n` separators has
/// `n + 1` pieces, some of which may be empty.
pub open spec fn split(s: Seq<char>, sep: char) -> Seq<Seq<char>>
    decreases s.len(),
{
    if s.len() == 0 {
        seq![Seq::<char>::empty()]
    } else {
        let before = split(s.drop_last(), sep);
        if s.last() == sep {
            before.push(Seq::<char>::empty())
        } else {
            before.drop_last().push(before.last().push(s.last()))
        }
    }
}

/// The pieces written one after the other with `sep` between neighbours.
pub open spec fn join(parts: Seq<Seq<char>>, sep: char) -> Seq<char>
    decreases parts.len(),
{
    if parts.len() == 0 {
        Seq::<char>::empty()
    } else if parts.len() == 1 {
        parts[0]
    } else {
        join(parts.drop_last(), sep) + seq![sep] + parts.last()
    }
}

/// Number of occurrences of `sep` in `s`.
pub open spec fn count(s: Seq<char>, sep: char) -> nat
    decreases s.len(),
{
    if s.len() == 0 {
        0
    } else {
        count(s.drop_last(), sep) + if s.last() == sep {
            1nat
        } else {
            0nat
        }
    }
}

/// A split has one piece more than the text has separators.
pub proof fn lemma_split_len(s: Seq<char>, sep: char)
    ensures
        split(s, sep).len() == count(s, sep) + 1,
    decreases s.len(),
{
    if s.len() > 0 {
        lemma_split_len(s.drop_last(), sep);
    }
}

/// Whether no piece holds the separator.
pub open spec fn pieces_hold_no(parts: Seq<Seq<char>>, sep: char) -> bool {
    forall|i: int| 0 <= i < parts.len() ==> !(#[trigger] parts[i]).contains(sep)
}

/// No piece of a split holds the separator.
pub proof fn lemma_split_pieces_hold_no_separator(s: Seq<char>, sep: char)
    ensures
        pieces_hold_no(split(s, sep), sep),
    decreases s.len(),
{
    let parts = split(s, sep);
    if s.len() > 0 {
        let before = split(s.drop_last(), sep);
        lemma_split_len(s.drop_last(), sep);
        lemma_split_pieces_hold_no_separator(s.drop_last(), sep);
        assert forall|i: int| 0 <= i < parts.len() implies !(#[trigger] parts[i]).contains(
            sep,
        ) by {
            if parts[i].contains(sep) {
                // the separator would sit in a piece of the shorter text too
                let j = choose|j: int| 0 <= j < parts[i].len() && parts[i][j] == sep;
                assert(i < before.len() && before[i][j] == sep);
            }
        }
    }
}

/// Joining the pieces of a split gives the text back.
pub proof fn lemma_join_split(s: Seq<char>, sep: char)
    ensures
        join(split(s, sep), sep) == s,
    decreases s.len(),
{
    if s.len() > 0 {
        let before = split(s.drop_last(), sep);
        lemma_split_len(s.drop_last(), sep);
        lemma_join_split(s.drop_last(), sep);
        if s.last() == sep {
            assert(before.push(Seq::<char>::empty()).drop_last() == before);
        } else {
            let grown = before.last().push(s.last());
            assert(before.drop_last().push(grown).drop_last() == before.drop_last());
            if before.len() > 1 {
                let front = join(before.drop_last(), sep) + seq![sep];
                assert(front + grown == (front + before.last()).push(s.last()));
            }
        }
    }
}

/// Splitting undoes joining: pieces that hold no separator come back as they
/// were when their join is split.
pub proof fn lemma_split_join(parts: Seq<Seq<char>>, sep: char)
    requires
        parts.len() > 0,
        pieces_hold_no(parts, sep),
    ensures
        split(join(parts, sep), sep) == parts,
    decreases parts.len(), parts.last().len(),
{
    let s = join(parts, sep);
    let last = parts.last();
    let front = parts.drop_last();
    if last.len() == 0 {
        // the text ends where the last piece begins
        assert(last == Seq::<char>::empty());
        if parts.len() > 1 {
            lemma_split_join(front, sep);
            assert(s.drop_last() == join(front, sep));
        }
    } else {
        // the text ends with the last character of the last piece
        let c = last.last();
        let shorter = front.push(last.drop_last());
        assert(pieces_hold_no(shorter, sep)) by {
            assert forall|i: int| 0 <= i < shorter.len() implies !(#[trigger] shorter[i]).contains(
                sep,
            ) by {
                if i == front.len() && shorter[i].contains(sep) {
                    let j = choose|j: int| 0 <= j < shorter[i].len() && shorter[i][j] == sep;
                    assert(last[j] == sep);
                }
            }
        }
        assert(shorter.drop_last() == front);
        lemma_split_join(shorter, sep);
        assert(last.drop_last().push(c) == last);
        assert(s.drop_last() == join(shorter, sep));
    }
}

/// Cuts `text` at every occurrence of `sep`.
pub fn split_text(text: &str, sep: char) -> (parts: Vec<String>)
    ensures
        parts.deep_view() == split(text@, sep),
{
    let n = text.unicode_len();
    let mut parts: Vec<String> = Vec::new();
    let mut start: usize = 0;
    let mut i: usize = 0;
    assert(text@.take(0) == Seq::<char>::empty());
    while i < n
        invariant
            n == text@.len(),
            start <= i <= n,
            parts.deep_view().push(text@.subrange(start as int, i as int)) == split(
                text@.take(i as int),
                sep,
            ),
        decreases n - i,
    {
        let c = text.get_char(i);
        let ghost piece = text@.subrange(start as int, i as int);
        assert(text@.take(i + 1).drop_last() == text@.take(i as int));
        if c == sep {
            parts.push(text.substring_char(start, i).to_owned());
            start = i + 1;
            assert(text@.subrange(start as int, i + 1) == Seq::<char>::empty());
        } else {
            assert(text@.subrange(start as int, i + 1) == piece.push(c));
        }
        i = i + 1;
    }
    assert(text@.take(n as int) == text@);
    parts.push(text.substring_char(start, n).to_owned());
    parts
}

/// Writes `lines` one after the other with a line feed between neighbours.
pub fn join_lines(lines: &Vec<String>) -> (text: String)
    ensures
        text@ == join(lines.deep_view(), '\n'),
{
    let mut text = String::new();
    let mut i: usize = 0;
    while i < lines.len()
        invariant
            i <= lines.len(),
            text@ == join(lines.deep_view().take(i as int), '\n'),
        decreases lines.len() - i,
    {
        let ghost upto = lines.deep_view().take(i + 1);
        assert(upto.drop_last() == lines.deep_view().take(i as int));
        if i > 0 {
            proof {
                reveal_strlit("\n");
            }
            text.append("\n");
        }
        text.append(lines[i].as_str());
        i = i + 1;
    }
    assert(lines.deep_view().take(lines.len() as int) == lines.deep_view());
    text
}

} // verus!
