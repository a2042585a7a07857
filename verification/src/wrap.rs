//! Breaking text into lines between words.
use crate::geometry;
use crate::model::append_to;
use crate::text;
use crate::text::{cat3, chars_of, split, split_words, Separator};
use vstd::prelude::*;

verus! {

/// The lines that words fill when each line takes as many whole words as fit
/// in `width` columns. A word that fits on no line stands on one alone.
pub open spec fn filled(words: Seq<Seq<char>>, width: int) -> Seq<Seq<char>>
    decreases words.len(),
{
    if words.len() == 0 {
        Seq::empty()
    } else {
        let done = filled(words.drop_last(), width);
        let word = words.last();
        if done.len() > 0 && done.last().len() + 1 + word.len() <= width {
            done.update(done.len() - 1, done.last() + " "@ + word)
        } else {
            done.push(word)
        }
    }
}

/// The lines of `s` in `width` columns; one empty line where it has no word.
pub open spec fn wrapped(s: Seq<char>, width: int) -> Seq<Seq<char>> {
    let lines = filled(text::words(s), geometry::max_int(width, 1));
    if lines.len() == 0 {
        seq![Seq::empty()]
    } else {
        lines
    }
}

/// The lines of `s` in `width` columns, broken between words.
pub fn wrap_text(s: &str, width: usize) -> (r: Vec<String>)
    ensures
        r.deep_view() == wrapped(s@, width as int),
{
    let width: usize = if width < 1 {
        1
    } else {
        width
    };
    let words = split_words(s);
    let ghost ws = words.deep_view();
    let mut lines: Vec<String> = Vec::new();
    let mut line = String::new();
    let mut i: usize = 0;
    proof {
        assert(ws.take(0) =~= Seq::empty());
        assert(lines.deep_view() =~= Seq::empty());
    }
    while i < words.len()
        invariant
            ws == words.deep_view(),
            i <= words@.len(),
            i == 0 ==> lines@.len() == 0 && line@.len() == 0,
            i > 0 ==> lines.deep_view().push(line@) == filled(ws.take(i as int), width as int),
        decreases words@.len() - i,
    {
        let word = &words[i];
        assert(ws.take(i + 1).drop_last() =~= ws.take(i as int));
        assert(ws.take(i + 1).last() == word@);
        if i == 0 {
            line = word.clone();
            assert(lines.deep_view().push(line@) =~= filled(ws.take(0), width as int).push(word@));
        } else {
            let ghost before = lines.deep_view().push(line@);
            assert(before.last() == line@);
            let room: usize = chars_of(line.as_str()).len();
            let wanted: usize = chars_of(word.as_str()).len();
            if room < width && wanted <= width - room - 1 {
                line = cat3(line.as_str(), " ", word.as_str());
                assert(lines.deep_view().push(line@) =~= before.update(before.len() - 1, line@));
            } else {
                append_to(&mut lines, line);
                line = word.clone();
            }
        }
        i = i + 1;
    }
    assert(ws.take(ws.len() as int) =~= ws);
    let ghost last = line@;
    append_to(&mut lines, line);
    assert(ws.len() == 0 ==> last =~= Seq::empty());
    assert(ws.len() == 0 ==> lines.deep_view() =~= seq![Seq::<char>::empty()]);
    lines
}

/// The lines that the pieces of a text fill together.
pub open spec fn lines_of(pieces: Seq<Seq<char>>, width: int) -> Seq<Seq<char>>
    decreases pieces.len(),
{
    if pieces.len() == 0 {
        Seq::empty()
    } else {
        lines_of(pieces.drop_last(), width) + wrapped(pieces.last(), width)
    }
}

/// The lines of a text in `width` columns, broken at its line ends and
/// between words.
pub open spec fn text_lines(s: Seq<char>, width: int) -> Seq<Seq<char>> {
    lines_of(text::pieces(s, text::is_newline()), width)
}

/// How many lines a text takes in `width` columns.
pub fn wrapped_line_count(s: &str, width: usize) -> (r: usize)
    ensures
        r == geometry::min_int(text_lines(s@, width as int).len() as int, usize::MAX as int),
        r >= 1,
{
    let pieces = split(s, Separator::Newline);
    let ghost ps = pieces.deep_view();
    let mut total: usize = 0;
    let mut i: usize = 0;
    assert(ps.take(0) =~= Seq::empty());
    while i < pieces.len()
        invariant
            ps == pieces.deep_view(),
            i <= pieces@.len(),
            i > 0 ==> total >= 1,
            total == geometry::min_int(
                lines_of(ps.take(i as int), width as int).len() as int,
                usize::MAX as int,
            ),
        decreases pieces@.len() - i,
    {
        let lines = wrap_text(pieces[i].as_str(), width);
        assert(ps.take(i + 1).drop_last() =~= ps.take(i as int));
        assert(lines.deep_view().len() == lines@.len());
        assert(lines@.len() >= 1);
        total = total.saturating_add(lines.len());
        i = i + 1;
    }
    assert(ps.take(ps.len() as int) =~= ps);
    proof {
        text::lemma_pieces_nonempty(s@, text::is_newline());
    }
    total
}

// -------------------------------------------------------------------- laws

/// Wrapping loses no word, adds none and keeps their order: the lines joined
/// by single spaces are the words joined by single spaces.
pub proof fn wrapping_keeps_the_words(s: Seq<char>, width: int)
    ensures
        text::joined(wrapped(s, width), " "@) == text::single_line(s),
{
    let w = geometry::max_int(width, 1);
    lemma_filled_words(text::words(s), w);
    if filled(text::words(s), w).len() == 0 {
        assert(text::words(s).len() == 0) by {
            if text::words(s).len() > 0 {
                lemma_filled_count(text::words(s), w);
            }
        }
        let one = seq![Seq::<char>::empty()];
        assert(one.drop_last() =~= Seq::empty());
        assert(text::joined(one, " "@) =~= Seq::empty());
        assert(text::joined(text::words(s), " "@) =~= Seq::empty());
    }
}

/// A line is never wider than asked for, unless it is a single word.
pub proof fn wrapped_lines_fit(s: Seq<char>, width: int, i: int)
    requires
        0 <= i < wrapped(s, width).len(),
    ensures
        wrapped(s, width)[i].len() <= geometry::max_int(width, 1)
            || text::words(s).contains(wrapped(s, width)[i]),
{
    let w = geometry::max_int(width, 1);
    if filled(text::words(s), w).len() > 0 {
        lemma_filled_fits(text::words(s), w, i);
    }
}

/// Whether a word is the first one of a line.
pub open spec fn starts_with_word(line: Seq<char>, word: Seq<char>) -> bool {
    &&& word.len() <= line.len()
    &&& line.take(word.len() as int) == word
    &&& word.len() < line.len() ==> line[word.len() as int] == ' '
}

/// Lines are filled as far as they go: the first word of the next line would
/// not have fitted.
pub proof fn lines_are_filled(s: Seq<char>, width: int, i: int)
    requires
        0 <= i,
        i + 1 < wrapped(s, width).len(),
    ensures
        exists|word: Seq<char>|
            #![trigger starts_with_word(wrapped(s, width)[i + 1], word)]
            text::words(s).contains(word) && starts_with_word(wrapped(s, width)[i + 1], word) && wrapped(
                s,
                width,
            )[i].len() + 1 + word.len() > geometry::max_int(width, 1),
{
    lemma_filled_full(text::words(s), geometry::max_int(width, 1), i);
}

/// A text takes at most one line per word, and at least one.
pub proof fn wrapping_takes_few_lines(s: Seq<char>, width: int)
    ensures
        1 <= wrapped(s, width).len() <= geometry::max_int(1, text::words(s).len() as int),
{
    lemma_filled_count(text::words(s), geometry::max_int(width, 1));
}

proof fn lemma_filled_full(words: Seq<Seq<char>>, width: int, i: int) -> (word: Seq<char>)
    requires
        0 <= i,
        i + 1 < filled(words, width).len(),
    ensures
        words.contains(word),
        starts_with_word(filled(words, width)[i + 1], word),
        filled(words, width)[i].len() + 1 + word.len() > width,
    decreases words.len(),
{
    let front = words.drop_last();
    let done = filled(front, width);
    let all = filled(words, width);
    reveal_strlit(" ");
    if i + 1 < done.len() {
        let word = lemma_filled_full(front, width, i);
        let k = choose|k: int| 0 <= k < front.len() && front[k] == word;
        assert(words[k] == word);
        assert(all[i + 1].take(word.len() as int) =~= done[i + 1].take(word.len() as int));
        word
    } else {
        let word = words.last();
        assert(words[words.len() - 1] == word);
        assert(all[i + 1] == word);
        assert(word.take(word.len() as int) =~= word);
        word
    }
}

proof fn lemma_filled_count(words: Seq<Seq<char>>, width: int)
    ensures
        filled(words, width).len() <= words.len(),
        words.len() > 0 ==> filled(words, width).len() > 0,
    decreases words.len(),
{
    if words.len() > 0 {
        lemma_filled_count(words.drop_last(), width);
    }
}

proof fn lemma_filled_words(words: Seq<Seq<char>>, width: int)
    ensures
        text::joined(filled(words, width), " "@) == text::joined(words, " "@),
    decreases words.len(),
{
    if words.len() > 0 {
        let front = words.drop_last();
        let done = filled(front, width);
        let all = filled(words, width);
        lemma_filled_words(front, width);
        lemma_filled_count(front, width);
        if done.len() > 0 && done.last().len() + 1 + words.last().len() <= width {
            assert(all.drop_last() =~= done.drop_last());
            assert(text::joined(all, " "@) =~= text::joined(done, " "@) + " "@ + words.last());
        } else {
            assert(all.drop_last() =~= done);
        }
        if front.len() == 0 {
            assert(done.len() == 0);
        }
    }
}

proof fn lemma_filled_fits(words: Seq<Seq<char>>, width: int, i: int)
    requires
        0 <= i < filled(words, width).len(),
    ensures
        filled(words, width)[i].len() <= width || words.contains(filled(words, width)[i]),
    decreases words.len(),
{
    let front = words.drop_last();
    let done = filled(front, width);
    reveal_strlit(" ");
    if i < done.len() {
        lemma_filled_fits(front, width, i);
        if front.contains(done[i]) {
            let k = choose|k: int| 0 <= k < front.len() && front[k] == done[i];
            assert(words[k] == done[i]);
        }
    }
    if i == filled(words, width).len() - 1 && filled(words, width).len() > done.len() {
        assert(words[words.len() - 1] == filled(words, width)[i]);
    }
}

} // verus!
