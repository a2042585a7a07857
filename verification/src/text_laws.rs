//! What holds of the readings of texts.
use crate::paste;
use crate::text;
use vstd::prelude::*;

verus! {

/// Whether a text is white space alone.
pub open spec fn all_white(s: Seq<char>) -> bool {
    forall|k: int| 0 <= k < s.len() ==> text::white(#[trigger] s[k])
}

/// Trimming takes white space off both ends of a text, all of it and nothing
/// else.
pub proof fn trimming_takes_off_white_space(s: Seq<char>)
    ensures
        exists|i: int, j: int| {
            &&& 0 <= i <= j <= s.len()
            &&& text::trimmed(s) == #[trigger] s.subrange(i, j)
            &&& all_white(s.subrange(0, i))
            &&& all_white(s.subrange(j, s.len() as int))
        },
        text::trimmed(s).len() > 0 ==> !text::white(text::trimmed(s)[0]) && !text::white(text::trimmed(s).last()),
{
    let i = lemma_trim_start(s);
    let rest = text::trim_start(s);
    let k = lemma_trim_end(rest);
    let j = i + k;
    assert(text::trimmed(s) =~= s.subrange(i, j));
    assert forall|n: int| 0 <= n < s.subrange(j, s.len() as int).len() implies text::white(
        #[trigger] s.subrange(j, s.len() as int)[n],
    ) by {
        assert(s.subrange(j, s.len() as int)[n] == rest.skip(k)[n]);
    }
    if k > 0 {
        assert(text::trimmed(s)[0] == rest[0]);
    }
}

proof fn lemma_trim_start(s: Seq<char>) -> (i: int)
    ensures
        0 <= i <= s.len(),
        text::trim_start(s) == s.skip(i),
        all_white(s.subrange(0, i)),
        text::trim_start(s).len() > 0 ==> !text::white(text::trim_start(s)[0]),
    decreases s.len(),
{
    if s.len() > 0 && text::white(s[0]) {
        let i = lemma_trim_start(s.drop_first());
        assert(s.drop_first().skip(i) =~= s.skip(i + 1));
        assert forall|n: int| 0 <= n < i + 1 implies text::white(#[trigger] s.subrange(0, i + 1)[n]) by {
            if n > 0 {
                assert(s.subrange(0, i + 1)[n] == s.drop_first().subrange(0, i)[n - 1]);
            }
        }
        i + 1
    } else {
        assert(s.skip(0) =~= s);
        0
    }
}

proof fn lemma_trim_end(s: Seq<char>) -> (k: int)
    ensures
        0 <= k <= s.len(),
        text::trim_end(s) == s.take(k),
        all_white(s.skip(k)),
        k > 0 ==> !text::white(s[k - 1]),
    decreases s.len(),
{
    if s.len() > 0 && text::white(s.last()) {
        let k = lemma_trim_end(s.drop_last());
        assert(s.drop_last().take(k) =~= s.take(k));
        assert forall|n: int| 0 <= n < s.skip(k).len() implies text::white(#[trigger] s.skip(k)[n]) by {
            if n < s.len() - 1 - k {
                assert(s.skip(k)[n] == s.drop_last().skip(k)[n]);
            }
        }
        k
    } else {
        assert(s.take(s.len() as int) =~= s);
        s.len() as int
    }
}

/// The pieces of a text, put together with the separators that stood between
/// them, are the text again, and none holds a separator.
pub proof fn pieces_make_up_the_text(s: Seq<char>, c: char, i: int, k: int)
    ensures
        text::joined(text::pieces(s, |x: char| x == c), seq![c]) == s,
        ({
            let p = text::pieces(s, |x: char| x == c);
            &&& p.len() > 0
            &&& 0 <= i < p.len() && 0 <= k < p[i].len() ==> p[i][k] != c
        }),
    decreases s.len(),
{
    let sep = |x: char| x == c;
    let p = text::pieces(s, sep);
    if s.len() == 0 {
        assert(text::joined(p, seq![c]) =~= s);
    } else {
        pieces_make_up_the_text(s.drop_last(), c, i, k);
        let f = text::pieces(s.drop_last(), sep);
        assert(s.drop_last().push(s.last()) =~= s);
        if s.last() == c {
            assert(p.drop_last() =~= f);
            assert(text::joined(p, seq![c]) =~= text::joined(f, seq![c]) + seq![c] + Seq::empty());
            assert(text::joined(p, seq![c]) =~= s);
        } else {
            assert(p.drop_last() =~= f.drop_last());
            if f.len() == 1 {
                assert(text::joined(p, seq![c]) =~= s);
            } else {
                assert(text::joined(p, seq![c]) =~= text::joined(f, seq![c]).push(s.last()));
            }
        }
    }
}

/// A comma list holds what stands between the commas, without white space
/// round it and without what is empty, in order.
pub proof fn comma_lists_hold_their_items(s: Seq<char>)
    ensures
        text::trimmed_pieces(text::pieces(s, text::is_comma())) == text::pieces(s, |c: char| c == ',').filter(
            |p: Seq<char>| text::trimmed(p).len() > 0,
        ).map_values(|p: Seq<char>| text::trimmed(p)),
{
    trimmed_pieces_are_trimmed(text::pieces(s, text::is_comma()));
}

/// Of pieces, those that are not blank are kept, each trimmed, in order.
pub proof fn trimmed_pieces_are_trimmed(p: Seq<Seq<char>>)
    ensures
        text::trimmed_pieces(p) == p.filter(|q: Seq<char>| text::trimmed(q).len() > 0).map_values(
            |q: Seq<char>| text::trimmed(q),
        ),
    decreases p.len(),
{
    reveal(Seq::filter);
    let keep = |q: Seq<char>| text::trimmed(q).len() > 0;
    let trim = |q: Seq<char>| text::trimmed(q);
    if p.len() == 0 {
        assert(p.filter(keep).map_values(trim) =~= Seq::empty());
    } else {
        trimmed_pieces_are_trimmed(p.drop_last());
        let front = p.drop_last().filter(keep);
        if keep(p.last()) {
            assert(front.push(p.last()).map_values(trim) =~= front.map_values(trim).push(trim(p.last())));
        }
    }
}

/// The words of a text are its pieces between white space, without the empty
/// ones, in order.
pub proof fn words_stand_between_white_space(s: Seq<char>)
    ensures
        text::words(s) == text::pieces(s, |c: char| text::white(c)).filter(|p: Seq<char>| p.len() > 0),
{
    lemma_nonempty(text::pieces(s, |c: char| text::white(c)));
}

proof fn lemma_nonempty(p: Seq<Seq<char>>)
    ensures
        text::nonempty(p) == p.filter(|q: Seq<char>| q.len() > 0),
    decreases p.len(),
{
    reveal(Seq::filter);
    if p.len() > 0 {
        lemma_nonempty(p.drop_last());
    } else {
        assert(p.filter(|q: Seq<char>| q.len() > 0) =~= Seq::empty());
    }
}

/// ASCII letters lose their capitals; everything else in an ASCII text stays.
pub proof fn small_letters_stay(s: Seq<char>, k: int)
    requires
        text::is_ascii_text(s),
        0 <= k < s.len(),
    ensures
        text::lowercase(s).len() == s.len(),
        'A' <= s[k] <= 'Z' ==> text::lowercase(s)[k] as int == s[k] as int + 32,
        !('A' <= s[k] <= 'Z') ==> text::lowercase(s)[k] == s[k],
{
}

/// A text occurs in another where it stands in it as it is.
pub proof fn texts_occur_where_they_stand(a: Seq<char>, b: Seq<char>, c: Seq<char>)
    ensures
        text::occurs(a + b + c, b),
{
    let whole = a + b + c;
    let n = a.len() as int;
    assert(whole.subrange(n, n + b.len()) =~= b);
    assert(text::occurs_at(whole, b, n));
}

/// A text that occurs in another splits it.
pub proof fn occurring_texts_split_the_other(h: Seq<char>, n: Seq<char>)
    requires
        text::occurs(h, n),
    ensures
        exists|a: Seq<char>, c: Seq<char>| h == #[trigger] (a + n + c),
{
    let i = choose|i: int| #[trigger] text::occurs_at(h, n, i);
    let a = h.take(i);
    let c = h.skip(i + n.len());
    assert(h =~= a + n + c);
}

/// A text on one line is its words with one space between them: the first word
/// stands in front, and each other behind a space.
pub proof fn one_line_has_the_words(s: Seq<char>)
    ensures
        text::words(s).len() == 0 ==> text::single_line(s).len() == 0,
        text::words(s).len() == 1 ==> text::single_line(s) == text::words(s)[0],
        text::words(s).len() > 1 ==> text::single_line(s) == text::joined(text::words(s).drop_last(), " "@) + " "@
            + text::words(s).last(),
{
    reveal_with_fuel(text::joined, 2);
}

/// What is pasted becomes its lines, trimmed, with a comma and a space between
/// them.
pub proof fn pasted_lines_are_joined_by_commas(s: Seq<char>)
    ensures
        ({
            let lines = text::trimmed_pieces(text::pieces(s, text::is_line_end()));
            &&& lines.len() == 0 ==> paste::one_line_of(s).len() == 0
            &&& lines.len() == 1 ==> paste::one_line_of(s) == lines[0]
            &&& lines.len() > 1 ==> paste::one_line_of(s) == text::joined(lines.drop_last(), ", "@) + ", "@
                + lines.last()
        }),
{
    reveal_with_fuel(text::joined, 2);
}

} // verus!
