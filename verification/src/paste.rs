//! Pasted text, as the key presses it stands for.
use crate::event::{KeyCode, KeyEvent};
use crate::server_list;
use crate::text;
use crate::text::{chars_of, join, split_trimmed, Separator};
use vstd::prelude::*;

verus! {

/// A pasted block as one line: its lines without white space round them and
/// without the blank ones, separated by commas.
pub open spec fn one_line_of(s: Seq<char>) -> Seq<char> {
    text::joined(text::trimmed_pieces(text::pieces(s, text::is_line_end())), ", "@)
}

/// A pasted block as one line.
pub fn normalize_paste(s: &str) -> (r: String)
    ensures
        r@ == one_line_of(s@),
{
    let lines = split_trimmed(s, Separator::LineEnd);
    join(&lines, ", ")
}

/// The key press that types a character.
pub open spec fn typed_key(c: char) -> KeyEvent {
    KeyEvent { code: KeyCode::Char(c), control: false }
}

/// The key presses that type a text.
pub open spec fn typed_keys(s: Seq<char>) -> Seq<KeyEvent> {
    s.map_values(|c: char| typed_key(c))
}

/// The key presses that a pasted block stands for: its one line, typed.
pub fn paste_keys(s: &str) -> (r: Vec<KeyEvent>)
    ensures
        r@ == typed_keys(one_line_of(s@)),
{
    let line = normalize_paste(s);
    let v = chars_of(line.as_str());
    let mut keys: Vec<KeyEvent> = Vec::new();
    let mut i: usize = 0;
    while i < v.len()
        invariant
            i <= v@.len(),
            keys@ == typed_keys(v@).take(i as int),
        decreases v@.len() - i,
    {
        keys.push(KeyEvent::plain(KeyCode::Char(v[i])));
        i = i + 1;
        assert(typed_keys(v@).take(i as int) =~= typed_keys(v@).take(i - 1).push(typed_keys(v@)[i - 1]));
    }
    assert(typed_keys(v@).take(v@.len() as int) =~= typed_keys(v@));
    keys
}

// -------------------------------------------------------------------- laws

/// A pasted block never presses Enter: its line holds no line break.
pub proof fn pastes_hold_no_line_break(s: Seq<char>)
    ensures
        !one_line_of(s).contains('\n'),
        !one_line_of(s).contains('\r'),
{
    let ok = |c: char| c != '\n' && c != '\r';
    let lines = text::pieces(s, text::is_line_end());
    text::lemma_pieces_made_of(s, text::is_line_end(), ok);
    text::lemma_trimmed_pieces(lines, ok);
    reveal_strlit(", ");
    text::lemma_joined_made_of(text::trimmed_pieces(lines), ", "@, ok);
    let r = one_line_of(s);
    assert(text::made_of(r, ok));
    assert forall|k: int| 0 <= k < r.len() implies #[trigger] r[k] != '\n' && r[k] != '\r' by {
        assert(ok(r[k]));
    }
}

/// A pasted column of values reads like the same values typed with commas
/// between them.
pub proof fn pasted_columns_read_as_lists(s: Seq<char>)
    requires
        !s.contains(','),
    ensures
        server_list::csv(one_line_of(s)) == text::trimmed_pieces(text::pieces(s, text::is_line_end())),
{
    let ok = |c: char| c != ',';
    let lines = text::pieces(s, text::is_line_end());
    assert forall|k: int| 0 <= k < s.len() implies text::is_line_end()(#[trigger] s[k]) || ok(s[k]) by {
        assert(s.contains(s[k]));
    }
    text::lemma_pieces_made_of(s, text::is_line_end(), ok);
    text::lemma_trimmed_pieces(lines, ok);
    let v = text::trimmed_pieces(lines);
    assert forall|i: int| 0 <= i < v.len() implies server_list::is_item(#[trigger] v[i]) by {
        assert(text::made_of(v[i], ok));
        assert forall|k: int| 0 <= k < v[i].len() implies #[trigger] v[i][k] != ',' by {
            assert(ok(v[i][k]));
        }
    }
    server_list::csv_reads_what_was_written(v);
}

} // verus!
