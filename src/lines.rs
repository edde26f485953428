//! Counting the lines of a text under a blank-line policy.

use vstd::prelude::*;

verus! {

/// Whether `c` has the Unicode `White_Space` property, the set that
/// `char::is_whitespace` and `str::trim` use.
pub open spec fn is_whitespace_char(c: char) -> bool {
    let u = c as u32;
    ||| 0x9 <= u <= 0xd
    ||| u == 0x20
    ||| u == 0x85
    ||| u == 0xa0
    ||| u == 0x1680
    ||| 0x2000 <= u <= 0x200a
    ||| u == 0x2028
    ||| u == 0x2029
    ||| u == 0x202f
    ||| u == 0x205f
    ||| u == 0x3000
}

/// A line is blank when nothing but whitespace is left after trimming it.
pub open spec fn is_blank(line: Seq<char>) -> bool {
    forall|i: int| 0 <= i < line.len() ==> is_whitespace_char(#[trigger] line[i])
}

/// The pieces of `text` between line feeds, in order: one more than there
/// are line feeds.
pub open spec fn pieces(text: Seq<char>) -> Seq<Seq<char>>
    decreases text.len(),
{
    if text.len() == 0 {
        seq![Seq::empty()]
    } else {
        let before = pieces(text.drop_last());
        if text.last() == '\n' {
            before.push(Seq::empty())
        } else {
            before.update(before.len() - 1, before.last().push(text.last()))
        }
    }
}

/// The lines of `text` as a line reader yields them: the pieces between line
/// feeds, where a final empty piece (text that ends with a line feed, or no
/// text at all) is no line. A carriage return before a line feed stays on
/// its line here; being whitespace, it changes no count.
pub open spec fn lines_of(text: Seq<char>) -> Seq<Seq<char>> {
    let p = pieces(text);
    if p.last().len() == 0 {
        p.drop_last()
    } else {
        p
    }
}

/// The lines that count: all of them, or only those that are not blank.
pub open spec fn kept_lines(lines: Seq<Seq<char>>, count_empty_lines: bool) -> Seq<Seq<char>> {
    if count_empty_lines {
        lines
    } else {
        lines.filter(|l: Seq<char>| !is_blank(l))
    }
}

/// The number of lines of `text` that count under the policy.
pub open spec fn line_count(text: Seq<char>, count_empty_lines: bool) -> nat {
    kept_lines(lines_of(text), count_empty_lines).len()
}

/// There is at most one piece more than there are characters.
pub proof fn lemma_pieces_len(text: Seq<char>)
    ensures
        1 <= pieces(text).len() <= text.len() + 1,
    decreases text.len(),
{
    if text.len() > 0 {
        lemma_pieces_len(text.drop_last());
    }
}

/// Reading one more character either closes the current piece (a line feed)
/// or extends it.
proof fn lemma_pieces_push(text: Seq<char>, c: char)
    ensures
        c == '\n' ==> pieces(text.push(c)) == pieces(text).push(Seq::empty()),
        c != '\n' ==> pieces(text.push(c)) == pieces(text).update(
            pieces(text).len() - 1,
            pieces(text).last().push(c),
        ),
{
    assert(text.push(c).drop_last() =~= text);
}

/// Counting blank lines as well never gives fewer lines than leaving them
/// out.
pub proof fn lemma_blank_lines_only_add(text: Seq<char>)
    ensures
        line_count(text, true) >= line_count(text, false),
{
    lines_of(text).lemma_filter_len(|l: Seq<char>| !is_blank(l));
}

/// Whether `c` has the Unicode `White_Space` property.
pub fn is_whitespace(c: char) -> (r: bool)
    ensures
        r == is_whitespace_char(c),
{
    let u = c as u32;
    (0x9 <= u && u <= 0xd) || u == 0x20 || u == 0x85 || u == 0xa0 || u == 0x1680 || (0x2000 <= u
        && u <= 0x200a) || u == 0x2028 || u == 0x2029 || u == 0x202f || u == 0x205f || u == 0x3000
}

/// Counts the lines of `text`, all of them when `count_empty_lines` holds,
/// else only those with something besides whitespace on them.
pub fn count_lines_in_text(text: &str, count_empty_lines: bool) -> (r: usize)
    ensures
        r == line_count(text@, count_empty_lines),
{
    let n = text.unicode_len();
    let mut count: usize = 0;
    let mut open_line = false;
    let mut open_blank = true;
    let ghost mut seen: Seq<char> = Seq::empty();
    proof {
        assert(pieces(seen) =~= seq![Seq::<char>::empty()]);
    }
    for c in it: text.chars()
        invariant
            n == text@.len(),
            it.seq() == text@,
            seen == text@.take(it.index() as int),
            count == kept_lines(pieces(seen).drop_last(), count_empty_lines).len(),
            count + (if open_line { 1int } else { 0int }) <= it.index(),
            pieces(seen).len() >= 1,
            open_line == (pieces(seen).last().len() > 0),
            open_blank == is_blank(pieces(seen).last()),
    {
        proof {
            let p = pieces(seen);
            let next = text@.take(it.index() + 1);
            assert(next =~= seen.push(c));
            lemma_pieces_push(seen, c);
            lemma_pieces_len(seen);
            broadcast use Seq::lemma_filter_len_push;
            if c == '\n' {
                assert(pieces(next).drop_last() =~= p);
                assert(p =~= p.drop_last().push(p.last()));
                assert(is_blank(pieces(next).last()));
            } else {
                assert(pieces(next).drop_last() =~= p.drop_last());
                assert(pieces(next).last() =~= p.last().push(c));
                assert(is_blank(p.last().push(c)) == (is_blank(p.last()) && is_whitespace_char(c))) by {
                    let l = p.last().push(c);
                    if is_blank(p.last()) && is_whitespace_char(c) {
                        assert forall|i: int| 0 <= i < l.len() implies is_whitespace_char(l[i]) by {
                            if i < p.last().len() {
                                assert(l[i] == p.last()[i]);
                            }
                        }
                    }
                    if is_blank(l) {
                        assert(is_whitespace_char(l[l.len() - 1]));
                        assert forall|i: int| 0 <= i < p.last().len() implies is_whitespace_char(p.last()[i]) by {
                            assert(l[i] == p.last()[i]);
                        }
                    }
                }
            }
            seen = next;
        }
        if c == '\n' {
            if count_empty_lines || !open_blank {
                count = count + 1;
            }
            open_line = false;
            open_blank = true;
        } else {
            open_line = true;
            open_blank = open_blank && is_whitespace(c);
        }
    }
    proof {
        let p = pieces(seen);
        assert(seen =~= text@);
        broadcast use Seq::lemma_filter_len_push;
        assert(p =~= p.drop_last().push(p.last()));
    }
    if open_line && (count_empty_lines || !open_blank) {
        count = count + 1;
    }
    count
}

} // verus!
