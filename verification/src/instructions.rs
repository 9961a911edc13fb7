//! Instruction text: line splitting and the executable-line convention.
//!
//! Rendered instruction text is an implicit protocol: a line that starts with
//! exactly two leading space characters is a shell command to run; every other
//! line — including one indented further — is purely informational.  Text is
//! split into lines at `'\n'`, a final line ending is optional, and a `'\r'`
//! immediately before a `'\n'` belongs to the line ending, not to the line.

use vstd::prelude::*;

verus! {

/// A line is executable exactly when it has exactly two leading spaces: its
/// first two characters are spaces and its third, if any, is not.
pub open spec fn executable_line(l: Seq<char>) -> bool {
    l.len() >= 2 && l[0] == ' ' && l[1] == ' ' && (l.len() == 2 || l[2] != ' ')
}

/// Raw split of a character sequence at every `'\n'`; the separators are
/// dropped and the (possibly empty) piece after the last separator is kept.
pub open spec fn split_newlines(t: Seq<char>) -> Seq<Seq<char>>
    decreases t.len(),
{
    if t.len() == 0 {
        seq![t]
    } else if t[0] == '\n' {
        seq![Seq::<char>::empty()].add(split_newlines(t.drop_first()))
    } else {
        let rest = split_newlines(t.drop_first());
        seq![seq![t[0]].add(rest[0])].add(rest.drop_first())
    }
}

/// Removes a single trailing `'\r'`, if present.
pub open spec fn strip_carriage_return(l: Seq<char>) -> Seq<char> {
    if l.len() > 0 && l.last() == '\r' {
        l.drop_last()
    } else {
        l
    }
}

/// Every piece of a split, with its line ending stripped.
pub open spec fn stripped_all(parts: Seq<Seq<char>>) -> Seq<Seq<char>> {
    parts.map_values(|l: Seq<char>| strip_carriage_return(l))
}

/// The lines of an instruction text, as `str::lines` yields them: pieces
/// between `'\n'` separators, each newline-terminated piece with one trailing
/// `'\r'` removed, and no empty final line when the text ends with `'\n'`.
pub open spec fn instruction_lines(t: Seq<char>) -> Seq<Seq<char>> {
    let parts = split_newlines(t);
    if t.len() == 0 || t.last() == '\n' {
        stripped_all(parts.drop_last())
    } else {
        stripped_all(parts.drop_last()).push(parts.last())
    }
}

pub proof fn lemma_split_newlines_len(t: Seq<char>)
    ensures
        split_newlines(t).len() >= 1,
    decreases t.len(),
{
    if t.len() == 0 {
    } else {
        lemma_split_newlines_len(t.drop_first());
    }
}

/// Decides whether one line of instruction text is an executable command.
pub fn is_executable_line(line: &str) -> (r: bool)
    ensures
        r == executable_line(line@),
{
    let n = line.unicode_len();
    if n < 2 {
        return false;
    }
    let c0 = line.get_char(0);
    if c0 != ' ' {
        return false;
    }
    let c1 = line.get_char(1);
    if c1 != ' ' {
        return false;
    }
    if n == 2 {
        return true;
    }
    let c2 = line.get_char(2);
    c2 != ' '
}

/// Splits an instruction text into its lines.
pub fn split_lines(text: &str) -> (r: Vec<String>)
    ensures
        r.deep_view() == instruction_lines(text@),
{
    let n = text.unicode_len();
    let mut out: Vec<String> = Vec::new();
    let ghost mut parts_done: Seq<Seq<char>> = Seq::empty();
    let mut start: usize = 0;
    let mut i: usize = 0;
    proof {
        lemma_split_newlines_len(text@);
        assert(text@.skip(0) =~= text@);
        assert(parts_done + seq![
            text@.subrange(0, 0) + split_newlines(text@.skip(0))[0],
        ] + split_newlines(text@.skip(0)).drop_first() =~~= split_newlines(text@)) by {
            assert(text@.subrange(0, 0) + split_newlines(text@)[0] =~= split_newlines(text@)[0]);
        }
    }
    while i < n
        invariant
            n == text@.len(),
            start <= i <= n,
            start > 0 ==> text@[start - 1] == '\n',
            out.deep_view() == stripped_all(parts_done),
            split_newlines(text@) == parts_done + seq![
                text@.subrange(start as int, i as int) + split_newlines(text@.skip(i as int))[0],
            ] + split_newlines(text@.skip(i as int)).drop_first(),
        decreases n - i,
    {
        proof {
            lemma_split_newlines_len(text@.skip(i as int));
            lemma_split_newlines_len(text@.skip(i + 1));
            assert(text@.skip(i as int)[0] == text@[i as int]);
            assert(text@.skip(i as int).drop_first() =~= text@.skip(i + 1));
        }
        let ghost old_parts = parts_done;
        let ghost old_out = out.deep_view();
        let ghost cur = text@.subrange(start as int, i as int);
        let ghost s_cur = split_newlines(text@.skip(i as int));
        let ghost s_next = split_newlines(text@.skip(i + 1));
        let c = text.get_char(i);
        if c == '\n' {
            let end = if i > start && text.get_char(i - 1) == '\r' {
                i - 1
            } else {
                i
            };
            let piece = text.substring_char(start, end);
            let line = String::from_str(piece);
            out.push(line);
            proof {
                parts_done = parts_done.push(cur);
                assert(line@ == strip_carriage_return(cur)) by {
                    if i > start && text@[i - 1] == '\r' {
                        assert(cur.last() == text@[i - 1]);
                        assert(cur.drop_last() =~= text@.subrange(start as int, i - 1));
                    } else {
                        if cur.len() > 0 {
                            assert(cur.last() == text@[i - 1]);
                        }
                    }
                }
                assert(out.deep_view() =~= stripped_all(parts_done)) by {
                    assert(out.deep_view() =~= old_out.push(line@));
                    assert(stripped_all(parts_done) =~= stripped_all(old_parts).push(
                        strip_carriage_return(cur),
                    ));
                }
                assert(s_cur =~= seq![Seq::<char>::empty()].add(s_next));
                assert(split_newlines(text@) =~~= parts_done + seq![
                    text@.subrange(i + 1, i + 1) + s_next[0],
                ] + s_next.drop_first()) by {
                    assert(cur + s_cur[0] =~= cur);
                    assert(text@.subrange(i + 1, i + 1) + s_next[0] =~= s_next[0]);
                    assert(s_cur.drop_first() =~= s_next);
                    assert(old_parts + seq![cur + s_cur[0]] + s_cur.drop_first() =~~= parts_done
                        + seq![text@.subrange(i + 1, i + 1) + s_next[0]] + s_next.drop_first());
                }
            }
            start = i + 1;
        } else {
            proof {
                assert(s_cur =~= seq![seq![text@[i as int]].add(s_next[0])].add(
                    s_next.drop_first(),
                ));
                assert(split_newlines(text@) =~~= parts_done + seq![
                    text@.subrange(start as int, i + 1) + s_next[0],
                ] + s_next.drop_first()) by {
                    assert(cur + s_cur[0] =~= text@.subrange(start as int, i + 1) + s_next[0]);
                    assert(s_cur.drop_first() =~= s_next.drop_first());
                }
            }
        }
        i = i + 1;
    }
    proof {
        assert(text@.skip(n as int) =~= Seq::<char>::empty());
        let cur = text@.subrange(start as int, n as int);
        assert(split_newlines(text@) =~~= parts_done.push(cur)) by {
            assert(cur + split_newlines(text@.skip(n as int))[0] =~= cur);
            assert(split_newlines(text@.skip(n as int)).drop_first() =~= Seq::<Seq<char>>::empty());
            assert(parts_done + seq![cur + split_newlines(text@.skip(n as int))[0]]
                + split_newlines(text@.skip(n as int)).drop_first() =~~= parts_done.push(cur));
        }
        assert(split_newlines(text@).drop_last() =~= parts_done);
        assert(split_newlines(text@).last() == cur);
    }
    if n > 0 && text.get_char(n - 1) != '\n' {
        proof {
            assert(start < n);
        }
        let piece = text.substring_char(start, n);
        let line = String::from_str(piece);
        let ghost old_out = out.deep_view();
        out.push(line);
        proof {
            assert(out.deep_view() =~= old_out.push(line@));
            assert(out.deep_view() =~= instruction_lines(text@));
        }
    } else {
        proof {
            assert(out.deep_view() =~= instruction_lines(text@));
        }
    }
    out
}

} // verus!
