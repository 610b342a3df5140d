//! Lists of strings stored as one string.
//!
//! A record keeps a list of lines (ingredients, instructions) in a single
//! attribute: each line is escaped with a backslash before `\`, `,` and `;`,
//! and the escaped lines are joined with `;`. Reading the attribute back
//! splits at every `;` that no backslash escapes and removes the escapes.

use vstd::prelude::*;

use crate::chars::push_char;

verus! {

/// The characters that are written with a backslash in front.
pub open spec fn is_special(c: char) -> bool {
    c == '\\' || c == ',' || c == ';'
}

/// One character as it is written inside a stored list.
pub open spec fn escape_char(c: char) -> Seq<char> {
    if is_special(c) {
        seq!['\\', c]
    } else {
        seq![c]
    }
}

/// A line as it is written inside a stored list: every character escaped,
/// in order.
pub open spec fn escape(line: Seq<char>) -> Seq<char>
    decreases line.len(),
{
    if line.len() == 0 {
        Seq::empty()
    } else {
        escape(line.drop_last()) + escape_char(line.last())
    }
}

/// The stored form of a list: the escaped lines with one `;` between
/// neighbours. The empty list is stored as the empty string.
pub open spec fn join(lines: Seq<Seq<char>>) -> Seq<char>
    decreases lines.len(),
{
    if lines.len() == 0 {
        Seq::empty()
    } else if lines.len() == 1 {
        escape(lines[0])
    } else {
        join(lines.drop_last()) + seq![';'] + escape(lines.last())
    }
}

/// The lines of `text`, given that `line` has been read of the line that
/// `text` continues. A backslash before a special character stands for that
/// character; any other backslash stands for itself. A `;` that is not
/// escaped ends the line.
pub open spec fn split_from(line: Seq<char>, text: Seq<char>) -> Seq<Seq<char>>
    decreases text.len(),
{
    if text.len() == 0 {
        seq![line]
    } else if text[0] == ';' {
        seq![line] + split_from(Seq::empty(), text.drop_first())
    } else if text[0] == '\\' && text.len() >= 2 && is_special(text[1]) {
        split_from(line.push(text[1]), text.skip(2))
    } else {
        split_from(line.push(text[0]), text.drop_first())
    }
}

/// The list that a stored string holds. Every string holds at least one
/// line: the empty string holds one empty line.
pub open spec fn split(text: Seq<char>) -> Seq<Seq<char>> {
    split_from(Seq::empty(), text)
}

/// Escaping goes character by character, so it distributes over
/// concatenation.
pub proof fn lemma_escape_concat(a: Seq<char>, b: Seq<char>)
    ensures
        escape(a + b) == escape(a) + escape(b),
    decreases b.len(),
{
    if b.len() == 0 {
        assert(a + b == a);
    } else {
        lemma_escape_concat(a, b.drop_last());
        assert((a + b).drop_last() == a + b.drop_last());
        assert((a + b).last() == b.last());
    }
}

/// The stored form of a list with at least two lines begins with the first
/// line, escaped, and a `;`.
pub proof fn lemma_join_first(first: Seq<char>, rest: Seq<Seq<char>>)
    requires
        rest.len() > 0,
    ensures
        join(seq![first] + rest) == escape(first) + seq![';'] + join(rest),
    decreases rest.len(),
{
    let all = seq![first] + rest;
    if rest.len() == 1 {
        assert(all.drop_last() == seq![first]);
        assert(all.last() == rest[0]);
        assert(join(all.drop_last()) == escape(first));
    } else {
        lemma_join_first(first, rest.drop_last());
        assert(all.drop_last() == seq![first] + rest.drop_last());
        assert(all.last() == rest.last());
    }
}

/// Reading an escaped line gives the line back, whatever text follows it.
pub proof fn lemma_split_escaped(line: Seq<char>, more: Seq<char>, text: Seq<char>)
    ensures
        split_from(line, escape(more) + text) == split_from(line + more, text),
    decreases more.len(),
{
    if more.len() == 0 {
        assert(escape(more) + text == text);
        assert(line + more == line);
    } else {
        let c = more[0];
        let tail = more.drop_first();
        assert(more == seq![c] + tail);
        lemma_escape_concat(seq![c], tail);
        assert(seq![c].drop_last() == Seq::<char>::empty());
        assert(escape(seq![c]) == escape_char(c)) by {
            assert(escape(seq![c].drop_last()) == Seq::<char>::empty());
            assert(Seq::<char>::empty() + escape_char(c) == escape_char(c));
        }
        let whole = escape(more) + text;
        assert(whole == escape_char(c) + (escape(tail) + text));
        lemma_split_escaped(line.push(c), tail, text);
        assert(line.push(c) + tail == line + more);
        if is_special(c) {
            assert(whole[0] == '\\');
            assert(whole[1] == c);
            assert(whole.skip(2) == escape(tail) + text);
        } else {
            assert(whole[0] == c);
            assert(whole.drop_first() == escape(tail) + text);
        }
    }
}

/// A list with at least one line is read back from its stored form
/// unchanged, whatever characters its lines hold. (The empty list is stored
/// as the empty string, which reads as one empty line.)
pub proof fn lemma_split_join(lines: Seq<Seq<char>>)
    requires
        lines.len() > 0,
    ensures
        split(join(lines)) == lines,
    decreases lines.len(),
{
    let first = lines[0];
    let rest = lines.drop_first();
    assert(lines == seq![first] + rest);
    if rest.len() == 0 {
        assert(join(lines) == escape(first));
        assert(escape(first) + Seq::<char>::empty() == escape(first));
        lemma_split_escaped(Seq::empty(), first, Seq::empty());
        assert(Seq::<char>::empty() + first == first);
    } else {
        lemma_join_first(first, rest);
        lemma_split_join(rest);
        let after = seq![';'] + join(rest);
        assert(join(lines) == escape(first) + after);
        lemma_split_escaped(Seq::empty(), first, after);
        assert(Seq::<char>::empty() + first == first);
        assert(after[0] == ';');
        assert(after.drop_first() == join(rest));
    }
}

/// Appends the escaped form of `line` to `out`.
fn push_escaped(out: &mut String, line: &str)
    ensures
        final(out)@ == old(out)@ + escape(line@),
{
    let ghost before = out@;
    for c in it: line.chars()
        invariant
            it.seq() == line@,
            out@ == before + escape(line@.take(it.index())),
    {
        proof {
            let upto = line@.take(it.index() + 1);
            assert(upto.drop_last() == line@.take(it.index()));
            assert(upto.last() == c);
        }
        if c == '\\' || c == ',' || c == ';' {
            push_char(out, '\\');
        }
        push_char(out, c);
    }
    assert(line@.take(line@.len() as int) == line@);
}

/// Writes a list of lines as one string: see [`join`].
pub fn join_strings(strings: Vec<String>) -> (joined: String)
    ensures
        joined@ == join(strings.deep_view()),
{
    let mut out = String::new();
    let ghost lines = strings.deep_view();
    let mut i: usize = 0;
    while i < strings.len()
        invariant
            i <= strings.len(),
            lines == strings.deep_view(),
            out@ == join(lines.take(i as int)),
        decreases strings.len() - i,
    {
        proof {
            let upto = lines.take(i + 1);
            assert(upto.drop_last() == lines.take(i as int));
            assert(upto.last() == strings[i as int]@);
        }
        if i > 0 {
            push_char(&mut out, ';');
        }
        push_escaped(&mut out, strings[i].as_str());
        i += 1;
    }
    assert(lines.take(strings.len() as int) == lines);
    out
}

/// Reads a stored list back: see [`split`]. The result is never empty.
pub fn split_string(string: String) -> (lines: Vec<String>)
    ensures
        lines.deep_view() == split(string@),
        lines.len() > 0,
{
    let text = crate::chars::to_chars(string.as_str());
    let mut lines: Vec<String> = Vec::new();
    let mut line = String::new();
    let mut i: usize = 0;
    proof {
        assert(text@.skip(0) == text@);
        assert(lines.deep_view() == Seq::<Seq<char>>::empty());
        assert(lines.deep_view() + split_from(line@, text@) == split_from(line@, text@));
    }
    while i < text.len()
        invariant
            i <= text.len(),
            text@ == string@,
            split(string@) == lines.deep_view() + split_from(line@, text@.skip(i as int)),
        decreases text.len() - i,
    {
        let ghost rest = text@.skip(i as int);
        let ghost done = lines.deep_view();
        let c = text[i];
        assert(rest[0] == c);
        if c == ';' {
            lines.push(line);
            line = String::new();
            i += 1;
            proof {
                assert(rest.drop_first() == text@.skip(i as int));
                assert(lines.deep_view() == done + seq![lines[lines.len() - 1]@]);
            }
        } else if c == '\\' && i + 1 < text.len() && (text[i + 1] == '\\' || text[i + 1] == ','
            || text[i + 1] == ';') {
            assert(rest[1] == text[i + 1]);
            push_char(&mut line, text[i + 1]);
            i += 2;
            assert(rest.skip(2) == text@.skip(i as int));
        } else {
            assert(c == '\\' && rest.len() >= 2 ==> rest[1] == text[i + 1]);
            push_char(&mut line, c);
            i += 1;
            assert(rest.drop_first() == text@.skip(i as int));
        }
    }
    let ghost done = lines.deep_view();
    lines.push(line);
    assert(lines.deep_view() == done + seq![lines[lines.len() - 1]@]);
    lines
}

} // verus!
