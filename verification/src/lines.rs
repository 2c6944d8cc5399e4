//! Texts made of lines.
//!
//! A line here includes the line feed that ends it. The main fact is that a
//! text joined from lines has those lines and no others.

use vstd::prelude::*;

verus! {

/// No character of `text` is a line feed.
pub open spec fn on_one_line(text: Seq<char>) -> bool {
    forall|i: int| 0 <= i < text.len() ==> #[trigger] text[i] != '\n'
}

/// A line with its terminator: some text without a line feed, then a line feed.
pub open spec fn is_line(line: Seq<char>) -> bool {
    line.len() > 0 && line.last() == '\n' && on_one_line(line.drop_last())
}

/// Every one of `lines` is a line.
pub open spec fn all_lines(lines: Seq<Seq<char>>) -> bool {
    forall|i: int| 0 <= i < lines.len() ==> is_line(#[trigger] lines[i])
}

/// The lines, one after the other.
pub open spec fn joined(lines: Seq<Seq<char>>) -> Seq<char>
    decreases lines.len(),
{
    if lines.len() == 0 {
        Seq::empty()
    } else {
        joined(lines.drop_last()) + lines.last()
    }
}

/// Where the line with index `index` begins in the text joined from `lines`.
pub open spec fn offset(lines: Seq<Seq<char>>, index: int) -> int {
    joined(lines.take(index)).len() as int
}

/// `line` stands in `text` at position `at`, at the start of a line.
pub open spec fn line_at(text: Seq<char>, line: Seq<char>, at: int) -> bool {
    &&& 0 <= at
    &&& at + line.len() <= text.len()
    &&& text.subrange(at, at + line.len()) == line
    &&& (at == 0 || text[at - 1] == '\n')
}

/// `line`, which ends in a line feed, is one of the lines of `text`.
pub open spec fn has_line(text: Seq<char>, line: Seq<char>) -> bool {
    exists|at: int| line_at(text, line, at)
}

/// Joining two runs of lines joins their texts.
pub proof fn lemma_joined_concat(front: Seq<Seq<char>>, back: Seq<Seq<char>>)
    ensures
        joined(front + back) == joined(front) + joined(back),
    decreases back.len(),
{
    if back.len() > 0 {
        lemma_joined_concat(front, back.drop_last());
        assert((front + back).drop_last() =~= front + back.drop_last());
    }
}

/// Each of the lines stands in the joined text where it begins.
pub proof fn lemma_joined_holds_line(lines: Seq<Seq<char>>, index: int)
    requires
        0 <= index < lines.len(),
    ensures
        offset(lines, index) + lines[index].len() <= joined(lines).len(),
        joined(lines).subrange(
            offset(lines, index),
            offset(lines, index) + lines[index].len(),
        ) == lines[index],
    decreases lines.len(),
{
    if index < lines.len() - 1 {
        let front = lines.drop_last();
        lemma_joined_holds_line(front, index);
        assert(front.take(index) =~= lines.take(index));
    }
}

/// A position of the joined text at which a line starts is where one of the
/// lines begins.
pub proof fn lemma_line_start_is_offset(lines: Seq<Seq<char>>, at: int)
    requires
        all_lines(lines),
        0 <= at < joined(lines).len(),
        at == 0 || joined(lines)[at - 1] == '\n',
    ensures
        exists|index: int| 0 <= index < lines.len() && at == #[trigger] offset(lines, index),
    decreases lines.len(),
{
    let front = lines.drop_last();
    let last = lines.last();
    let split = joined(front).len() as int;
    if at < split {
        // The line starts among the lines before the last.
        assert forall|i: int| 0 <= i < front.len() implies is_line(#[trigger] front[i]) by {}
        lemma_line_start_is_offset(front, at);
        let index = choose|index: int|
            0 <= index < front.len() && at == #[trigger] offset(front, index);
        assert(front.take(index) =~= lines.take(index));
        assert(at == offset(lines, index));
    } else if at == split {
        // The line starts where the last line begins.
        assert(at == offset(lines, lines.len() - 1));
    } else {
        // The line would start inside the last line, behind a line feed that
        // the last line does not have there.
        assert(last.drop_last()[at - 1 - split] != '\n');
    }
}

/// A line that stands in the joined text where one of the lines begins is that
/// line.
pub proof fn lemma_line_at_offset(lines: Seq<Seq<char>>, index: int, line: Seq<char>)
    requires
        all_lines(lines),
        0 <= index < lines.len(),
        is_line(line),
        line_at(joined(lines), line, offset(lines, index)),
    ensures
        line == lines[index],
{
    let own = lines[index];
    lemma_joined_holds_line(lines, index);
    // Both lines begin at the same place, and each ends at its first line
    // feed: neither can be longer than the other.
    if line.len() < own.len() {
        assert(own.drop_last()[line.len() - 1] == '\n');
    } else if line.len() > own.len() {
        assert(line.drop_last()[own.len() - 1] == '\n');
    }
}

/// A text joined from lines has no lines but those: a line that it has is one
/// of them.
pub proof fn lemma_line_of_joined_is_member(lines: Seq<Seq<char>>, line: Seq<char>)
    requires
        all_lines(lines),
        is_line(line),
        has_line(joined(lines), line),
    ensures
        lines.contains(line),
{
    let at = choose|at: int| line_at(joined(lines), line, at);
    lemma_line_start_is_offset(lines, at);
    let index = choose|index: int| 0 <= index < lines.len() && at == #[trigger] offset(lines, index);
    lemma_line_at_offset(lines, index, line);
}

} // verus!
