//! Splitting an excerpt of text into the lines that are shown, each followed by a break.
use vstd::prelude::*;

verus! {

broadcast use vstd::string::group_string_axioms;

/// The pieces of `s` between its newline characters, in order: there is always one
/// more piece than there are newlines, and no piece holds a newline.
pub open spec fn newline_segments(s: Seq<char>) -> Seq<Seq<char>>
    decreases s.len(),
{
    if s.len() == 0 {
        seq![Seq::empty()]
    } else {
        let before = newline_segments(s.drop_last());
        if s.last() == '\n' {
            before.push(Seq::empty())
        } else {
            before.update(before.len() - 1, before.last().push(s.last()))
        }
    }
}

/// A line that was ended by a newline loses one carriage return before it.
pub open spec fn strip_carriage_return(line: Seq<char>) -> Seq<char> {
    if line.len() > 0 && line.last() == '\r' {
        line.drop_last()
    } else {
        line
    }
}

/// The lines of a text: it is split at `\n` and at `\r\n`, the line endings are not part
/// of the lines, and the last line ending is optional (an empty text has no line).
pub open spec fn text_lines(s: Seq<char>) -> Seq<Seq<char>> {
    let segments = newline_segments(s);
    let ended = segments.drop_last().map_values(|l: Seq<char>| strip_carriage_return(l));
    if segments.last().len() == 0 {
        ended
    } else {
        ended.push(segments.last())
    }
}

/// The first `count` lines of `s`, or all of them where it has fewer.
pub open spec fn first_lines(s: Seq<char>, count: nat) -> Seq<Seq<char>> {
    if count < text_lines(s).len() {
        text_lines(s).take(count as int)
    } else {
        text_lines(s)
    }
}

/// Every text has at least one newline segment.
pub proof fn lemma_segments_nonempty(s: Seq<char>)
    ensures
        newline_segments(s).len() >= 1,
    decreases s.len(),
{
    if s.len() > 0 {
        lemma_segments_nonempty(s.drop_last());
    }
}

/// The segments that a prefix of a text has completed stay in every longer prefix.
proof fn lemma_segments_prefix(s: Seq<char>, i: int, j: int)
    requires
        0 <= i <= j <= s.len(),
    ensures
        newline_segments(s.take(i)).len() <= newline_segments(s.take(j)).len(),
        forall|k: int|
            0 <= k < newline_segments(s.take(i)).len() - 1 ==> #[trigger] newline_segments(
                s.take(j),
            )[k] == newline_segments(s.take(i))[k],
    decreases j - i,
{
    if i < j {
        lemma_segments_prefix(s, i, j - 1);
        assert(s.take(j).drop_last() =~= s.take(j - 1));
        lemma_segments_nonempty(s.take(j - 1));
    }
}

/// No newline segment holds a newline.
proof fn lemma_segments_have_no_newline(s: Seq<char>)
    ensures
        forall|k: int, j: int|
            0 <= k < newline_segments(s).len() && 0 <= j < newline_segments(s)[k].len()
                ==> #[trigger] newline_segments(s)[k][j] != '\n',
    decreases s.len(),
{
    lemma_segments_nonempty(s);
    if s.len() > 0 {
        lemma_segments_have_no_newline(s.drop_last());
        lemma_segments_nonempty(s.drop_last());
        let before = newline_segments(s.drop_last());
        if s.last() != '\n' {
            let after = newline_segments(s);
            assert forall|k: int, j: int|
                0 <= k < after.len() && 0 <= j < after[k].len() implies #[trigger] after[k][j]
                != '\n' by {
                if k == before.len() - 1 && j == before.last().len() {
                } else if k == before.len() - 1 {
                    assert(after[k][j] == before[k][j]);
                }
            }
        }
    }
}

/// A line of a text never holds a newline: the lines are split at every one of them.
pub proof fn law_lines_hold_no_newline(s: Seq<char>)
    ensures
        forall|k: int, j: int|
            0 <= k < text_lines(s).len() && 0 <= j < text_lines(s)[k].len()
                ==> #[trigger] text_lines(s)[k][j] != '\n',
{
    lemma_segments_have_no_newline(s);
    lemma_segments_nonempty(s);
    let segments = newline_segments(s);
    assert forall|k: int, j: int|
        0 <= k < text_lines(s).len() && 0 <= j < text_lines(s)[k].len() implies #[trigger] text_lines(
        s,
    )[k][j] != '\n' by {
        if k < segments.len() - 1 {
            assert(text_lines(s)[k] == strip_carriage_return(segments[k]));
            assert(text_lines(s)[k][j] == segments[k][j]);
        } else {
            assert(text_lines(s)[k] == segments[k]);
        }
    }
}

/// Where a text does not end with a newline, its last segment holds its last character.
proof fn lemma_last_segment_extends(s: Seq<char>, c: char)
    requires
        c != '\n',
    ensures
        newline_segments(s.push(c)) == newline_segments(s).update(
            newline_segments(s).len() - 1,
            newline_segments(s).last().push(c),
        ),
        newline_segments(s.push(c)).len() == newline_segments(s).len(),
        newline_segments(s.push(c)).last() == newline_segments(s).last().push(c),
{
    assert(s.push(c).drop_last() =~= s);
    lemma_segments_nonempty(s);
}

/// Ending a text with a line ending (`\r\n`) does not change its lines, where the text
/// is not empty and does not already end with a newline.
pub proof fn law_crlf_terminator_adds_no_line(s: Seq<char>)
    requires
        s.len() > 0,
        s.last() != '\n',
    ensures
        text_lines(s + seq!['\r', '\n']) == text_lines(s),
{
    let t = s.push('\r');
    assert(s + seq!['\r', '\n'] =~= t.push('\n'));
    assert(t.push('\n').drop_last() =~= t);
    assert(s.drop_last().push(s.last()) =~= s);
    lemma_last_segment_extends(s.drop_last(), s.last());
    lemma_last_segment_extends(s, '\r');
    lemma_segments_nonempty(s);
    let segs = newline_segments(s);
    let longer = newline_segments(t.push('\n'));
    assert(longer == newline_segments(t).push(Seq::<char>::empty()));
    assert(longer.drop_last() =~= newline_segments(t));
    assert(strip_carriage_return(segs.last().push('\r')) =~= segs.last());
    assert(text_lines(t.push('\n')) =~= text_lines(s));
}

/// Ending a text with a newline does not change its lines, where the text is not empty
/// and ends with neither a newline nor a carriage return.
pub proof fn law_lf_terminator_adds_no_line(s: Seq<char>)
    requires
        s.len() > 0,
        s.last() != '\n',
        s.last() != '\r',
    ensures
        text_lines(s.push('\n')) == text_lines(s),
{
    assert(s.push('\n').drop_last() =~= s);
    assert(s.drop_last().push(s.last()) =~= s);
    lemma_last_segment_extends(s.drop_last(), s.last());
    lemma_segments_nonempty(s);
    let segs = newline_segments(s);
    let longer = newline_segments(s.push('\n'));
    assert(longer.drop_last() =~= segs);
    assert(strip_carriage_return(segs.last()) =~= segs.last());
    assert(text_lines(s.push('\n')) =~= text_lines(s));
}

/// A text without newlines is a single newline segment: itself.
proof fn lemma_segments_without_newline(s: Seq<char>)
    requires
        forall|i: int| 0 <= i < s.len() ==> #[trigger] s[i] != '\n',
    ensures
        newline_segments(s) == seq![s],
    decreases s.len(),
{
    if s.len() > 0 {
        lemma_segments_without_newline(s.drop_last());
        assert(s[s.len() - 1] != '\n');
        assert(s.drop_last().push(s.last()) =~= s);
        assert(newline_segments(s) =~= seq![s]);
    } else {
        assert(s =~= Seq::<char>::empty());
        assert(newline_segments(s) =~= seq![s]);
    }
}

/// The segments of a text that has a newline after `p` are those of `p`, followed by
/// those of what follows the newline.
proof fn lemma_segments_split(p: Seq<char>, q: Seq<char>)
    ensures
        newline_segments(p.push('\n') + q) == newline_segments(p) + newline_segments(q),
    decreases q.len(),
{
    lemma_segments_nonempty(p);
    lemma_segments_nonempty(q);
    if q.len() == 0 {
        assert(p.push('\n') + q =~= p.push('\n'));
        assert(p.push('\n').drop_last() =~= p);
        assert(newline_segments(p.push('\n')) =~= newline_segments(p) + newline_segments(q));
    } else {
        let q0 = q.drop_last();
        let c = q.last();
        lemma_segments_split(p, q0);
        lemma_segments_nonempty(q0);
        assert((p.push('\n') + q).drop_last() =~= p.push('\n') + q0);
        let left = newline_segments(p);
        let right0 = newline_segments(q0);
        if c == '\n' {
            assert(newline_segments(p.push('\n') + q) =~= left + newline_segments(q));
        } else {
            assert((left + right0).update(
                (left + right0).len() - 1,
                (left + right0).last().push(c),
            ) =~= left + right0.update(right0.len() - 1, right0.last().push(c)));
            assert(newline_segments(p.push('\n') + q) =~= left + newline_segments(q));
        }
    }
}

/// The empty text has no line.
pub proof fn law_empty_text_has_no_line()
    ensures
        text_lines(Seq::<char>::empty()).len() == 0,
{
}

/// A non-empty text without a newline is one line: the whole text, kept whole.
pub proof fn law_text_without_newline_is_one_line(s: Seq<char>)
    requires
        s.len() > 0,
        forall|i: int| 0 <= i < s.len() ==> #[trigger] s[i] != '\n',
    ensures
        text_lines(s) == seq![s],
{
    lemma_segments_without_newline(s);
    let segments = newline_segments(s);
    assert(segments.drop_last() =~= Seq::<Seq<char>>::empty());
    assert(segments.drop_last().map_values(|l: Seq<char>| strip_carriage_return(l))
        =~= Seq::<Seq<char>>::empty());
    assert(text_lines(s) =~= seq![s]);
}

/// The lines of a text up to its first `\n` and of what follows: the first line is the
/// text before the newline, whole, where it does not end with a carriage return, and the
/// rest are the lines of what follows.
pub proof fn law_first_line_ends_at_newline(first: Seq<char>, rest: Seq<char>)
    requires
        forall|i: int| 0 <= i < first.len() ==> #[trigger] first[i] != '\n',
        first.len() == 0 || first.last() != '\r',
    ensures
        text_lines(first.push('\n') + rest) == seq![first] + text_lines(rest),
{
    lemma_segments_without_newline(first);
    lemma_segments_split(first, rest);
    lemma_segments_nonempty(rest);
    let segments = newline_segments(first.push('\n') + rest);
    let tail = newline_segments(rest);
    assert(segments =~= seq![first] + tail);
    assert(segments.drop_last() =~= seq![first] + tail.drop_last());
    assert(segments.last() == tail.last());
    assert(strip_carriage_return(first) == first);
    assert(segments.drop_last().map_values(|l: Seq<char>| strip_carriage_return(l)) =~= seq![
        first,
    ] + tail.drop_last().map_values(|l: Seq<char>| strip_carriage_return(l)));
    assert(text_lines(first.push('\n') + rest) =~= seq![first] + text_lines(rest));
}

/// The lines of a text up to its first `\r\n` and of what follows: the first line is the
/// text before the line ending, whole, and the rest are the lines of what follows.
pub proof fn law_first_line_ends_at_crlf(first: Seq<char>, rest: Seq<char>)
    requires
        forall|i: int| 0 <= i < first.len() ==> #[trigger] first[i] != '\n',
    ensures
        text_lines(first + seq!['\r', '\n'] + rest) == seq![first] + text_lines(rest),
{
    let with_cr = first.push('\r');
    assert(first + seq!['\r', '\n'] + rest =~= with_cr.push('\n') + rest);
    assert forall|i: int| 0 <= i < with_cr.len() implies #[trigger] with_cr[i] != '\n' by {
        if i < first.len() {
            assert(with_cr[i] == first[i]);
        }
    }
    lemma_segments_without_newline(with_cr);
    lemma_segments_split(with_cr, rest);
    lemma_segments_nonempty(rest);
    let segments = newline_segments(with_cr.push('\n') + rest);
    let tail = newline_segments(rest);
    assert(segments =~= seq![with_cr] + tail);
    assert(segments.drop_last() =~= seq![with_cr] + tail.drop_last());
    assert(segments.last() == tail.last());
    assert(strip_carriage_return(with_cr) =~= first);
    assert(segments.drop_last().map_values(|l: Seq<char>| strip_carriage_return(l)) =~= seq![
        first,
    ] + tail.drop_last().map_values(|l: Seq<char>| strip_carriage_return(l)));
    assert(text_lines(with_cr.push('\n') + rest) =~= seq![first] + text_lines(rest));
}

/// As many lines are shown as are allowed, or all of the text's lines where it has
/// fewer; and they are the text's first lines, in order.
pub proof fn law_shown_line_count(s: Seq<char>, count: nat)
    ensures
        first_lines(s, count).len() == if count < text_lines(s).len() {
            count
        } else {
            text_lines(s).len()
        },
        forall|k: int|
            0 <= k < first_lines(s, count).len() ==> #[trigger] first_lines(s, count)[k]
                == text_lines(s)[k],
{
}

/// At most `count` lines are shown, and they are the text's first lines, in order.
pub proof fn law_shown_lines_are_a_prefix(s: Seq<char>, count: nat)
    ensures
        first_lines(s, count).len() <= count,
        first_lines(s, count).len() <= text_lines(s).len(),
        forall|k: int|
            0 <= k < first_lines(s, count).len() ==> #[trigger] first_lines(s, count)[k]
                == text_lines(s)[k],
{
}

/// The characters of a text, in order.
fn chars_of(text: &str) -> (chars: Vec<char>)
    ensures
        chars@ == text@,
{
    let mut chars: Vec<char> = Vec::new();
    for c in it: text.chars()
        invariant
            it.seq() == text@,
            chars@ == it.seq().take(it.index()),
    {
        chars.push(c);
    }
    chars
}

/// Breaks `excerpt` into its lines and keeps the first `lines` of them: the lines that
/// are shown, each followed by a line break.
pub fn line_breaks(excerpt: &str, lines: usize) -> (shown: Vec<String>)
    ensures
        shown@.map_values(|l: String| l@) == first_lines(excerpt@, lines as nat),
{
    let ghost s = excerpt@;
    let chars = chars_of(excerpt);
    let n = chars.len();
    let mut shown: Vec<String> = Vec::new();
    if lines == 0 {
        assert(shown@.map_values(|l: String| l@) =~= first_lines(s, 0));
        return shown;
    }
    let mut start: usize = 0;
    let mut i: usize = 0;
    assert(s.take(0) =~= Seq::<char>::empty());
    while i < n
        invariant
            n == s.len(),
            s == excerpt@,
            chars@ == s,
            0 <= start <= i <= n,
            0 < lines,
            shown.len() < lines,
            newline_segments(s.take(i as int)).len() == shown.len() + 1,
            newline_segments(s.take(i as int)).last() == s.subrange(start as int, i as int),
            shown@.map_values(|l: String| l@) == newline_segments(
                s.take(i as int),
            ).drop_last().map_values(|l: Seq<char>| strip_carriage_return(l)),
        decreases n - i,
    {
        let c = chars[i];
        let ghost before = newline_segments(s.take(i as int));
        assert(s.take(i + 1).drop_last() =~= s.take(i as int));
        if c == '\n' {
            let line = if i > start && chars[i - 1] == '\r' {
                excerpt.substring_char(start, i - 1)
            } else {
                excerpt.substring_char(start, i)
            };
            assert(line@ == strip_carriage_return(s.subrange(start as int, i as int)));
            let ghost old_view = shown@.map_values(|l: String| l@);
            shown.push(line.to_owned());
            assert(shown@.map_values(|l: String| l@) =~= old_view.push(line@));
            start = i + 1;
            i = i + 1;
            let ghost after = newline_segments(s.take(i as int));
            assert(after == before.push(Seq::<char>::empty()));
            assert(after.drop_last() =~= before);
            assert(before =~= before.drop_last().push(before.last()));
            assert(before.map_values(|l: Seq<char>| strip_carriage_return(l)) =~= before.drop_last().map_values(
                |l: Seq<char>| strip_carriage_return(l),
            ).push(strip_carriage_return(before.last())));
            assert(shown@.map_values(|l: String| l@) =~= after.drop_last().map_values(
                |l: Seq<char>| strip_carriage_return(l),
            ));
            assert(s.subrange(start as int, i as int) =~= Seq::<char>::empty());
            if shown.len() == lines {
                proof {
                    lemma_segments_prefix(s, i as int, n as int);
                    assert(s.take(n as int) =~= s);
                    let all = newline_segments(s);
                    let ended = all.drop_last().map_values(
                        |l: Seq<char>| strip_carriage_return(l),
                    );
                    assert(text_lines(s).len() >= lines);
                    assert forall|k: int| 0 <= k < lines implies #[trigger] text_lines(s)[k]
                        == shown@.map_values(|l: String| l@)[k] by {
                        assert(text_lines(s)[k] == ended[k]);
                        assert(all[k] == after[k]);
                    }
                    assert(shown@.map_values(|l: String| l@) =~= first_lines(s, lines as nat));
                }
                return shown;
            }
        } else {
            i = i + 1;
            let ghost after = newline_segments(s.take(i as int));
            assert(after == before.update(
                before.len() - 1,
                before.last().push(c),
            ));
            assert(after.drop_last() =~= before.drop_last());
            assert(after.last() =~= s.subrange(start as int, i as int));
        }
    }
    assert(s.take(n as int) =~= s);
    let ghost all = newline_segments(s);
    if start < n {
        let rest = excerpt.substring_char(start, n);
        shown.push(rest.to_owned());
        assert(shown@.map_values(|l: String| l@) =~= text_lines(s));
    } else {
        assert(shown@.map_values(|l: String| l@) =~= text_lines(s));
    }
    shown
}

} // verus!
