use vstd::prelude::*;

verus! {

/// The views of a sequence of strings.
pub open spec fn texts(v: Seq<String>) -> Seq<Seq<char>> {
    v.map_values(|l: String| l@)
}

/// True when the separator `"; "` starts at index `i` of `s`.
pub open spec fn separator_at(s: Seq<char>, i: int) -> bool {
    0 <= i && i + 1 < s.len() && s[i] == ';' && s[i + 1] == ' '
}

/// Splits `s` at each separator `"; "`, reading from the left, where `cur`
/// is the part of the current segment that was read before `s`.
pub open spec fn segments_from(s: Seq<char>, cur: Seq<char>) -> Seq<Seq<char>>
    decreases s.len(),
{
    if s.len() == 0 {
        seq![cur]
    } else if separator_at(s, 0) {
        seq![cur] + segments_from(s.skip(2), Seq::empty())
    } else {
        segments_from(s.skip(1), cur.push(s[0]))
    }
}

/// The segments of `s` between the separators `"; "`, in order. Empty
/// segments are kept, and an empty `s` has one empty segment.
pub open spec fn segments(s: Seq<char>) -> Seq<Seq<char>> {
    segments_from(s, Seq::empty())
}

/// `seg` without one leading and one trailing double quote, where present.
pub open spec fn unquoted(seg: Seq<char>) -> Seq<char> {
    let front = if seg.len() > 0 && seg[0] == '"' {
        seg.skip(1)
    } else {
        seg
    };
    if front.len() > 0 && front.last() == '"' {
        front.drop_last()
    } else {
        front
    }
}

/// The printed line for one sample: six spaces, then the sample in quotes.
pub open spec fn example_text(seg: Seq<char>) -> Seq<char> {
    "      \""@ + unquoted(seg) + "\""@
}

/// One line for each non-empty segment, in order.
pub open spec fn example_texts_of_segments(segs: Seq<Seq<char>>) -> Seq<Seq<char>>
    decreases segs.len(),
{
    if segs.len() == 0 {
        Seq::empty()
    } else {
        let earlier = example_texts_of_segments(segs.drop_last());
        if segs.last().len() == 0 {
            earlier
        } else {
            earlier.push(example_text(segs.last()))
        }
    }
}

/// The lines printed for an aggregated examples column.
pub open spec fn example_texts(examples: Seq<char>) -> Seq<Seq<char>> {
    example_texts_of_segments(segments(examples))
}

/// Removes one leading and one trailing double quote from `seg`, where present.
pub fn strip_quotes(seg: &str) -> (r: &str)
    ensures
        r@ == unquoted(seg@),
{
    let n = seg.unicode_len();
    let mut from: usize = 0;
    if n > 0 && seg.get_char(0) == '"' {
        from = 1;
    }
    let mut to: usize = n;
    if to > from && seg.get_char(n - 1) == '"' {
        to = n - 1;
    }
    let r = seg.substring_char(from, to);
    proof {
        let front = if seg@.len() > 0 && seg@[0] == '"' {
            seg@.skip(1)
        } else {
            seg@
        };
        assert(front =~= seg@.subrange(from as int, n as int));
        if to < n {
            assert(front.drop_last() =~= r@);
        } else {
            assert(front =~= r@);
        }
    }
    r
}

/// Formats the printed line for one sample segment.
pub fn example_line(seg: &str) -> (line: String)
    ensures
        line@ == example_text(seg@),
{
    let mut line = String::from_str("      \"");
    line.append(strip_quotes(seg));
    line.append("\"");
    line
}

/// Appends the line for `seg` to `lines`, unless `seg` is empty.
fn push_example_line(lines: &mut Vec<String>, seg: &str)
    ensures
        texts(final(lines)@) == (if seg@.len() == 0 {
            texts(old(lines)@)
        } else {
            texts(old(lines)@).push(example_text(seg@))
        }),
{
    if seg.unicode_len() > 0 {
        let line = example_line(seg);
        lines.push(line);
        assert(texts(lines@) =~= texts(old(lines)@).push(example_text(seg@)));
    }
}

proof fn lemma_example_texts_push(segs: Seq<Seq<char>>, seg: Seq<char>)
    ensures
        example_texts_of_segments(segs.push(seg)) == (if seg.len() == 0 {
            example_texts_of_segments(segs)
        } else {
            example_texts_of_segments(segs).push(example_text(seg))
        }),
{
    assert(segs.push(seg).drop_last() =~= segs);
}

/// Splits an aggregated examples column at each `"; "`, drops the empty
/// segments, and formats each remaining one as a printed line, in order.
pub fn example_lines(examples: &str) -> (lines: Vec<String>)
    ensures
        texts(lines@) == example_texts(examples@),
{
    let ghost s = examples@;
    let n = examples.unicode_len();
    let mut lines: Vec<String> = Vec::new();
    let ghost mut segs: Seq<Seq<char>> = Seq::empty();
    let mut start: usize = 0;
    let mut i: usize = 0;
    assert(s.skip(0) =~= s);
    assert(s.subrange(0, 0) =~= Seq::<char>::empty());
    while i < n
        invariant
            n == s.len(),
            s == examples@,
            start <= i <= n,
            segs + segments_from(s.skip(i as int), s.subrange(start as int, i as int)) == segments(s),
            texts(lines@) == example_texts_of_segments(segs),
        decreases n - i,
    {
        let ghost rest = s.skip(i as int);
        let ghost cur = s.subrange(start as int, i as int);
        if examples.get_char(i) == ';' && i + 1 < n && examples.get_char(i + 1) == ' ' {
            let seg = examples.substring_char(start, i);
            push_example_line(&mut lines, seg);
            proof {
                assert(separator_at(rest, 0));
                assert(rest.skip(2) =~= s.skip(i + 2));
                assert(s.subrange(i + 2, i + 2) =~= Seq::<char>::empty());
                assert(segs + (seq![cur] + segments_from(rest.skip(2), Seq::empty()))
                    =~= segs.push(cur) + segments_from(rest.skip(2), Seq::empty()));
                lemma_example_texts_push(segs, cur);
                segs = segs.push(cur);
            }
            i = i + 2;
            start = i;
        } else {
            proof {
                assert(!separator_at(rest, 0));
                assert(rest.skip(1) =~= s.skip(i + 1));
                assert(cur.push(rest[0]) =~= s.subrange(start as int, i + 1));
            }
            i = i + 1;
        }
    }
    let seg = examples.substring_char(start, n);
    push_example_line(&mut lines, seg);
    proof {
        let cur = s.subrange(start as int, n as int);
        assert(s.skip(n as int) =~= Seq::<char>::empty());
        assert(segs + seq![cur] =~= segs.push(cur));
        lemma_example_texts_push(segs, cur);
    }
    lines
}

} // verus!
