use vstd::prelude::*;

use crate::render::{
    header_text, meaning_texts, rows_texts, row_texts, symbol_of, MeaningRowView,
};
use crate::samples::{example_texts, example_texts_of_segments, segments_from, separator_at};

verus! {

/// A lookup whose query returns no row prints the header line and nothing else.
pub proof fn lemma_no_rows_header_only(word: Seq<char>, include_examples: bool)
    ensures
        meaning_texts(word, Seq::empty(), include_examples) == seq![header_text(word)],
{
    assert(meaning_texts(word, Seq::empty(), include_examples) =~= seq![header_text(word)]);
}

/// A lookup that returns one noun sense, with no examples shown, prints the
/// header and then exactly the line `"[n] <definition>"`.
pub proof fn lemma_single_noun_sense(
    word: Seq<char>,
    definition: Seq<char>,
    examples: Option<Seq<char>>,
    include_examples: bool,
)
    requires
        !include_examples || examples is None,
    ensures
        meaning_texts(
            word,
            seq![MeaningRowView { pos: Some(seq!['n']), definition, examples }],
            include_examples,
        ) == seq![header_text(word), "[n] "@ + definition],
{
    reveal_strlit("[n] ");
    reveal_strlit("[n]");
    reveal_strlit(" ");
    let row = MeaningRowView { pos: Some(seq!['n']), definition, examples };
    let rows = seq![row];
    assert(rows.drop_last() =~= Seq::<MeaningRowView>::empty());
    assert("[n] "@ =~= "[n]"@ + " "@);
    assert(row_texts(row, include_examples) =~= seq!["[n] "@ + definition]);
    assert(rows.last() == row);
    assert(rows_texts(rows, include_examples) == rows_texts(
        Seq::empty(),
        include_examples,
    ) + row_texts(row, include_examples));
    assert(meaning_texts(word, rows, include_examples) =~= seq![
        header_text(word),
        "[n] "@ + definition,
    ]);
}

/// Rows are printed in the order the query delivers them: the output for
/// `first` followed by `second` is the output for `first`, then the lines of
/// the rows of `second`.
pub proof fn lemma_rows_in_order(
    word: Seq<char>,
    first: Seq<MeaningRowView>,
    second: Seq<MeaningRowView>,
    include_examples: bool,
)
    ensures
        meaning_texts(word, first + second, include_examples) == meaning_texts(
            word,
            first,
            include_examples,
        ) + rows_texts(second, include_examples),
    decreases second.len(),
{
    if second.len() == 0 {
        assert(first + second =~= first);
        assert(meaning_texts(word, first, include_examples) + rows_texts(second, include_examples)
            =~= meaning_texts(word, first, include_examples));
    } else {
        let shorter = second.drop_last();
        lemma_rows_in_order(word, first, shorter, include_examples);
        assert((first + second).drop_last() =~= first + shorter);
        assert((first + second).last() == second.last());
        let h = seq![header_text(word)];
        let tail = row_texts(second.last(), include_examples);
        assert(rows_texts(first + second, include_examples) == rows_texts(
            first + shorter,
            include_examples,
        ) + tail);
        assert(rows_texts(second, include_examples) == rows_texts(shorter, include_examples)
            + tail);
        assert(h + (rows_texts(first + shorter, include_examples) + tail) =~= (h + rows_texts(
            first + shorter,
            include_examples,
        )) + tail);
        assert(meaning_texts(word, first, include_examples) + (rows_texts(
            shorter,
            include_examples,
        ) + tail) =~= (meaning_texts(word, first, include_examples) + rows_texts(
            shorter,
            include_examples,
        )) + tail);
        assert(meaning_texts(word, first + second, include_examples) =~= meaning_texts(
            word,
            first,
            include_examples,
        ) + rows_texts(second, include_examples));
    }
}

/// A part-of-speech code other than `n`, `v`, `a`, `s` and `r` is shown as `"[?]"`.
pub proof fn lemma_unknown_code(pos: Seq<char>)
    requires
        pos != seq!['n'],
        pos != seq!['v'],
        pos != seq!['a'],
        pos != seq!['s'],
        pos != seq!['r'],
    ensures
        symbol_of(pos) == "[?]"@,
{
}

/// An empty segment, wherever it stands among the segments, prints no line.
pub proof fn lemma_empty_segment_prints_nothing(before: Seq<Seq<char>>, after: Seq<Seq<char>>)
    ensures
        example_texts_of_segments(before + seq![Seq::empty()] + after)
            == example_texts_of_segments(before + after),
    decreases after.len(),
{
    let with_empty = before + seq![Seq::<char>::empty()] + after;
    if after.len() == 0 {
        assert(with_empty.drop_last() =~= before);
        assert(before + after =~= before);
    } else {
        let shorter = after.drop_last();
        lemma_empty_segment_prints_nothing(before, shorter);
        assert(with_empty.drop_last() =~= before + seq![Seq::<char>::empty()] + shorter);
        assert(with_empty.last() == after.last());
        assert((before + after).drop_last() =~= before + shorter);
        assert((before + after).last() == after.last());
    }
}

proof fn lemma_segments_from_trailing_separator(s: Seq<char>, cur: Seq<char>)
    ensures
        segments_from(s + seq![';', ' '], cur) == segments_from(s, cur).push(Seq::empty()),
    decreases s.len(),
{
    let sep = seq![';', ' '];
    let t = s + sep;
    if s.len() == 0 {
        assert(t =~= sep);
        assert(t.skip(2) =~= Seq::<char>::empty());
        assert(separator_at(t, 0));
        assert(segments_from(t.skip(2), Seq::empty()) == seq![Seq::<char>::empty()]);
        assert(segments_from(t, cur) =~= seq![cur, Seq::empty()]);
    } else if s.len() >= 2 && s[0] == ';' && s[1] == ' ' {
        assert(t.skip(2) =~= s.skip(2) + sep);
        lemma_segments_from_trailing_separator(s.skip(2), Seq::empty());
        assert(segments_from(t, cur) =~= segments_from(s, cur).push(Seq::empty()));
    } else {
        assert(t[0] == s[0]);
        assert(t.skip(1) =~= s.skip(1) + sep);
        lemma_segments_from_trailing_separator(s.skip(1), cur.push(s[0]));
    }
}

/// A trailing separator `"; "` only adds an empty segment, which prints no line.
pub proof fn lemma_trailing_separator_adds_no_line(examples: Seq<char>)
    ensures
        example_texts(examples + "; "@) == example_texts(examples),
{
    reveal_strlit("; ");
    assert("; "@ =~= seq![';', ' ']);
    lemma_segments_from_trailing_separator(examples, Seq::empty());
    let segs = segments_from(examples, Seq::empty());
    assert(segs.push(Seq::empty()).drop_last() =~= segs);
    assert(example_texts_of_segments(segs.push(Seq::empty())) == example_texts_of_segments(segs));
}

} // verus!
