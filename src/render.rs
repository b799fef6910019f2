use vstd::prelude::*;

use crate::samples::{example_lines, example_texts, texts};

verus! {

/// One result row of the lookup query.
pub struct MeaningRow {
    /// Part-of-speech code of the synset (`None` when the column is NULL).
    pub pos: Option<String>,
    /// Definition of the synset.
    pub definition: String,
    /// Sample sentences joined with `"; "`, or `None` when there is none.
    pub examples: Option<String>,
}

/// The mathematical model of a `MeaningRow`.
pub struct MeaningRowView {
    pub pos: Option<Seq<char>>,
    pub definition: Seq<char>,
    pub examples: Option<Seq<char>>,
}

/// The view of an optional string.
pub open spec fn opt_text(s: Option<String>) -> Option<Seq<char>> {
    match s {
        Some(t) => Some(t@),
        None => None,
    }
}

impl View for MeaningRow {
    type V = MeaningRowView;

    open spec fn view(&self) -> MeaningRowView {
        MeaningRowView {
            pos: opt_text(self.pos),
            definition: self.definition@,
            examples: opt_text(self.examples),
        }
    }
}

/// The models of a sequence of rows.
pub open spec fn row_views(rows: Seq<MeaningRow>) -> Seq<MeaningRowView> {
    rows.map_values(|r: MeaningRow| r@)
}

/// Display symbol of a part-of-speech code.
pub open spec fn symbol_of(pos: Seq<char>) -> Seq<char> {
    if pos == seq!['n'] {
        "[n]"@
    } else if pos == seq!['v'] {
        "[v]"@
    } else if pos == seq!['a'] || pos == seq!['s'] {
        "[adj]"@
    } else if pos == seq!['r'] {
        "[adv]"@
    } else {
        "[?]"@
    }
}

/// Display symbol of a possibly missing part-of-speech code.
pub open spec fn opt_symbol_of(pos: Option<Seq<char>>) -> Seq<char> {
    match pos {
        Some(p) => symbol_of(p),
        None => "[?]"@,
    }
}

/// The header printed before the rows of a lookup.
pub open spec fn header_text(word: Seq<char>) -> Seq<char> {
    "\nMeanings of '"@ + word + "':"@
}

/// The line that shows a row's symbol and definition.
pub open spec fn definition_text(row: MeaningRowView) -> Seq<char> {
    opt_symbol_of(row.pos) + " "@ + row.definition
}

/// The lines printed for one row: its definition, then, when examples are
/// asked for and present, one line for each of them.
pub open spec fn row_texts(row: MeaningRowView, include_examples: bool) -> Seq<Seq<char>> {
    seq![definition_text(row)] + match row.examples {
        Some(e) if include_examples => example_texts(e),
        _ => Seq::empty(),
    }
}

/// The lines printed for a sequence of rows, in the rows' order.
pub open spec fn rows_texts(rows: Seq<MeaningRowView>, include_examples: bool) -> Seq<Seq<char>>
    decreases rows.len(),
{
    if rows.len() == 0 {
        Seq::empty()
    } else {
        rows_texts(rows.drop_last(), include_examples) + row_texts(rows.last(), include_examples)
    }
}

/// The whole output of a lookup: the header, then the lines of every row.
pub open spec fn meaning_texts(
    word: Seq<char>,
    rows: Seq<MeaningRowView>,
    include_examples: bool,
) -> Seq<Seq<char>> {
    seq![header_text(word)] + rows_texts(rows, include_examples)
}

/// Maps a part-of-speech code to its display symbol; an unknown code gives `"[?]"`.
pub fn pos_symbol(pos: &str) -> (r: &'static str)
    ensures
        r@ == symbol_of(pos@),
{
    proof {
        reveal_strlit("[n]");
        reveal_strlit("[v]");
        reveal_strlit("[adj]");
        reveal_strlit("[adv]");
        reveal_strlit("[?]");
    }
    if pos.unicode_len() != 1 {
        return "[?]";
    }
    let c = pos.get_char(0);
    assert(pos@ =~= seq![c]);
    if c == 'n' {
        "[n]"
    } else if c == 'v' {
        "[v]"
    } else if c == 'a' || c == 's' {
        "[adj]"
    } else if c == 'r' {
        "[adv]"
    } else {
        "[?]"
    }
}

/// Formats the header printed before the rows of a lookup of `word`.
pub fn header_line(word: &str) -> (line: String)
    ensures
        line@ == header_text(word@),
{
    let mut line = String::from_str("\nMeanings of '");
    line.append(word);
    line.append("':");
    line
}

/// Formats the line that shows a row's symbol and definition.
pub fn definition_line(row: &MeaningRow) -> (line: String)
    ensures
        line@ == definition_text(row@),
{
    let symbol = match &row.pos {
        Some(p) => pos_symbol(p.as_str()),
        None => "[?]",
    };
    let mut line = String::from_str(symbol);
    line.append(" ");
    line.append(row.definition.as_str());
    line
}

/// Formats the lines printed for one row.
pub fn row_lines(row: &MeaningRow, include_examples: bool) -> (lines: Vec<String>)
    ensures
        texts(lines@) == row_texts(row@, include_examples),
{
    let mut lines: Vec<String> = Vec::new();
    lines.push(definition_line(row));
    assert(texts(lines@) =~= seq![definition_text(row@)]);
    if include_examples {
        if let Some(e) = &row.examples {
            let mut more = example_lines(e.as_str());
            let ghost before = lines@;
            lines.append(&mut more);
            assert(texts(lines@) =~= texts(before) + example_texts(e@));
        }
    }
    assert(texts(lines@) =~= row_texts(row@, include_examples));
    lines
}

/// Formats the whole output of a lookup of `word` whose query returned
/// `rows`: the header, then the lines of each row in the order given.
pub fn render_meanings(
    word: &str,
    rows: &Vec<MeaningRow>,
    include_examples: bool,
) -> (lines: Vec<String>)
    ensures
        texts(lines@) == meaning_texts(word@, row_views(rows@), include_examples),
{
    let mut lines: Vec<String> = Vec::new();
    lines.push(header_line(word));
    let mut k: usize = 0;
    while k < rows.len()
        invariant
            k <= rows@.len(),
            texts(lines@) == seq![header_text(word@)] + rows_texts(
                row_views(rows@.take(k as int)),
                include_examples,
            ),
        decreases rows@.len() - k,
    {
        let mut more = row_lines(&rows[k], include_examples);
        let ghost before = lines@;
        let ghost added = more@;
        lines.append(&mut more);
        proof {
            let done = row_views(rows@.take(k as int));
            let next = row_views(rows@.take(k + 1));
            assert(next.drop_last() =~= done);
            assert(next.last() == rows@[k as int]@);
            assert(texts(lines@) =~= texts(before) + texts(added));
        }
        k = k + 1;
    }
    assert(rows@.take(rows@.len() as int) =~= rows@);
    lines
}

} // verus!
