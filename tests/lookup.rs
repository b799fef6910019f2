use word_meanings::query::{make_query, DEFINITIONS_QUERY, EXAMPLES_QUERY};
use word_meanings::render::{
    definition_line, header_line, pos_symbol, render_meanings, row_lines, MeaningRow,
};
use word_meanings::samples::{example_line, example_lines, strip_quotes};

fn row(pos: Option<&str>, definition: &str, examples: Option<&str>) -> MeaningRow {
    MeaningRow {
        pos: pos.map(|p| p.to_string()),
        definition: definition.to_string(),
        examples: examples.map(|e| e.to_string()),
    }
}

#[test]
fn no_senses_prints_only_header() {
    let lines = render_meanings("zzyzx", &vec![], false);
    assert_eq!(lines, vec!["\nMeanings of 'zzyzx':".to_string()]);
    let lines = render_meanings("zzyzx", &vec![], true);
    assert_eq!(lines, vec!["\nMeanings of 'zzyzx':".to_string()]);
}

#[test]
fn header_line_format() {
    assert_eq!(header_line("bank"), "\nMeanings of 'bank':");
    assert_eq!(header_line(""), "\nMeanings of '':");
}

#[test]
fn single_noun_sense() {
    let rows = vec![row(Some("n"), "a domesticated carnivorous mammal", None)];
    let lines = render_meanings("dog", &rows, false);
    assert_eq!(
        lines,
        vec![
            "\nMeanings of 'dog':".to_string(),
            "[n] a domesticated carnivorous mammal".to_string(),
        ]
    );
}

#[test]
fn rows_keep_query_order() {
    let rows = vec![
        row(Some("n"), "the act of running", None),
        row(Some("n"), "a score in baseball", None),
        row(Some("v"), "move fast by using one's feet", None),
        row(Some("v"), "stand as a candidate", None),
    ];
    let lines = render_meanings("run", &rows, false);
    assert_eq!(
        lines,
        vec![
            "\nMeanings of 'run':".to_string(),
            "[n] the act of running".to_string(),
            "[n] a score in baseball".to_string(),
            "[v] move fast by using one's feet".to_string(),
            "[v] stand as a candidate".to_string(),
        ]
    );
}

#[test]
fn query_orders_by_pos_then_sense() {
    assert!(DEFINITIONS_QUERY.contains("ORDER BY ld.posid, s.senseid;"));
    assert!(EXAMPLES_QUERY.contains("ORDER BY ld.posid, s.senseid;"));
    assert!(DEFINITIONS_QUERY.contains("GROUP BY ss.synsetid"));
    assert!(EXAMPLES_QUERY.contains("GROUP BY ss.synsetid"));
}

#[test]
fn make_query_picks_text_by_mode() {
    assert_eq!(make_query(false), DEFINITIONS_QUERY);
    assert_eq!(make_query(true), EXAMPLES_QUERY);
    assert!(!make_query(false).contains("GROUP_CONCAT"));
    assert!(make_query(true).contains("GROUP_CONCAT(sm.sample, '; ')"));
    assert!(make_query(true).contains("LEFT JOIN samples sm ON ss.synsetid = sm.synsetid"));
    assert!(make_query(false).contains("WHERE w.word = ?"));
    assert!(make_query(true).contains("WHERE w.word = ?"));
}

#[test]
fn pos_symbols() {
    assert_eq!(pos_symbol("n"), "[n]");
    assert_eq!(pos_symbol("v"), "[v]");
    assert_eq!(pos_symbol("a"), "[adj]");
    assert_eq!(pos_symbol("s"), "[adj]");
    assert_eq!(pos_symbol("r"), "[adv]");
}

#[test]
fn unknown_pos_renders_question_mark() {
    assert_eq!(pos_symbol("x"), "[?]");
    assert_eq!(pos_symbol(""), "[?]");
    assert_eq!(pos_symbol("nn"), "[?]");
    assert_eq!(pos_symbol("N"), "[?]");
    assert_eq!(definition_line(&row(Some("q"), "odd", None)), "[?] odd");
    assert_eq!(definition_line(&row(None, "no code", None)), "[?] no code");
    let lines = render_meanings("w", &vec![row(Some("zz"), "d", None)], true);
    assert_eq!(lines, vec!["\nMeanings of 'w':".to_string(), "[?] d".to_string()]);
}

#[test]
fn examples_are_split_and_unquoted() {
    let lines = example_lines("\"run fast\"; \"run away\"");
    assert_eq!(
        lines,
        vec!["      \"run fast\"".to_string(), "      \"run away\"".to_string()]
    );
}

#[test]
fn empty_segments_print_nothing() {
    assert_eq!(example_lines("\"a\"; "), vec!["      \"a\"".to_string()]);
    assert_eq!(
        example_lines("\"a\"; ; \"b\""),
        vec!["      \"a\"".to_string(), "      \"b\"".to_string()]
    );
    assert_eq!(example_lines("; \"a\""), vec!["      \"a\"".to_string()]);
    assert_eq!(example_lines(""), Vec::<String>::new());
    assert_eq!(example_lines("; ; "), Vec::<String>::new());
}

#[test]
fn separator_needs_semicolon_and_space() {
    assert_eq!(example_lines("a;b"), vec!["      \"a;b\"".to_string()]);
    assert_eq!(example_lines("a ;b"), vec!["      \"a ;b\"".to_string()]);
    assert_eq!(
        example_lines("a;; b"),
        vec!["      \"a;\"".to_string(), "      \"b\"".to_string()]
    );
}

#[test]
fn only_one_pair_of_quotes_is_stripped() {
    assert_eq!(strip_quotes("\"\"x\"\""), "\"x\"");
    assert_eq!(strip_quotes("\"x"), "x");
    assert_eq!(strip_quotes("x\""), "x");
    assert_eq!(strip_quotes("x"), "x");
    assert_eq!(strip_quotes("\""), "");
    assert_eq!(strip_quotes(""), "");
    assert_eq!(example_line("\"\"x\"\""), "      \"\"x\"\"");
    assert_eq!(example_line("unquoted"), "      \"unquoted\"");
}

#[test]
fn non_ascii_samples() {
    assert_eq!(
        example_lines("\"café au lait\"; \"naïve\""),
        vec!["      \"café au lait\"".to_string(), "      \"naïve\"".to_string()]
    );
}

#[test]
fn examples_ignored_without_example_mode() {
    let r = row(Some("v"), "move fast", Some("\"run fast\""));
    assert_eq!(row_lines(&r, false), vec!["[v] move fast".to_string()]);
    assert_eq!(
        row_lines(&r, true),
        vec!["[v] move fast".to_string(), "      \"run fast\"".to_string()]
    );
    let none = row(Some("v"), "move fast", None);
    assert_eq!(row_lines(&none, true), vec!["[v] move fast".to_string()]);
}

#[test]
fn bank_with_examples() {
    let rows = vec![
        row(Some("n"), "a financial institution", None),
        row(Some("n"), "sloping land beside water", Some("the river bank")),
    ];
    let lines = render_meanings("bank", &rows, true);
    assert_eq!(
        lines,
        vec![
            "\nMeanings of 'bank':".to_string(),
            "[n] a financial institution".to_string(),
            "[n] sloping land beside water".to_string(),
            "      \"the river bank\"".to_string(),
        ]
    );
    let printed: String = lines.iter().map(|l| format!("{}\n", l)).collect();
    assert_eq!(
        printed,
        "\nMeanings of 'bank':\n[n] a financial institution\n[n] sloping land beside water\n      \"the river bank\"\n"
    );
}

#[test]
fn adjective_and_adverb_rows() {
    let rows = vec![
        row(Some("a"), "having speed", Some("\"a fast car\"; \"fast food\"; ")),
        row(Some("r"), "quickly", None),
        row(Some("s"), "firmly fixed", Some("\"held fast\"")),
    ];
    let lines = render_meanings("fast", &rows, true);
    assert_eq!(
        lines,
        vec![
            "\nMeanings of 'fast':".to_string(),
            "[adj] having speed".to_string(),
            "      \"a fast car\"".to_string(),
            "      \"fast food\"".to_string(),
            "[adv] quickly".to_string(),
            "[adj] firmly fixed".to_string(),
            "      \"held fast\"".to_string(),
        ]
    );
}
