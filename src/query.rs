use vstd::prelude::*;

verus! {

/// Query that selects the part-of-speech code and the definition of each
/// sense of a word, one row per synset, ordered by part of speech and then
/// by sense id.
pub const DEFINITIONS_QUERY: &'static str = "
        SELECT ld.posid,ss.definition
        FROM words w
        JOIN senses s ON w.wordid = s.wordid
        JOIN synsets ss ON s.synsetid = ss.synsetid
        JOIN domains ld ON ss.domainid = ld.domainid
        WHERE w.word = ?
        GROUP BY ss.synsetid
        ORDER BY ld.posid, s.senseid;
        ";

/// Like `DEFINITIONS_QUERY`, with a third column that joins every sample
/// sentence of the synset with the separator `"; "` (NULL when there is none).
pub const EXAMPLES_QUERY: &'static str = "
        SELECT ld.posid,
               ss.definition,
               GROUP_CONCAT(sm.sample, '; ') as examples
        FROM words w
        JOIN senses s ON w.wordid = s.wordid
        JOIN synsets ss ON s.synsetid = ss.synsetid
        JOIN domains ld ON ss.domainid = ld.domainid
        LEFT JOIN samples sm ON ss.synsetid = sm.synsetid
        WHERE w.word = ?
        GROUP BY ss.synsetid
        ORDER BY ld.posid, s.senseid;
        ";

/// Returns the query text for the requested mode. The word is always bound
/// as the query's single parameter and never written into the text.
pub fn make_query(examples: bool) -> (r: &'static str)
    ensures
        r@ == (if examples { EXAMPLES_QUERY@ } else { DEFINITIONS_QUERY@ }),
{
    if examples {
        EXAMPLES_QUERY
    } else {
        DEFINITIONS_QUERY
    }
}

} // verus!
